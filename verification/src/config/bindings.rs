//! Bindings by context.

use crate::config::types::{
    BindingContext, GestureBinding, GestureTrigger, KeyCombo, Modifiers, MouseBinding, MouseTrigger,
};
use std::collections::HashMap;
use std::marker::PhantomData;
use vstd::prelude::*;

verus! {

broadcast use vstd::std_specs::hash::group_hash_axioms;

/// Something that bindings are kept by. Every value has a number of its own.
pub trait BindingKey: Sized {
    /// The number of this value.
    spec fn number(&self) -> u64;

    /// The number of this value.
    fn code(&self) -> (r: u64)
        ensures
            r == self.number(),
    ;

    /// The value that stands for all values that mean the same.
    spec fn canonical(&self) -> Self;

    /// The value that stands for all values that mean the same.
    fn to_canonical(&self) -> (r: Self)
        ensures
            r == self.canonical(),
    ;

    /// Different values have different numbers.
    proof fn numbers_differ(a: Self, b: Self)
        ensures
            a.number() == b.number() ==> a == b,
    ;
}

/// A modifier's share in the number of a set of modifiers.
pub open spec fn bit(set: bool, value: int) -> int {
    if set {
        value
    } else {
        0
    }
}

/// The number of a set of modifiers.
pub open spec fn modifier_number(m: Modifiers) -> int {
    bit(m.ctrl, 1) + bit(m.alt, 2) + bit(m.shift, 4) + bit(m.logo, 8)
}

fn modifier_code(m: &Modifiers) -> (r: u64)
    ensures
        r == modifier_number(*m),
        r < 16,
{
    let mut code: u64 = 0;
    if m.ctrl {
        code += 1;
    }
    if m.alt {
        code += 2;
    }
    if m.shift {
        code += 4;
    }
    if m.logo {
        code += 8;
    }
    code
}

impl BindingKey for KeyCombo {
    open spec fn number(&self) -> u64 {
        (modifier_number(self.modifiers) + 16 * self.sym) as u64
    }

    fn code(&self) -> (r: u64) {
        modifier_code(&self.modifiers) + 16 * self.sym as u64
    }

    open spec fn canonical(&self) -> KeyCombo {
        self.normal()
    }

    fn to_canonical(&self) -> (r: KeyCombo) {
        let mut combo = *self;
        combo.normalize();
        combo
    }

    proof fn numbers_differ(a: KeyCombo, b: KeyCombo) {
    }
}

/// The number of a mouse trigger.
pub open spec fn mouse_trigger_number(t: MouseTrigger) -> int {
    match t {
        MouseTrigger::TrackpadScroll => 0,
        MouseTrigger::WheelScroll => 1,
        MouseTrigger::Button(b) => 2 + b,
    }
}

impl BindingKey for MouseBinding {
    open spec fn number(&self) -> u64 {
        (modifier_number(self.modifiers) + 16 * mouse_trigger_number(self.trigger)) as u64
    }

    fn code(&self) -> (r: u64) {
        let trigger: u64 = match self.trigger {
            MouseTrigger::TrackpadScroll => 0,
            MouseTrigger::WheelScroll => 1,
            MouseTrigger::Button(b) => 2 + b as u64,
        };
        modifier_code(&self.modifiers) + 16 * trigger
    }

    open spec fn canonical(&self) -> MouseBinding {
        *self
    }

    fn to_canonical(&self) -> (r: MouseBinding) {
        *self
    }

    proof fn numbers_differ(a: MouseBinding, b: MouseBinding) {
    }
}

/// The number of a gesture, apart from its fingers, and the fingers.
pub open spec fn gesture_parts(t: GestureTrigger) -> (int, u32) {
    match t {
        GestureTrigger::Swipe { fingers } => (0, fingers),
        GestureTrigger::SwipeUp { fingers } => (1, fingers),
        GestureTrigger::SwipeDown { fingers } => (2, fingers),
        GestureTrigger::SwipeLeft { fingers } => (3, fingers),
        GestureTrigger::SwipeRight { fingers } => (4, fingers),
        GestureTrigger::DoubletapSwipe { fingers } => (5, fingers),
        GestureTrigger::Pinch { fingers } => (6, fingers),
        GestureTrigger::PinchIn { fingers } => (7, fingers),
        GestureTrigger::PinchOut { fingers } => (8, fingers),
        GestureTrigger::Hold { fingers } => (9, fingers),
    }
}

impl BindingKey for GestureBinding {
    open spec fn number(&self) -> u64 {
        let (kind, fingers) = gesture_parts(self.trigger);
        (modifier_number(self.modifiers) + 16 * kind + 160 * fingers) as u64
    }

    fn code(&self) -> (r: u64) {
        let (kind, fingers): (u64, u32) = match self.trigger {
            GestureTrigger::Swipe { fingers } => (0, fingers),
            GestureTrigger::SwipeUp { fingers } => (1, fingers),
            GestureTrigger::SwipeDown { fingers } => (2, fingers),
            GestureTrigger::SwipeLeft { fingers } => (3, fingers),
            GestureTrigger::SwipeRight { fingers } => (4, fingers),
            GestureTrigger::DoubletapSwipe { fingers } => (5, fingers),
            GestureTrigger::Pinch { fingers } => (6, fingers),
            GestureTrigger::PinchIn { fingers } => (7, fingers),
            GestureTrigger::PinchOut { fingers } => (8, fingers),
            GestureTrigger::Hold { fingers } => (9, fingers),
        };
        modifier_code(&self.modifiers) + 16 * kind + 160 * fingers as u64
    }

    open spec fn canonical(&self) -> GestureBinding {
        *self
    }

    fn to_canonical(&self) -> (r: GestureBinding) {
        *self
    }

    proof fn numbers_differ(a: GestureBinding, b: GestureBinding) {
    }
}

/// Bindings on windows, on the empty canvas, and anywhere, each by the number
/// of its key.
pub struct ContextBindings<K: BindingKey, V> {
    pub on_window: HashMap<u64, V>,
    pub on_canvas: HashMap<u64, V>,
    pub anywhere: HashMap<u64, V>,
    pub keys: PhantomData<K>,
}

impl<K: BindingKey, V> ContextBindings<K, V> {
    /// The bindings of one context.
    pub open spec fn table(self, context: BindingContext) -> Map<u64, V> {
        match context {
            BindingContext::OnWindow => self.on_window@,
            BindingContext::OnCanvas => self.on_canvas@,
            BindingContext::Anywhere => self.anywhere@,
        }
    }

    /// What a key does in a context: the binding of the context itself, else
    /// the one that holds anywhere.
    pub open spec fn bound(self, key: K, context: BindingContext) -> Option<V> {
        if self.table(context).contains_key(key.number()) {
            Some(self.table(context)[key.number()])
        } else if self.anywhere@.contains_key(key.number()) {
            Some(self.anywhere@[key.number()])
        } else {
            None
        }
    }

    /// No bindings.
    pub fn empty() -> (r: Self)
        ensures
            forall|c: BindingContext| #[trigger] r.table(c) == Map::<u64, V>::empty(),
    {
        ContextBindings {
            on_window: HashMap::new(),
            on_canvas: HashMap::new(),
            anywhere: HashMap::new(),
            keys: PhantomData,
        }
    }

    /// What `key` does in `context`.
    pub fn lookup(&self, key: &K, context: BindingContext) -> (r: Option<&V>)
        ensures
            r == match self.bound(*key, context) {
                Some(v) => Some(&v),
                None => None::<&V>,
            },
    {
        let code: u64 = key.code();
        let specific = match context {
            BindingContext::OnWindow => self.on_window.get(&code),
            BindingContext::OnCanvas => self.on_canvas.get(&code),
            BindingContext::Anywhere => None,
        };
        if specific.is_some() {
            specific
        } else {
            self.anywhere.get(&code)
        }
    }

    /// The bindings of one context, to change.
    pub(crate) fn context_map_mut(&mut self, context: BindingContext) -> (r: &mut HashMap<u64, V>)
        ensures
            r@ == old(self).table(context),
            final(self).table(context) == final(r)@,
            forall|c: BindingContext| c != context ==> #[trigger] final(self).table(c) == old(
                self,
            ).table(c),
    {
        match context {
            BindingContext::OnWindow => &mut self.on_window,
            BindingContext::OnCanvas => &mut self.on_canvas,
            BindingContext::Anywhere => &mut self.anywhere,
        }
    }

    /// Binds `key` in `context`, in place of what it did there.
    pub fn insert(&mut self, context: BindingContext, key: K, value: V)
        ensures
            final(self).table(context) == old(self).table(context).insert(key.number(), value),
            forall|c: BindingContext| c != context ==> #[trigger] final(self).table(c) == old(
                self,
            ).table(c),
    {
        let code: u64 = key.code();
        self.context_map_mut(context).insert(code, value);
    }

    /// Takes the binding of `key` out of `context`.
    pub fn remove(&mut self, context: BindingContext, key: &K)
        ensures
            final(self).table(context) == old(self).table(context).remove(key.number()),
            forall|c: BindingContext| c != context ==> #[trigger] final(self).table(c) == old(
                self,
            ).table(c),
    {
        let code: u64 = key.code();
        self.context_map_mut(context).remove(&code);
    }
}

/// One line of a bindings section: the key where it can be read, the text of
/// the action, and the action where the text can be read.
pub struct BindingEntry<K, V> {
    pub key: Option<K>,
    pub text: String,
    pub action: Option<V>,
}

/// The bindings after one line. `none` takes the binding out; what cannot be
/// read changes nothing.
pub open spec fn after_entry<K: BindingKey, V: View>(
    table: Map<u64, V::V>,
    entry: BindingEntry<K, V>,
) -> Map<u64, V::V> {
    match entry.key {
        None => table,
        Some(k) => if entry.text@ == "none"@ {
            table.remove(k.canonical().number())
        } else {
            match entry.action {
                Some(a) => table.insert(k.canonical().number(), a@),
                None => table,
            }
        },
    }
}

/// The bindings after the first `n` lines of a section.
pub open spec fn after_entries<K: BindingKey, V: View>(
    table: Map<u64, V::V>,
    entries: Seq<BindingEntry<K, V>>,
    n: nat,
) -> Map<u64, V::V>
    decreases n,
{
    if n == 0 {
        table
    } else {
        after_entry(after_entries(table, entries, (n - 1) as nat), entries[n - 1])
    }
}

/// The bindings after a section that may be missing.
pub open spec fn after_section<K: BindingKey, V: View>(
    table: Map<u64, V::V>,
    section: Option<Vec<BindingEntry<K, V>>>,
) -> Map<u64, V::V> {
    match section {
        Some(entries) => after_entries(table, entries@, entries@.len()),
        None => table,
    }
}

/// The bound actions as mathematical values.
pub open spec fn viewed<V: View>(table: Map<u64, V>) -> Map<u64, V::V> {
    table.map_values(|v: V| v@)
}

/// Applies the lines of a section, in order.
pub fn merge_section<K: BindingKey, V: View>(
    table: &mut HashMap<u64, V>,
    section: Option<Vec<BindingEntry<K, V>>>,
)
    ensures
        viewed(final(table)@) == after_section(viewed(old(table)@), section),
{
    let mut rest = match section {
        Some(entries) => entries,
        None => {
            return;
        },
    };
    let ghost all = rest@;
    let ghost first = viewed(table@);
    let ghost mut done: int = 0;
    while rest.len() > 0
        invariant
            0 <= done,
            done + rest@.len() == all.len(),
            rest@ == all.skip(done),
            viewed(table@) == after_entries(first, all, done as nat),
        decreases rest@.len(),
    {
        assert(rest@[0] == all[done]);
        let entry = rest.remove(0);
        let ghost before = table@;
        if let Some(k) = entry.key {
            let code: u64 = k.to_canonical().code();
            if crate::text::same_text(entry.text.as_str(), "none") {
                table.remove(&code);
                assert(viewed(table@) =~= viewed(before).remove(code));
            } else if let Some(action) = entry.action {
                table.insert(code, action);
                assert(viewed(table@) =~= viewed(before).insert(code, action@));
            }
        }
        proof {
            assert(rest@ =~= all.skip(done + 1));
            done = done + 1;
        }
    }
}

/// Whether a line says something about the key with this number.
pub open spec fn concerns<K: BindingKey, V: View>(entry: BindingEntry<K, V>, number: u64) -> bool {
    &&& entry.key matches Some(k) && k.canonical().number() == number
    &&& entry.text@ == "none"@ || entry.action is Some
}

/// What is not mentioned keeps its binding.
pub proof fn unmentioned_keeps_its_binding<K: BindingKey, V: View>(
    table: Map<u64, V::V>,
    entries: Seq<BindingEntry<K, V>>,
    n: nat,
    number: u64,
)
    requires
        n <= entries.len(),
        forall|i: int| 0 <= i < n ==> !concerns(#[trigger] entries[i], number),
    ensures
        after_entries(table, entries, n).contains_key(number) == table.contains_key(number),
        table.contains_key(number) ==> after_entries(table, entries, n)[number] == table[number],
    decreases n,
{
    if n > 0 {
        unmentioned_keeps_its_binding(table, entries, (n - 1) as nat, number);
        assert(!concerns(entries[n - 1], number));
    }
}

/// The last line about a key decides: `none` unbinds it, and any other line
/// binds it to its action, whatever held before.
pub proof fn last_line_decides<K: BindingKey, V: View>(
    table: Map<u64, V::V>,
    entries: Seq<BindingEntry<K, V>>,
    n: nat,
    last: int,
    number: u64,
)
    requires
        0 <= last < n <= entries.len(),
        concerns(entries[last], number),
        forall|i: int| last < i < n ==> !concerns(#[trigger] entries[i], number),
    ensures
        after_entries(table, entries, n).contains_key(number) == (entries[last].text@ != "none"@),
        entries[last].text@ != "none"@ ==> after_entries(table, entries, n)[number]
            == entries[last].action->0@,
    decreases n,
{
    if last < n - 1 {
        last_line_decides(table, entries, (n - 1) as nat, last, number);
        assert(!concerns(entries[n - 1], number));
    }
}

/// `after` is `before` with `key` bound to `value` in `context`.
pub open spec fn is_insertion<K: BindingKey, V>(
    before: ContextBindings<K, V>,
    after: ContextBindings<K, V>,
    context: BindingContext,
    key: K,
    value: V,
) -> bool {
    &&& after.table(context) == before.table(context).insert(key.number(), value)
    &&& forall|c: BindingContext| c != context ==> #[trigger] after.table(c) == before.table(c)
}

/// `after` is `before` without the binding of `key` in `context`.
pub open spec fn is_removal<K: BindingKey, V>(
    before: ContextBindings<K, V>,
    after: ContextBindings<K, V>,
    context: BindingContext,
    key: K,
) -> bool {
    &&& after.table(context) == before.table(context).remove(key.number())
    &&& forall|c: BindingContext| c != context ==> #[trigger] after.table(c) == before.table(c)
}

/// A binding is found again where it was made, and changes nothing for other
/// keys.
pub proof fn insert_then_lookup<K: BindingKey, V>(
    before: ContextBindings<K, V>,
    after: ContextBindings<K, V>,
    context: BindingContext,
    key: K,
    value: V,
    other: K,
    elsewhere: BindingContext,
)
    requires
        is_insertion(before, after, context, key, value),
    ensures
        after.bound(key, context) == Some(value),
        other != key ==> after.bound(other, elsewhere) == before.bound(other, elsewhere),
{
    K::numbers_differ(key, other);
    assert(after.table(elsewhere) == before.table(elsewhere) || elsewhere == context);
    assert(after.table(BindingContext::Anywhere) == before.table(BindingContext::Anywhere)
        || context == BindingContext::Anywhere);
}

/// A key that was unbound in a context does there what it does anywhere, and
/// nothing changes for other keys.
pub proof fn remove_then_lookup<K: BindingKey, V>(
    before: ContextBindings<K, V>,
    after: ContextBindings<K, V>,
    context: BindingContext,
    key: K,
    other: K,
    elsewhere: BindingContext,
)
    requires
        is_removal(before, after, context, key),
    ensures
        after.bound(key, context) == after.bound(key, BindingContext::Anywhere),
        context == BindingContext::Anywhere ==> after.bound(key, context) is None,
        other != key ==> after.bound(other, elsewhere) == before.bound(other, elsewhere),
{
    K::numbers_differ(key, other);
    assert(after.table(elsewhere) == before.table(elsewhere) || elsewhere == context);
    assert(after.table(BindingContext::Anywhere) == before.table(BindingContext::Anywhere)
        || context == BindingContext::Anywhere);
}

/// A binding that holds anywhere reaches every context that has none of its
/// own, and a context's own binding hides it.
pub proof fn context_comes_first<K: BindingKey, V>(b: ContextBindings<K, V>, key: K, context: BindingContext)
    ensures
        b.table(context).contains_key(key.number()) ==> b.bound(key, context) == Some(
            b.table(context)[key.number()],
        ),
        !b.table(context).contains_key(key.number()) ==> b.bound(key, context) == b.bound(
            key,
            BindingContext::Anywhere,
        ),
{
}

} // verus!
