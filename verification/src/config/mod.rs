//! Configuration: bindings, rules and settings.

pub mod bindings;
pub mod defaults;
pub mod lines;
pub mod parse;
pub mod types;

use crate::config::bindings::{merge_section, BindingEntry, BindingKey, ContextBindings};
use crate::config::defaults::{default_bindings, default_gesture_bindings, default_mouse_bindings};
use crate::config::parse::{
    parse_decoration_config, parse_output_rule, parse_window_rule, DecorationFileConfig,
    OutputRuleFile, WindowRuleFile,
};
use crate::config::types::{
    AccelProfile, Action, BackgroundConfig, BindingContext, CycleModifier, DecorationConfig,
    GestureBinding, GestureConfigEntry, GestureTrigger, KeyCombo, KeyboardLayout, ModKey,
    Modifiers, MouseAction, MouseBinding, MouseTrigger, OutputConfig, TrackpadSettings, WindowRule,
};
use crate::text::{cut_at, same_text};
use std::collections::HashMap;
use vstd::prelude::*;

verus! {

use crate::config::bindings::{after_section, viewed};
use crate::config::defaults::{
    context_bound,
    default_gestures,
    default_keys,
    default_mouse,
    keys_bound,
};
use crate::config::parse::{color_or, components, is_output, is_rule, rule_fault};
use crate::config::types::{ActionView, ONE};
use crate::text::cut;

broadcast use vstd::std_specs::hash::group_hash_axioms;

/// Trackpad settings of a configuration file.
pub struct TrackpadFile {
    pub tap_to_click: Option<bool>,
    pub natural_scroll: Option<bool>,
    pub tap_and_drag: Option<bool>,
    /// In millionths.
    pub accel_speed: Option<i64>,
}

/// Keyboard settings of a configuration file.
pub struct KeyboardFile {
    pub layout: Option<String>,
    pub variant: Option<String>,
    pub options: Option<String>,
    pub model: Option<String>,
    pub repeat_delay: Option<i32>,
    pub repeat_rate: Option<i32>,
    pub layout_independent: Option<bool>,
}

/// The bindings sections of a configuration file, one per context.
pub struct SectionsFile<K, V> {
    pub on_window: Option<Vec<BindingEntry<K, V>>>,
    pub on_canvas: Option<Vec<BindingEntry<K, V>>>,
    pub anywhere: Option<Vec<BindingEntry<K, V>>>,
}

impl<K, V> SectionsFile<K, V> {
    /// The section of one context.
    pub open spec fn section(self, context: BindingContext) -> Option<Vec<BindingEntry<K, V>>> {
        match context {
            BindingContext::OnWindow => self.on_window,
            BindingContext::OnCanvas => self.on_canvas,
            BindingContext::Anywhere => self.anywhere,
        }
    }
}

/// A configuration file as read, before anything is filled in. Fractions are
/// in millionths, and paths have their home directory written out.
pub struct ConfigFile {
    pub mod_key: Option<String>,
    pub cycle_modifier: Option<String>,
    pub keybindings: Option<Vec<BindingEntry<KeyCombo, Action>>>,
    pub mouse: SectionsFile<MouseBinding, MouseAction>,
    pub gestures: SectionsFile<GestureBinding, GestureConfigEntry>,
    pub background: BackgroundConfig,
    pub trackpad: TrackpadFile,
    pub keyboard: KeyboardFile,
    pub scroll_speed: Option<i64>,
    pub friction: Option<i64>,
    pub nudge_step: Option<i32>,
    pub pan_step: Option<i64>,
    pub edge_zone: Option<i64>,
    pub edge_pan_min: Option<i64>,
    pub edge_pan_max: Option<i64>,
    pub animation_speed: Option<i64>,
    /// Canvas positions in units, y upwards.
    pub anchors: Option<Vec<(i64, i64)>>,
    pub zoom_step: Option<i64>,
    pub zoom_fit_padding: Option<i64>,
    pub output_scale: Option<i64>,
    pub snap_enabled: Option<bool>,
    pub snap_gap: Option<i64>,
    pub snap_distance: Option<i64>,
    pub snap_break_force: Option<i64>,
    pub cursor_theme: Option<String>,
    pub cursor_size: Option<u32>,
    pub inactive_cursor_opacity: Option<i64>,
    pub decorations: DecorationFileConfig,
    pub window_rules: Option<Vec<WindowRuleFile>>,
    pub outputs: Option<Vec<OutputRuleFile>>,
    pub autostart: Option<Vec<String>>,
}

/// The settings in effect. Fractions are in millionths.
pub struct Config {
    pub mod_key: ModKey,
    /// Factor on scroll distances.
    pub scroll_speed: i64,
    /// What is left of the scroll momentum after a frame.
    pub friction: i64,
    /// Pixels per keyboard nudge.
    pub nudge_step: i32,
    /// Pixels per keyboard pan.
    pub pan_step: i64,
    /// Milliseconds before a held key repeats.
    pub repeat_delay: i32,
    /// Repeats per second.
    pub repeat_rate: i32,
    /// Width of the band at the screen edge that pans.
    pub edge_zone: i64,
    pub edge_pan_min: i64,
    pub edge_pan_max: i64,
    pub animation_speed: i64,
    pub cycle_modifier: CycleModifier,
    /// Factor per zoom key press.
    pub zoom_step: i64,
    /// Padding around all windows when zooming to fit.
    pub zoom_fit_padding: i64,
    pub output_scale: i64,
    pub snap_enabled: bool,
    pub snap_gap: i64,
    pub snap_distance: i64,
    pub snap_break_force: i64,
    pub background: BackgroundConfig,
    pub trackpad: TrackpadSettings,
    pub layout_independent: bool,
    pub keyboard_layout: KeyboardLayout,
    pub autostart: Vec<String>,
    pub cursor_theme: Option<String>,
    pub cursor_size: Option<u32>,
    /// Opacity of the cursor on outputs without the pointer.
    pub inactive_cursor_opacity: i64,
    pub decorations: DecorationConfig,
    /// Canvas positions in units, y downwards.
    pub nav_anchors: Vec<(i64, i64)>,
    pub window_rules: Vec<WindowRule>,
    pub output_configs: Vec<OutputConfig>,
    /// Key bindings by the number of the combination.
    pub bindings: HashMap<u64, Action>,
    pub mouse: ContextBindings<MouseBinding, MouseAction>,
    pub gestures: ContextBindings<GestureBinding, GestureConfigEntry>,
}

/// Where scrolling comes from.
#[derive(Clone, Copy, Debug, PartialEq, Eq, Structural)]
pub enum AxisSource {
    Finger,
    Continuous,
    Wheel,
    WheelTilt,
}

/// The mouse trigger of scrolling.
pub open spec fn scroll_trigger(source: AxisSource) -> MouseTrigger {
    if source == AxisSource::Finger {
        MouseTrigger::TrackpadScroll
    } else {
        MouseTrigger::WheelScroll
    }
}

/// A reference to a value that may be missing.
pub open spec fn borrowed<'a, V>(v: Option<V>) -> Option<&'a V> {
    match v {
        Some(x) => Some(&x),
        None => None,
    }
}

/// Three texts in a row.
pub open spec fn spliced(prefix: Seq<char>, middle: Seq<char>, suffix: Seq<char>) -> Seq<char> {
    prefix + middle + suffix
}

/// Whether an application matches a pattern. The first `*` stands for any
/// text; without one the two must be the same.
pub open spec fn pattern_matches(pattern: Seq<char>, app_id: Seq<char>) -> bool {
    match cut(pattern, '*') {
        Some((prefix, suffix)) => exists|middle: Seq<char>| #[trigger]
            spliced(prefix, middle, suffix) == app_id,
        None => pattern == app_id,
    }
}

/// The first of the first `n` rules that matches an application.
pub open spec fn first_rule(rules: Seq<WindowRule>, app_id: Seq<char>, n: nat) -> Option<int>
    decreases n,
{
    if n == 0 {
        None
    } else {
        match first_rule(rules, app_id, (n - 1) as nat) {
            Some(k) => Some(k),
            None => if pattern_matches(rules[n - 1].app_id@, app_id) {
                Some(n - 1)
            } else {
                None
            },
        }
    }
}

/// The rules with a position that match an application, among the first `n`.
pub open spec fn placed_rules(rules: Seq<WindowRule>, app_id: Seq<char>, n: nat) -> Seq<WindowRule>
    decreases n,
{
    if n == 0 {
        seq![]
    } else {
        let before = placed_rules(rules, app_id, (n - 1) as nat);
        if rules[n - 1].position is Some && pattern_matches(rules[n - 1].app_id@, app_id) {
            before.push(rules[n - 1])
        } else {
            before
        }
    }
}

/// The outputs of a configuration file that count, among the first `n`:
/// readable, and the first of their name.
pub open spec fn kept_outputs(rules: Seq<OutputRuleFile>, n: nat) -> Seq<OutputRuleFile>
    decreases n,
{
    if n == 0 {
        seq![]
    } else {
        let before = kept_outputs(rules, (n - 1) as nat);
        if rule_fault(rules[n - 1]) is None && !names_output(before, rules[n - 1].name@) {
            before.push(rules[n - 1])
        } else {
            before
        }
    }
}

/// Whether one of the outputs has this name.
pub open spec fn names_output(rules: Seq<OutputRuleFile>, name: Seq<char>) -> bool {
    exists|k: int| 0 <= k < rules.len() && (#[trigger] rules[k]).name@ == name
}

/// The entries of an optional list.
pub open spec fn entries<T>(list: Option<Vec<T>>) -> Seq<T> {
    match list {
        Some(v) => v@,
        None => seq![],
    }
}

/// A value inside bounds.
pub open spec fn held_within(v: i64, low: i64, high: i64) -> i64 {
    if v < low {
        low
    } else if v > high {
        high
    } else {
        v
    }
}

/// A setting, or what holds without it.
pub open spec fn or<T>(v: Option<T>, default: T) -> T {
    match v {
        Some(x) => x,
        None => default,
    }
}

/// The text of a setting, or what holds without it.
pub open spec fn text_or(v: Option<String>, default: Seq<char>) -> Seq<char> {
    match v {
        Some(x) => x@,
        None => default,
    }
}

/// The modifier key that a setting names; Super where nothing known is said.
pub open spec fn mod_key_named(s: Option<String>) -> ModKey {
    if s is Some && s->0@ == "alt"@ {
        ModKey::Alt
    } else {
        ModKey::Super
    }
}

/// Reads the modifier key.
pub fn parse_mod_key(s: &Option<String>) -> (r: ModKey)
    ensures
        r == mod_key_named(*s),
{
    match s {
        Some(name) => if same_text(name.as_str(), "alt") {
            ModKey::Alt
        } else {
            ModKey::Super
        },
        None => ModKey::Super,
    }
}

/// The cycle modifier that a setting names; Alt where nothing known is said.
pub open spec fn cycle_modifier_named(s: Option<String>) -> CycleModifier {
    if s is Some && s->0@ == "ctrl"@ {
        CycleModifier::Ctrl
    } else {
        CycleModifier::Alt
    }
}

fn text_or_default(v: Option<String>, default: &str) -> (r: String)
    ensures
        r@ == text_or(v, default@),
{
    match v {
        Some(x) => x,
        None => String::from_str(default),
    }
}

fn clamp_fraction(v: i64, low: i64, high: i64) -> (r: i64)
    requires
        low <= high,
    ensures
        r == held_within(v, low, high),
{
    if v < low {
        low
    } else if v > high {
        high
    } else {
        v
    }
}

/// Whether the characters of `s` from `at` on begin with `part`.
fn holds_at(s: &str, at: usize, part: &str) -> (r: bool)
    requires
        at + part@.len() <= s@.len(),
    ensures
        r == (s@.subrange(at as int, at + part@.len()) == part@),
{
    let total: usize = s.unicode_len();
    let n: usize = part.unicode_len();
    let mut i: usize = 0;
    while i < n
        invariant
            i <= n,
            n == part@.len(),
            total == s@.len(),
            at + n <= total,
            forall|k: int| 0 <= k < i ==> s@[at + k] == part@[k],
        decreases n - i,
    {
        if s.get_char(at + i) != part.get_char(i) {
            assert(s@.subrange(at as int, at + n)[i as int] != part@[i as int]);
            return false;
        }
        i += 1;
    }
    assert(s@.subrange(at as int, at + n) =~= part@);
    true
}

proof fn matched(pattern: Seq<char>, prefix: Seq<char>, middle: Seq<char>, suffix: Seq<char>)
    requires
        cut(pattern, '*') == Some((prefix, suffix)),
    ensures
        pattern_matches(pattern, prefix + middle + suffix),
{
    let app = prefix + middle + suffix;
    assert(spliced(prefix, middle, suffix) == app);
    assert(exists|m: Seq<char>| #[trigger] spliced(prefix, m, suffix) == app);
    match cut(pattern, '*') {
        Some((a, b)) => {
            assert(a == prefix);
            assert(exists|m: Seq<char>| #[trigger] spliced(a, m, b) == app);
            assert(pattern_matches(pattern, app));
        },
        None => {},
    }
}

/// Whether an application matches a rule's pattern.
pub fn rule_matches(rule: &WindowRule, app_id: &str) -> (r: bool)
    ensures
        r == pattern_matches(rule.app_id@, app_id@),
{
    match cut_at(rule.app_id.as_str(), '*') {
        Some((prefix, suffix)) => {
            let n: usize = app_id.unicode_len();
            let a: usize = prefix.unicode_len();
            let b: usize = suffix.unicode_len();
            proof {
                assert forall|middle: Seq<char>| #[trigger]
                    spliced(prefix@, middle, suffix@) == app_id@ implies a + b <= n && app_id@.subrange(
                    0,
                    a as int,
                ) == prefix@ && app_id@.subrange(n - b, n as int) == suffix@ by {
                    assert(app_id@.subrange(0, a as int) =~= prefix@);
                    assert(app_id@.subrange(n - b, n as int) =~= suffix@);
                }
            }
            if n < a || n - a < b {
                return false;
            }
            let front = holds_at(app_id, 0, prefix);
            let back = holds_at(app_id, n - b, suffix);
            proof {
                assert((n - b) + b == n);
                if front && back {
                    let middle = app_id@.subrange(a as int, n - b);
                    assert(prefix@ + middle + suffix@ =~= app_id@);
                    matched(rule.app_id@, prefix@, middle, suffix@);
                }
            }
            front && back
        },
        None => same_text(rule.app_id.as_str(), app_id),
    }
}

impl Config {
    /// The action of a key press.
    pub open spec fn key_action(self, modifiers: Modifiers, sym: u32) -> Option<Action> {
        let number = (KeyCombo { modifiers, sym }).normal().number();
        if self.bindings@.contains_key(number) {
            Some(self.bindings@[number])
        } else {
            None
        }
    }

    /// The action of a key press, if there is one.
    pub fn lookup(&self, modifiers: &Modifiers, sym: u32) -> (r: Option<&Action>)
        ensures
            r == borrowed(self.key_action(*modifiers, sym)),
    {
        let mut combo = KeyCombo { modifiers: *modifiers, sym };
        combo.normalize();
        self.bindings.get(&combo.code())
    }

    /// The action of a mouse button in a context, if there is one.
    pub fn mouse_button_lookup_ctx(
        &self,
        modifiers: &Modifiers,
        button: u32,
        context: BindingContext,
    ) -> (r: Option<&MouseAction>)
        ensures
            r == borrowed(
                self.mouse.bound(
                    (MouseBinding { modifiers: *modifiers, trigger: MouseTrigger::Button(button) }),
                    context,
                ),
            ),
    {
        let binding = MouseBinding { modifiers: *modifiers, trigger: MouseTrigger::Button(button) };
        self.mouse.lookup(&binding, context)
    }

    /// The action of scrolling in a context, if there is one.
    pub fn mouse_scroll_lookup_ctx(
        &self,
        modifiers: &Modifiers,
        source: AxisSource,
        context: BindingContext,
    ) -> (r: Option<&MouseAction>)
        ensures
            r == borrowed(
                self.mouse.bound(
                    (MouseBinding { modifiers: *modifiers, trigger: scroll_trigger(source) }),
                    context,
                ),
            ),
    {
        let trigger = match source {
            AxisSource::Finger => MouseTrigger::TrackpadScroll,
            _ => MouseTrigger::WheelScroll,
        };
        let binding = MouseBinding { modifiers: *modifiers, trigger };
        self.mouse.lookup(&binding, context)
    }

    /// What a gesture does in a context, if anything.
    pub fn gesture_lookup(
        &self,
        modifiers: &Modifiers,
        trigger: &GestureTrigger,
        context: BindingContext,
    ) -> (r: Option<&GestureConfigEntry>)
        ensures
            r == borrowed(
                self.gestures.bound(
                    (GestureBinding { modifiers: *modifiers, trigger: *trigger }),
                    context,
                ),
            ),
    {
        let binding = GestureBinding { modifiers: *modifiers, trigger: *trigger };
        self.gestures.lookup(&binding, context)
    }

    /// What is said of the output at a connector: the first entry of its name.
    pub fn output_config(&self, connector_name: &str) -> (r: Option<&OutputConfig>)
        ensures
            match r {
                Some(c) => exists|k: int| #![trigger self.output_configs@[k]]
                    0 <= k < self.output_configs@.len() && self.output_configs@[k] == *c
                        && c.name@ == connector_name@ && forall|j: int|
                        0 <= j < k ==> (#[trigger] self.output_configs@[j]).name@
                            != connector_name@,
                None => forall|j: int|
                    0 <= j < self.output_configs@.len() ==> (#[trigger] self.output_configs@[j]).name@
                        != connector_name@,
            },
    {
        let mut i: usize = 0;
        while i < self.output_configs.len()
            invariant
                i <= self.output_configs@.len(),
                forall|j: int|
                    0 <= j < i ==> (#[trigger] self.output_configs@[j]).name@ != connector_name@,
            decreases self.output_configs.len() - i,
        {
            if same_text(self.output_configs[i].name.as_str(), connector_name) {
                assert(self.output_configs@[i as int].name@ == connector_name@);
                return Some(&self.output_configs[i]);
            }
            i += 1;
        }
        None
    }

    /// The first window rule that matches an application.
    pub fn match_window_rule(&self, app_id: &str) -> (r: Option<&WindowRule>)
        ensures
            r == match first_rule(self.window_rules@, app_id@, self.window_rules@.len()) {
                Some(k) => Some(&self.window_rules@[k]),
                None => None::<&WindowRule>,
            },
    {
        let mut i: usize = 0;
        while i < self.window_rules.len()
            invariant
                i <= self.window_rules@.len(),
                first_rule(self.window_rules@, app_id@, i as nat) is None,
            decreases self.window_rules.len() - i,
        {
            if rule_matches(&self.window_rules[i], app_id) {
                proof {
                    first_rule_stays(
                        self.window_rules@,
                        app_id@,
                        (i + 1) as nat,
                        self.window_rules@.len(),
                    );
                }
                return Some(&self.window_rules[i]);
            }
            i += 1;
        }
        None
    }

    /// The window rule number `n`, counting from zero, of those with a
    /// position that match an application.
    pub fn match_window_rule_nth(&self, app_id: &str, n: usize) -> (r: Option<&WindowRule>)
        ensures
            r == ({
                let placed = placed_rules(self.window_rules@, app_id@, self.window_rules@.len());
                if n < placed.len() {
                    Some(&placed[n as int])
                } else {
                    None::<&WindowRule>
                }
            }),
    {
        let mut seen: usize = 0;
        let mut i: usize = 0;
        while i < self.window_rules.len()
            invariant
                i <= self.window_rules@.len(),
                seen <= n,
                seen <= i,
                seen == placed_rules(self.window_rules@, app_id@, i as nat).len(),
            decreases self.window_rules.len() - i,
        {
            let rule = &self.window_rules[i];
            if rule.position.is_some() && rule_matches(rule, app_id) {
                if seen == n {
                    proof {
                        placed_rules_grow(
                            self.window_rules@,
                            app_id@,
                            (i + 1) as nat,
                            self.window_rules@.len(),
                        );
                    }
                    return Some(rule);
                }
                seen += 1;
            }
            i += 1;
        }
        None
    }
}

proof fn first_rule_stays(rules: Seq<WindowRule>, app_id: Seq<char>, n: nat, m: nat)
    requires
        n <= m,
        first_rule(rules, app_id, n) is Some,
    ensures
        first_rule(rules, app_id, m) == first_rule(rules, app_id, n),
    decreases m,
{
    if n < m {
        first_rule_stays(rules, app_id, n, (m - 1) as nat);
    }
}

proof fn placed_rules_grow(rules: Seq<WindowRule>, app_id: Seq<char>, n: nat, m: nat)
    requires
        n <= m,
    ensures
        placed_rules(rules, app_id, n).len() <= placed_rules(rules, app_id, m).len(),
        forall|k: int|
            0 <= k < placed_rules(rules, app_id, n).len() ==> placed_rules(rules, app_id, m)[k]
                == placed_rules(rules, app_id, n)[k],
    decreases m,
{
    if n < m {
        placed_rules_grow(rules, app_id, n, (m - 1) as nat);
    }
}

/// The rule that counts for an application is the first that matches it.
pub proof fn first_rule_is_first(rules: Seq<WindowRule>, app_id: Seq<char>, n: nat)
    requires
        n <= rules.len(),
    ensures
        match first_rule(rules, app_id, n) {
            Some(k) => 0 <= k < n && pattern_matches(rules[k].app_id@, app_id) && forall|j: int|
                0 <= j < k ==> !pattern_matches((#[trigger] rules[j]).app_id@, app_id),
            None => forall|j: int|
                0 <= j < n ==> !pattern_matches((#[trigger] rules[j]).app_id@, app_id),
        },
    decreases n,
{
    if n > 0 {
        first_rule_is_first(rules, app_id, (n - 1) as nat);
    }
}

/// Whether the configured outputs are those of the entries that count.
pub open spec fn outputs_read(rules: Seq<OutputRuleFile>, configs: Seq<OutputConfig>) -> bool {
    let kept = kept_outputs(rules, rules.len());
    &&& configs.len() == kept.len()
    &&& forall|i: int| 0 <= i < kept.len() ==> is_output(kept[i], #[trigger] configs[i])
}

fn read_outputs(outputs: Option<Vec<OutputRuleFile>>) -> (r: Vec<OutputConfig>)
    ensures
        outputs_read(entries(outputs), r@),
{
    let mut rest = match outputs {
        Some(v) => v,
        None => Vec::new(),
    };
    let ghost all = rest@;
    assert(all =~= entries(outputs));
    let ghost mut done: int = 0;
    let mut configs: Vec<OutputConfig> = Vec::new();
    while rest.len() > 0
        invariant
            0 <= done,
            done + rest@.len() == all.len(),
            rest@ == all.skip(done),
            configs@.len() == kept_outputs(all, done as nat).len(),
            forall|i: int|
                0 <= i < configs@.len() ==> is_output(
                    kept_outputs(all, done as nat)[i],
                    #[trigger] configs@[i],
                ),
        decreases rest@.len(),
    {
        let ghost kept = kept_outputs(all, done as nat);
        assert(rest@[0] == all[done]);
        let rule = rest.remove(0);
        assert(kept_outputs(all, (done + 1) as nat) == if rule_fault(rule) is None && !names_output(
            kept,
            rule.name@,
        ) {
            kept.push(rule)
        } else {
            kept
        });
        if let Ok(config) = parse_output_rule(rule) {
            let mut known = false;
            let mut i: usize = 0;
            while i < configs.len()
                invariant
                    i <= configs@.len(),
                    configs@.len() == kept.len(),
                    forall|k: int|
                        0 <= k < configs@.len() ==> is_output(kept[k], #[trigger] configs@[k]),
                    known == exists|k: int| 0 <= k < i && (#[trigger] kept[k]).name@ == config.name@,
                decreases configs.len() - i,
            {
                assert(is_output(kept[i as int], configs@[i as int]));
                if same_text(configs[i].name.as_str(), config.name.as_str()) {
                    known = true;
                }
                i += 1;
            }
            if !known {
                configs.push(config);
            }
        }
        proof {
            assert(rest@ =~= all.skip(done + 1));
            done = done + 1;
        }
    }
    configs
}

/// Whether the rules are those of the entries, one by one.
pub open spec fn rules_read(files: Seq<WindowRuleFile>, rules: Seq<WindowRule>) -> bool {
    &&& rules.len() == files.len()
    &&& forall|i: int| 0 <= i < files.len() ==> is_rule(files[i], #[trigger] rules[i])
}

fn read_rules(files: Option<Vec<WindowRuleFile>>) -> (r: Vec<WindowRule>)
    ensures
        rules_read(entries(files), r@),
{
    let mut rest = match files {
        Some(v) => v,
        None => Vec::new(),
    };
    let ghost all = rest@;
    assert(all =~= entries(files));
    let mut rules: Vec<WindowRule> = Vec::new();
    while rest.len() > 0
        invariant
            rules@.len() + rest@.len() == all.len(),
            rest@ == all.skip(rules@.len() as int),
            forall|i: int| 0 <= i < rules@.len() ==> is_rule(all[i], #[trigger] rules@[i]),
        decreases rest@.len(),
    {
        assert(rest@[0] == all[rules@.len() as int]);
        let ghost before = rules@.len() as int;
        let file = rest.remove(0);
        rules.push(parse_window_rule(file));
        assert(rest@ =~= all.skip(before + 1));
    }
    rules
}

/// The anchors of a configuration file, or the canvas origin alone, with y
/// turned downwards.
pub open spec fn anchors_read(anchors: Option<Vec<(i64, i64)>>, r: Seq<(i64, i64)>) -> bool {
    match anchors {
        None => r == seq![(0i64, 0i64)],
        Some(v) => r.len() == v@.len() && forall|i: int|
            0 <= i < r.len() ==> (#[trigger] r[i]).0 == v@[i].0 && r[i].1 == -v@[i].1,
    }
}

fn read_anchors(anchors: Option<Vec<(i64, i64)>>) -> (r: Vec<(i64, i64)>)
    requires
        anchors matches Some(v) ==> forall|i: int| 0 <= i < v@.len() ==> (#[trigger] v@[i]).1 > i64::MIN,
    ensures
        anchors_read(anchors, r@),
{
    let mut out: Vec<(i64, i64)> = Vec::new();
    match anchors {
        None => {
            out.push((0, 0));
            assert(out@ =~= seq![(0i64, 0i64)]);
        },
        Some(v) => {
            let mut i: usize = 0;
            while i < v.len()
                invariant
                    i <= v@.len(),
                    out@.len() == i,
                    forall|k: int| 0 <= k < v@.len() ==> (#[trigger] v@[k]).1 > i64::MIN,
                    forall|k: int|
                        0 <= k < i ==> (#[trigger] out@[k]).0 == v@[k].0 && out@[k].1 == -v@[k].1,
                decreases v.len() - i,
            {
                let (x, y) = v[i];
                assert(v@[i as int].1 > i64::MIN);
                out.push((x, -y));
                i += 1;
            }
        },
    }
    out
}

impl ConfigFile {
    /// Anchors whose y can be turned round.
    pub open spec fn wf(self) -> bool {
        self.anchors matches Some(v) ==> forall|i: int|
            0 <= i < v@.len() ==> (#[trigger] v@[i]).1 > i64::MIN
    }
}

/// What the key bindings are: the default ones, changed by the file.
pub open spec fn keys_in_effect(raw: ConfigFile, terminal: Seq<char>, launcher: Seq<char>) -> Map<
    u64,
    ActionView,
> {
    let list = default_keys(
        mod_key_named(raw.mod_key),
        cycle_modifier_named(raw.cycle_modifier),
        terminal,
        launcher,
    );
    after_section(keys_bound(list, list.len()), raw.keybindings)
}

impl Config {
    /// Whether the bindings are the default ones, changed by the file.
    pub open spec fn bindings_from(self, raw: ConfigFile, terminal: Seq<char>, launcher: Seq<char>) -> bool {
        let mod_key = mod_key_named(raw.mod_key);
        &&& viewed(self.bindings@) == keys_in_effect(raw, terminal, launcher)
        &&& forall|c: BindingContext| viewed(#[trigger] self.mouse.table(c)) == after_section(
            context_bound(default_mouse(mod_key), c, default_mouse(mod_key).len()),
            raw.mouse.section(c),
        )
        &&& forall|c: BindingContext| viewed(#[trigger] self.gestures.table(c)) == after_section(
            context_bound(default_gestures(mod_key), c, default_gestures(mod_key).len()),
            raw.gestures.section(c),
        )
    }

    /// Whether the settings are those of the file, with defaults where it says
    /// nothing.
    pub open spec fn settings_from(self, raw: ConfigFile) -> bool {
        &&& self.mod_key == mod_key_named(raw.mod_key)
        &&& self.cycle_modifier == cycle_modifier_named(raw.cycle_modifier)
        &&& self.scroll_speed == or(raw.scroll_speed, 1_500_000)
        &&& self.friction == or(raw.friction, 960_000)
        &&& self.nudge_step == or(raw.nudge_step, 20)
        &&& self.pan_step == or(raw.pan_step, 100_000_000)
        &&& self.repeat_delay == or(raw.keyboard.repeat_delay, 200)
        &&& self.repeat_rate == or(raw.keyboard.repeat_rate, 25)
        &&& self.edge_zone == or(raw.edge_zone, 100_000_000)
        &&& self.edge_pan_min == or(raw.edge_pan_min, 4_000_000)
        &&& self.edge_pan_max == or(raw.edge_pan_max, 30_000_000)
        &&& self.animation_speed == or(raw.animation_speed, 300_000)
        &&& self.zoom_step == or(raw.zoom_step, 1_100_000)
        &&& self.zoom_fit_padding == or(raw.zoom_fit_padding, 100_000_000)
        &&& self.output_scale == or(raw.output_scale, 1_000_000)
        &&& self.snap_enabled == or(raw.snap_enabled, true)
        &&& self.snap_gap == or(raw.snap_gap, 12_000_000)
        &&& self.snap_distance == or(raw.snap_distance, 24_000_000)
        &&& self.snap_break_force == or(raw.snap_break_force, 32_000_000)
        &&& self.layout_independent == or(raw.keyboard.layout_independent, true)
        &&& self.cursor_size == raw.cursor_size
        &&& self.inactive_cursor_opacity == held_within(
            or(raw.inactive_cursor_opacity, 500_000),
            0,
            ONE,
        )
    }

    /// Whether the devices and looks are those of the file.
    pub open spec fn devices_from(self, raw: ConfigFile) -> bool {
        &&& self.background == raw.background
        &&& self.cursor_theme == raw.cursor_theme
        &&& self.trackpad.tap_to_click == or(raw.trackpad.tap_to_click, true)
        &&& self.trackpad.natural_scroll == or(raw.trackpad.natural_scroll, true)
        &&& self.trackpad.tap_and_drag == or(raw.trackpad.tap_and_drag, true)
        &&& self.trackpad.accel_speed == held_within(
            or(raw.trackpad.accel_speed, 0),
            (-ONE) as i64,
            ONE,
        )
        &&& self.trackpad.accel_profile == AccelProfile::Adaptive
        &&& self.trackpad.click_method is None
        &&& self.keyboard_layout.layout@ == text_or(raw.keyboard.layout, "us"@)
        &&& self.keyboard_layout.variant@ == text_or(raw.keyboard.variant, seq![])
        &&& self.keyboard_layout.options@ == text_or(raw.keyboard.options, seq![])
        &&& self.keyboard_layout.model@ == text_or(raw.keyboard.model, seq![])
        &&& components(self.decorations.bg_color) == color_or(
            raw.decorations.bg_color,
            (0x30, 0x30, 0x30, 0xFF),
        )
        &&& components(self.decorations.fg_color) == color_or(
            raw.decorations.fg_color,
            (0xFF, 0xFF, 0xFF, 0xFF),
        )
        &&& self.decorations.corner_radius == 8
    }

    /// Whether the lists are those of the file.
    pub open spec fn lists_from(self, raw: ConfigFile) -> bool {
        &&& anchors_read(raw.anchors, self.nav_anchors@)
        &&& rules_read(entries(raw.window_rules), self.window_rules@)
        &&& outputs_read(entries(raw.outputs), self.output_configs@)
        &&& self.autostart@ == entries(raw.autostart)
    }

    /// Fills a configuration file in. Bindings of the file come on top of the
    /// default ones; what cannot be read counts as not said.
    pub fn from_raw(raw: ConfigFile, terminal: String, launcher: String) -> (r: Config)
        requires
            raw.wf(),
        ensures
            r.bindings_from(raw, terminal@, launcher@),
            r.settings_from(raw),
            r.devices_from(raw),
            r.lists_from(raw),
    {
        let mod_key = parse_mod_key(&raw.mod_key);
        let cycle_modifier = match &raw.cycle_modifier {
            Some(s) => if same_text(s.as_str(), "ctrl") {
                CycleModifier::Ctrl
            } else {
                CycleModifier::Alt
            },
            None => CycleModifier::Alt,
        };
        let mut bindings = default_bindings(mod_key, cycle_modifier, terminal, launcher);
        merge_section(&mut bindings, raw.keybindings);

        let mut mouse = default_mouse_bindings(mod_key);
        merge_section(mouse.context_map_mut(BindingContext::OnWindow), raw.mouse.on_window);
        merge_section(mouse.context_map_mut(BindingContext::OnCanvas), raw.mouse.on_canvas);
        merge_section(mouse.context_map_mut(BindingContext::Anywhere), raw.mouse.anywhere);

        let mut gestures = default_gesture_bindings(mod_key);
        merge_section(gestures.context_map_mut(BindingContext::OnWindow), raw.gestures.on_window);
        merge_section(gestures.context_map_mut(BindingContext::OnCanvas), raw.gestures.on_canvas);
        merge_section(gestures.context_map_mut(BindingContext::Anywhere), raw.gestures.anywhere);

        let trackpad = TrackpadSettings {
            tap_to_click: raw.trackpad.tap_to_click.unwrap_or(true),
            natural_scroll: raw.trackpad.natural_scroll.unwrap_or(true),
            tap_and_drag: raw.trackpad.tap_and_drag.unwrap_or(true),
            accel_speed: clamp_fraction(raw.trackpad.accel_speed.unwrap_or(0), -ONE, ONE),
            accel_profile: AccelProfile::Adaptive,
            click_method: None,
        };
        proof {
            reveal_strlit("");
            assert(""@ =~= seq![]);
        }
        let keyboard_layout = KeyboardLayout {
            layout: text_or_default(raw.keyboard.layout, "us"),
            variant: text_or_default(raw.keyboard.variant, ""),
            options: text_or_default(raw.keyboard.options, ""),
            model: text_or_default(raw.keyboard.model, ""),
        };
        let autostart = match raw.autostart {
            Some(v) => v,
            None => Vec::new(),
        };
        assert(autostart@ =~= entries(raw.autostart));
        Config {
            mod_key,
            scroll_speed: raw.scroll_speed.unwrap_or(1_500_000),
            friction: raw.friction.unwrap_or(960_000),
            nudge_step: raw.nudge_step.unwrap_or(20),
            pan_step: raw.pan_step.unwrap_or(100_000_000),
            repeat_delay: raw.keyboard.repeat_delay.unwrap_or(200),
            repeat_rate: raw.keyboard.repeat_rate.unwrap_or(25),
            edge_zone: raw.edge_zone.unwrap_or(100_000_000),
            edge_pan_min: raw.edge_pan_min.unwrap_or(4_000_000),
            edge_pan_max: raw.edge_pan_max.unwrap_or(30_000_000),
            animation_speed: raw.animation_speed.unwrap_or(300_000),
            cycle_modifier,
            zoom_step: raw.zoom_step.unwrap_or(1_100_000),
            zoom_fit_padding: raw.zoom_fit_padding.unwrap_or(100_000_000),
            output_scale: raw.output_scale.unwrap_or(1_000_000),
            snap_enabled: raw.snap_enabled.unwrap_or(true),
            snap_gap: raw.snap_gap.unwrap_or(12_000_000),
            snap_distance: raw.snap_distance.unwrap_or(24_000_000),
            snap_break_force: raw.snap_break_force.unwrap_or(32_000_000),
            background: raw.background,
            trackpad,
            layout_independent: raw.keyboard.layout_independent.unwrap_or(true),
            keyboard_layout,
            autostart,
            cursor_theme: raw.cursor_theme,
            cursor_size: raw.cursor_size,
            inactive_cursor_opacity: clamp_fraction(
                raw.inactive_cursor_opacity.unwrap_or(500_000),
                0,
                ONE,
            ),
            decorations: parse_decoration_config(raw.decorations),
            nav_anchors: read_anchors(raw.anchors),
            window_rules: read_rules(raw.window_rules),
            output_configs: read_outputs(raw.outputs),
            bindings,
            mouse,
            gestures,
        }
    }
}

impl<K, V> Default for SectionsFile<K, V> {
    fn default() -> (r: SectionsFile<K, V>)
        ensures
            forall|c: BindingContext| (#[trigger] r.section(c)) is None,
    {
        SectionsFile { on_window: None, on_canvas: None, anywhere: None }
    }
}

impl ConfigFile {
    /// Whether nothing is set.
    pub open spec fn says_nothing(self) -> bool {
        &&& self.mod_key is None
        &&& self.cycle_modifier is None
        &&& self.keybindings is None
        &&& forall|c: BindingContext| (#[trigger] self.mouse.section(c)) is None
        &&& forall|c: BindingContext| (#[trigger] self.gestures.section(c)) is None
        &&& self.background.shader_path is None
        &&& self.background.tile_path is None
        &&& self.trackpad.tap_to_click is None
        &&& self.trackpad.natural_scroll is None
        &&& self.trackpad.tap_and_drag is None
        &&& self.trackpad.accel_speed is None
        &&& self.keyboard.layout is None
        &&& self.keyboard.variant is None
        &&& self.keyboard.options is None
        &&& self.keyboard.model is None
        &&& self.keyboard.repeat_delay is None
        &&& self.keyboard.repeat_rate is None
        &&& self.keyboard.layout_independent is None
        &&& self.scroll_speed is None
        &&& self.friction is None
        &&& self.nudge_step is None
        &&& self.pan_step is None
        &&& self.edge_zone is None
        &&& self.edge_pan_min is None
        &&& self.edge_pan_max is None
        &&& self.animation_speed is None
        &&& self.anchors is None
        &&& self.zoom_step is None
        &&& self.zoom_fit_padding is None
        &&& self.output_scale is None
        &&& self.snap_enabled is None
        &&& self.snap_gap is None
        &&& self.snap_distance is None
        &&& self.snap_break_force is None
        &&& self.cursor_theme is None
        &&& self.cursor_size is None
        &&& self.inactive_cursor_opacity is None
        &&& self.decorations.bg_color is None
        &&& self.decorations.fg_color is None
        &&& self.window_rules is None
        &&& self.outputs is None
        &&& self.autostart is None
    }
}

impl Default for ConfigFile {
    /// An empty file.
    fn default() -> (r: ConfigFile)
        ensures
            r.says_nothing(),
    {
        ConfigFile {
            mod_key: None,
            cycle_modifier: None,
            keybindings: None,
            mouse: SectionsFile::default(),
            gestures: SectionsFile::default(),
            background: BackgroundConfig::default(),
            trackpad: TrackpadFile {
                tap_to_click: None,
                natural_scroll: None,
                tap_and_drag: None,
                accel_speed: None,
            },
            keyboard: KeyboardFile {
                layout: None,
                variant: None,
                options: None,
                model: None,
                repeat_delay: None,
                repeat_rate: None,
                layout_independent: None,
            },
            scroll_speed: None,
            friction: None,
            nudge_step: None,
            pan_step: None,
            edge_zone: None,
            edge_pan_min: None,
            edge_pan_max: None,
            animation_speed: None,
            anchors: None,
            zoom_step: None,
            zoom_fit_padding: None,
            output_scale: None,
            snap_enabled: None,
            snap_gap: None,
            snap_distance: None,
            snap_break_force: None,
            cursor_theme: None,
            cursor_size: None,
            inactive_cursor_opacity: None,
            decorations: DecorationFileConfig { bg_color: None, fg_color: None },
            window_rules: None,
            outputs: None,
            autostart: None,
        }
    }
}

impl Config {
    /// The settings without a configuration file.
    pub fn defaults(terminal: String, launcher: String) -> (r: Config)
        ensures
            exists|raw: ConfigFile| #[trigger]
                raw.says_nothing() && r.bindings_from(raw, terminal@, launcher@)
                    && r.settings_from(raw) && r.devices_from(raw) && r.lists_from(raw),
    {
        let raw = ConfigFile::default();
        let ghost file = raw;
        let config = Config::from_raw(raw, terminal, launcher);
        assert(file.says_nothing());
        config
    }
}

/// Of several output entries with one name only the first readable one counts:
/// no name is configured twice.
pub proof fn kept_outputs_have_one_name_each(rules: Seq<OutputRuleFile>, n: nat, i: int, j: int)
    requires
        n <= rules.len(),
        0 <= i < j < kept_outputs(rules, n).len(),
    ensures
        kept_outputs(rules, n)[i].name@ != kept_outputs(rules, n)[j].name@,
    decreases n,
{
    if n > 0 {
        let before = kept_outputs(rules, (n - 1) as nat);
        if j < before.len() {
            kept_outputs_have_one_name_each(rules, (n - 1) as nat, i, j);
        } else {
            assert(before[i].name@ != rules[n - 1].name@);
        }
    }
}

/// Every readable output entry has its name configured, by itself or by an
/// earlier entry.
pub proof fn readable_outputs_are_named(rules: Seq<OutputRuleFile>, n: nat, k: int)
    requires
        n <= rules.len(),
        0 <= k < n,
        rule_fault(rules[k]) is None,
    ensures
        names_output(kept_outputs(rules, n), rules[k].name@),
    decreases n,
{
    let before = kept_outputs(rules, (n - 1) as nat);
    let now = kept_outputs(rules, n);
    if k < n - 1 {
        readable_outputs_are_named(rules, (n - 1) as nat, k);
        let i = choose|i: int| 0 <= i < before.len() && (#[trigger] before[i]).name@ == rules[k].name@;
        assert(now[i] == before[i]);
    } else if !names_output(before, rules[k].name@) {
        assert(now[before.len() as int] == rules[k]);
    }
}

} // verus!
