//! The list of windows that taskbars and docks are shown.
//!
//! Windows, clients' managers, their handles of windows, and outputs are known
//! by number.

use crate::desk::retain_others;
use crate::text::same_text;
use vstd::prelude::*;

verus! {

use crate::desk::without;

/// Numbers of states in the protocol.
pub const STATE_MAXIMIZED: u32 = 0;

pub const STATE_ACTIVATED: u32 = 2;

pub const STATE_FULLSCREEN: u32 = 3;

/// The states of a window as clients see them.
pub open spec fn state_list(maximized: bool, fullscreen: bool, has_focus: bool) -> Seq<u32> {
    (if maximized {
        seq![STATE_MAXIMIZED]
    } else {
        seq![]
    }) + (if fullscreen {
        seq![STATE_FULLSCREEN]
    } else {
        seq![]
    }) + (if has_focus {
        seq![STATE_ACTIVATED]
    } else {
        seq![]
    })
}

/// The states of a window as clients see them.
pub fn to_state_vec(maximized: bool, fullscreen: bool, has_focus: bool) -> (r: Vec<u32>)
    ensures
        r@ == state_list(maximized, fullscreen, has_focus),
{
    let mut rv: Vec<u32> = Vec::new();
    if maximized {
        rv.push(STATE_MAXIMIZED);
    }
    if fullscreen {
        rv.push(STATE_FULLSCREEN);
    }
    if has_focus {
        rv.push(STATE_ACTIVATED);
    }
    assert(rv@ =~= state_list(maximized, fullscreen, has_focus));
    rv
}

/// A handle of a window that a client has, and the outputs that it was told
/// the window is on.
pub struct Instance {
    pub handle: u64,
    pub outputs: Vec<u64>,
}

/// What clients were told of a window.
pub struct ToplevelData {
    pub window: u64,
    pub title: Option<String>,
    pub app_id: Option<String>,
    pub states: Vec<u32>,
    pub instances: Vec<Instance>,
}

/// What clients were told of a window, as sequences.
#[verifier::ext_equal]
pub struct ToplevelView {
    pub window: u64,
    pub title: Option<Seq<char>>,
    pub app_id: Option<Seq<char>>,
    pub states: Seq<u32>,
    pub instances: Seq<(u64, Seq<u64>)>,
}

/// An optional text as characters.
pub open spec fn optional_text(s: Option<String>) -> Option<Seq<char>> {
    match s {
        Some(t) => Some(t@),
        None => None,
    }
}

/// Handles with their outputs, as sequences.
pub open spec fn instances_seen(instances: Seq<Instance>) -> Seq<(u64, Seq<u64>)> {
    instances.map_values(|i: Instance| (i.handle, i.outputs@))
}

impl View for ToplevelData {
    type V = ToplevelView;

    open spec fn view(&self) -> ToplevelView {
        ToplevelView {
            window: self.window,
            title: optional_text(self.title),
            app_id: optional_text(self.app_id),
            states: self.states@,
            instances: instances_seen(self.instances@),
        }
    }
}

/// What is new about a window.
pub struct Changes {
    pub title: Option<String>,
    pub app_id: Option<String>,
    pub states: bool,
}

/// A text that is told: one that is there and was not told before.
pub open spec fn news(told: Option<Seq<char>>, now: Option<Seq<char>>) -> Option<Seq<char>> {
    if told == now {
        None
    } else {
        now
    }
}

fn same_optional(a: &Option<String>, b: &Option<String>) -> (r: bool)
    ensures
        r == (optional_text(*a) == optional_text(*b)),
{
    match (a, b) {
        (Some(s), Some(t)) => same_text(s.as_str(), t.as_str()),
        (None, None) => true,
        _ => false,
    }
}

fn copy_optional(s: &Option<String>) -> (r: Option<String>)
    ensures
        optional_text(r) == optional_text(*s),
{
    match s {
        Some(t) => Some(String::from_str(t.as_str())),
        None => None,
    }
}

fn same_states(a: &Vec<u32>, b: &Vec<u32>) -> (r: bool)
    ensures
        r == (a@ == b@),
{
    if a.len() != b.len() {
        return false;
    }
    let mut i: usize = 0;
    while i < a.len()
        invariant
            i <= a@.len(),
            a@.len() == b@.len(),
            forall|j: int| 0 <= j < i ==> a@[j] == b@[j],
        decreases a.len() - i,
    {
        if a[i] != b[i] {
            assert(a@[i as int] != b@[i as int]);
            return false;
        }
        i += 1;
    }
    assert(a@ =~= b@);
    true
}

fn holds(list: &Vec<u64>, w: u64) -> (r: bool)
    ensures
        r == list@.contains(w),
{
    let mut i: usize = 0;
    while i < list.len()
        invariant
            i <= list@.len(),
            forall|j: int| 0 <= j < i ==> list@[j] != w,
        decreases list.len() - i,
    {
        if list[i] == w {
            assert(list@[i as int] == w);
            return true;
        }
        i += 1;
    }
    false
}

/// The outputs after some more, each once.
pub open spec fn entered(outputs: Seq<u64>, more: Seq<u64>) -> Seq<u64>
    decreases more.len(),
{
    if more.len() == 0 {
        outputs
    } else {
        let before = entered(outputs, more.drop_last());
        if before.contains(more.last()) {
            before
        } else {
            before.push(more.last())
        }
    }
}

/// The outputs that live.
pub open spec fn living(outputs: Seq<u64>, alive: Seq<u64>) -> Seq<u64>
    decreases outputs.len(),
{
    if outputs.len() == 0 {
        seq![]
    } else {
        let before = living(outputs.drop_last(), alive);
        if alive.contains(outputs.last()) {
            before.push(outputs.last())
        } else {
            before
        }
    }
}

/// A window is on no output twice, whatever comes.
pub proof fn outputs_are_entered_once(outputs: Seq<u64>, more: Seq<u64>)
    requires
        outputs.no_duplicates(),
    ensures
        entered(outputs, more).no_duplicates(),
    decreases more.len(),
{
    if more.len() > 0 {
        outputs_are_entered_once(outputs, more.drop_last());
    }
}

impl Instance {
    /// Takes outputs that the client knows. Returns those that it has to be
    /// told.
    pub fn enter(&mut self, more: &Vec<u64>) -> (r: Vec<u64>)
        ensures
            final(self).handle == old(self).handle,
            final(self).outputs@ == entered(old(self).outputs@, more@),
            final(self).outputs@ == old(self).outputs@ + r@,
    {
        let mut told: Vec<u64> = Vec::new();
        let mut i: usize = 0;
        assert(self.outputs@ =~= old(self).outputs@ + told@);
        while i < more.len()
            invariant
                i <= more@.len(),
                self.handle == old(self).handle,
                self.outputs@ == entered(old(self).outputs@, more@.take(i as int)),
                self.outputs@ == old(self).outputs@ + told@,
            decreases more.len() - i,
        {
            assert(more@.take(i + 1).drop_last() =~= more@.take(i as int));
            let w: u64 = more[i];
            if !holds(&self.outputs, w) {
                self.outputs.push(w);
                told.push(w);
                assert(self.outputs@ =~= old(self).outputs@ + told@);
            }
            i += 1;
        }
        assert(more@.take(i as int) =~= more@);
        told
    }

    fn keep_living(&mut self, alive: &Vec<u64>)
        ensures
            final(self).handle == old(self).handle,
            final(self).outputs@ == living(old(self).outputs@, alive@),
    {
        let mut kept: Vec<u64> = Vec::new();
        let mut i: usize = 0;
        while i < self.outputs.len()
            invariant
                i <= self.outputs@.len(),
                *self == *old(self),
                kept@ == living(self.outputs@.take(i as int), alive@),
            decreases self.outputs.len() - i,
        {
            assert(self.outputs@.take(i + 1).drop_last() =~= self.outputs@.take(i as int));
            let w: u64 = self.outputs[i];
            if holds(alive, w) {
                kept.push(w);
            }
            i += 1;
        }
        assert(self.outputs@.take(i as int) =~= self.outputs@);
        self.outputs = kept;
    }
}

/// Handles with the outputs that live.
pub open spec fn living_instances(instances: Seq<(u64, Seq<u64>)>, alive: Seq<u64>) -> Seq<
    (u64, Seq<u64>),
> {
    instances.map_values(|i: (u64, Seq<u64>)| (i.0, living(i.1, alive)))
}

/// The handles without one.
pub open spec fn without_handle(instances: Seq<(u64, Seq<u64>)>, handle: u64) -> Seq<
    (u64, Seq<u64>),
>
    decreases instances.len(),
{
    if instances.len() == 0 {
        seq![]
    } else {
        let before = without_handle(instances.drop_last(), handle);
        if instances.last().0 == handle {
            before
        } else {
            before.push(instances.last())
        }
    }
}

/// Whether a handle is among some.
pub open spec fn has_handle(instances: Seq<(u64, Seq<u64>)>, handle: u64) -> bool {
    exists|k: int| 0 <= k < instances.len() && (#[trigger] instances[k]).0 == handle
}

impl ToplevelData {
    /// A window that no client was told of.
    pub fn new(window: u64, title: Option<String>, app_id: Option<String>, states: Vec<u32>) -> (r:
        ToplevelData)
        ensures
            r@ == (ToplevelView {
                window,
                title: optional_text(title),
                app_id: optional_text(app_id),
                states: states@,
                instances: seq![],
            }),
    {
        let r = ToplevelData { window, title, app_id, states, instances: Vec::new() };
        assert(r@.instances =~= seq![]);
        r
    }

    /// Takes a handle that a client has got, with the outputs that it was told.
    pub fn add_instance(&mut self, handle: u64, outputs: Vec<u64>)
        ensures
            final(self)@ == (ToplevelView {
                instances: old(self)@.instances.push((handle, outputs@)),
                ..old(self)@
            }),
    {
        let ghost before = self@.instances;
        self.instances.push(Instance { handle, outputs });
        assert(self@.instances =~= before.push((handle, outputs@)));
    }

    /// Takes what a window is like now. Returns what clients have to be told.
    /// A text that has gone is not told. `alive` are the outputs that live.
    pub fn refresh(
        &mut self,
        title: Option<String>,
        app_id: Option<String>,
        states: Vec<u32>,
        alive: &Vec<u64>,
    ) -> (r: Changes)
        ensures
            optional_text(r.title) == news(old(self)@.title, optional_text(title)),
            optional_text(r.app_id) == news(old(self)@.app_id, optional_text(app_id)),
            r.states == (old(self)@.states != states@),
            final(self)@ == (ToplevelView {
                window: old(self)@.window,
                title: optional_text(title),
                app_id: optional_text(app_id),
                states: states@,
                instances: living_instances(old(self)@.instances, alive@),
            }),
    {
        let mut changes = Changes { title: None, app_id: None, states: false };
        if !same_optional(&self.title, &title) {
            changes.title = copy_optional(&title);
        }
        self.title = title;
        if !same_optional(&self.app_id, &app_id) {
            changes.app_id = copy_optional(&app_id);
        }
        self.app_id = app_id;
        changes.states = !same_states(&self.states, &states);
        self.states = states;
        self.clean_outputs(alive);
        changes
    }

    fn clean_outputs(&mut self, alive: &Vec<u64>)
        ensures
            final(self)@ == (ToplevelView {
                instances: living_instances(old(self)@.instances, alive@),
                ..old(self)@
            }),
    {
        let ghost before = self@.instances;
        let ghost mut done: int = 0;
        let mut kept: Vec<Instance> = Vec::new();
        assert(instances_seen(kept@) =~= living_instances(before, alive@).take(0));
        assert(self@.instances =~= before.skip(0));
        while self.instances.len() > 0
            invariant
                0 <= done <= before.len(),
                self@.instances == before.skip(done),
                self.window == old(self).window,
                self.title == old(self).title,
                self.app_id == old(self).app_id,
                self.states == old(self).states,
                instances_seen(kept@) == living_instances(before, alive@).take(done),
            decreases self.instances.len(),
        {
            let ghost rest = self@.instances;
            assert(rest.len() == self.instances@.len());
            assert(rest.len() == before.len() - done);
            let mut instance = self.instances.remove(0);
            assert(before[done] == rest[0]);
            assert(self@.instances =~= rest.skip(1));
            instance.keep_living(alive);
            let ghost list = instances_seen(kept@);
            kept.push(instance);
            assert(instances_seen(kept@) =~= list.push(living_instances(before, alive@)[done]));
            proof {
                done = done + 1;
            }
            assert(self@.instances =~= before.skip(done));
            assert(instances_seen(kept@) =~= living_instances(before, alive@).take(done));
        }
        assert(living_instances(before, alive@).take(done) =~= living_instances(before, alive@));
        self.instances = kept;
    }

    /// Forgets a handle that is gone.
    pub fn handle_gone(&mut self, handle: u64)
        ensures
            final(self)@ == (ToplevelView {
                instances: without_handle(old(self)@.instances, handle),
                ..old(self)@
            }),
    {
        let ghost before = self@.instances;
        let ghost mut done: int = 0;
        let mut kept: Vec<Instance> = Vec::new();
        assert(instances_seen(kept@) =~= without_handle(before.take(0), handle));
        assert(self@.instances =~= before.skip(0));
        while self.instances.len() > 0
            invariant
                0 <= done <= before.len(),
                self@.instances == before.skip(done),
                self.window == old(self).window,
                self.title == old(self).title,
                self.app_id == old(self).app_id,
                self.states == old(self).states,
                instances_seen(kept@) == without_handle(before.take(done), handle),
            decreases self.instances.len(),
        {
            let ghost rest = self@.instances;
            assert(rest.len() == self.instances@.len());
            assert(rest.len() == before.len() - done);
            let instance = self.instances.remove(0);
            assert(before[done] == rest[0]);
            assert(self@.instances =~= rest.skip(1));
            assert(before.take(done + 1).drop_last() =~= before.take(done));
            let ghost list = instances_seen(kept@);
            if instance.handle != handle {
                kept.push(instance);
                assert(instances_seen(kept@) =~= list.push(before[done]));
            }
            proof {
                done = done + 1;
            }
            assert(self@.instances =~= before.skip(done));
        }
        assert(before.take(done) =~= before);
        self.instances = kept;
    }

    /// Whether a handle is one of this window.
    pub fn has(&self, handle: u64) -> (r: bool)
        ensures
            r == has_handle(self@.instances, handle),
    {
        let mut i: usize = 0;
        while i < self.instances.len()
            invariant
                i <= self.instances@.len(),
                forall|k: int| 0 <= k < i ==> (#[trigger] self@.instances[k]).0 != handle,
            decreases self.instances.len() - i,
        {
            assert(self@.instances[i as int].0 == self.instances@[i as int].handle);
            if self.instances[i].handle == handle {
                return true;
            }
            i += 1;
        }
        false
    }
}

/// Clients are told nothing when nothing has changed.
pub proof fn no_change_no_news(told: Option<Seq<char>>, text: Option<Seq<char>>)
    ensures
        news(text, text) is None,
        told != text && text is Some ==> news(told, text) == text,
{
}

/// A window on the canvas.
#[derive(Clone, Copy, Debug, PartialEq, Eq, Structural)]
pub struct ListedWindow {
    pub window: u64,
    /// Whether its rule pins it. Pinned windows are not listed.
    pub widget: bool,
}

/// Whether a window is listed.
pub open spec fn is_listed(windows: Seq<ListedWindow>, window: u64) -> bool {
    exists|k: int|
        0 <= k < windows.len() && (#[trigger] windows[k]).window == window && !windows[k].widget
}

/// The listed windows without the focused one, in order.
pub open spec fn listed_others(windows: Seq<ListedWindow>, focused: Option<u64>) -> Seq<u64>
    decreases windows.len(),
{
    if windows.len() == 0 {
        seq![]
    } else {
        let before = listed_others(windows.drop_last(), focused);
        if windows.last().widget || focused == Some(windows.last().window) {
            before
        } else {
            before.push(windows.last().window)
        }
    }
}

/// The order in which clients are told of windows: the focused one last, so
/// that no two windows look active at once.
pub open spec fn refresh_order(windows: Seq<ListedWindow>, focused: Option<u64>) -> Seq<u64> {
    match focused {
        Some(f) if is_listed(windows, f) => listed_others(windows, focused).push(f),
        _ => listed_others(windows, focused),
    }
}

/// Clients are told of exactly the listed windows, of the focused one last.
pub proof fn every_listed_window_is_told(windows: Seq<ListedWindow>, focused: Option<u64>, w: u64)
    ensures
        refresh_order(windows, focused).contains(w) <==> is_listed(windows, w),
        focused is Some && is_listed(windows, focused->0) ==> refresh_order(
            windows,
            focused,
        ).last() == focused->0,
{
    listed_others_hold(windows, focused, w);
    let others = listed_others(windows, focused);
    let order = refresh_order(windows, focused);
    if others.contains(w) {
        let k = choose|k: int| 0 <= k < others.len() && others[k] == w;
        assert(order[k] == w);
    }
    if let Some(f) = focused {
        if is_listed(windows, f) {
            assert(order[others.len() as int] == f);
            if order.contains(w) && w != f {
                let k = choose|k: int| 0 <= k < order.len() && order[k] == w;
                assert(others[k] == w);
            }
        }
    }
}

proof fn listed_others_hold(windows: Seq<ListedWindow>, focused: Option<u64>, w: u64)
    ensures
        listed_others(windows, focused).contains(w) <==> is_listed(windows, w) && focused != Some(w),
    decreases windows.len(),
{
    if windows.len() > 0 {
        let front = windows.drop_last();
        listed_others_hold(front, focused, w);
        let before = listed_others(front, focused);
        let all = listed_others(windows, focused);
        let last = windows.last();
        if is_listed(front, w) {
            let k = choose|k: int|
                0 <= k < front.len() && (#[trigger] front[k]).window == w && !front[k].widget;
            assert(windows[k].window == w);
        }
        if is_listed(windows, w) && (last.window != w || last.widget) {
            let k = choose|k: int|
                0 <= k < windows.len() && (#[trigger] windows[k]).window == w && !windows[k].widget;
            assert(front[k].window == w);
        }
        if last.window == w && !last.widget {
            assert(windows[windows.len() - 1].window == w);
        }
        if before.contains(w) {
            let k = choose|k: int| 0 <= k < before.len() && before[k] == w;
            assert(all[k] == w);
        }
        if !(last.widget || focused == Some(last.window)) {
            assert(all[before.len() as int] == last.window);
            if all.contains(w) && w != last.window {
                let k = choose|k: int| 0 <= k < all.len() && all[k] == w;
                assert(before[k] == w);
            }
        }
    }
}

fn listed(windows: &Vec<ListedWindow>, window: u64) -> (r: bool)
    ensures
        r == is_listed(windows@, window),
{
    let mut i: usize = 0;
    while i < windows.len()
        invariant
            i <= windows@.len(),
            forall|k: int|
                0 <= k < i ==> !((#[trigger] windows@[k]).window == window && !windows@[k].widget),
        decreases windows.len() - i,
    {
        if windows[i].window == window && !windows[i].widget {
            assert(windows@[i as int].window == window);
            return true;
        }
        i += 1;
    }
    false
}

/// The order in which clients are told of windows.
pub fn order_windows(windows: &Vec<ListedWindow>, focused: Option<u64>) -> (r: Vec<u64>)
    ensures
        r@ == refresh_order(windows@, focused),
{
    let mut order: Vec<u64> = Vec::new();
    let mut i: usize = 0;
    while i < windows.len()
        invariant
            i <= windows@.len(),
            order@ == listed_others(windows@.take(i as int), focused),
        decreases windows.len() - i,
    {
        assert(windows@.take(i + 1).drop_last() =~= windows@.take(i as int));
        let w = windows[i];
        let is_focused = match focused {
            Some(f) => f == w.window,
            None => false,
        };
        if !w.widget && !is_focused {
            order.push(w.window);
        }
        i += 1;
    }
    assert(windows@.take(i as int) =~= windows@);
    if let Some(f) = focused {
        if listed(windows, f) {
            order.push(f);
        }
    }
    order
}

/// The clients that are shown windows, and what they were told.
pub struct ForeignToplevelManagerState {
    pub instances: Vec<u64>,
    pub toplevels: Vec<ToplevelData>,
}

/// What clients were told, as sequences.
pub open spec fn toplevels_seen(toplevels: Seq<ToplevelData>) -> Seq<ToplevelView> {
    toplevels.map_values(|t: ToplevelData| t@)
}

/// The windows that are still listed.
pub open spec fn still_listed(toplevels: Seq<ToplevelView>, windows: Seq<ListedWindow>) -> Seq<
    ToplevelView,
>
    decreases toplevels.len(),
{
    if toplevels.len() == 0 {
        seq![]
    } else {
        let before = still_listed(toplevels.drop_last(), windows);
        if is_listed(windows, toplevels.last().window) {
            before.push(toplevels.last())
        } else {
            before
        }
    }
}

/// The handles of windows that are not listed any more.
pub open spec fn closed_handles(toplevels: Seq<ToplevelView>, windows: Seq<ListedWindow>) -> Seq<u64>
    decreases toplevels.len(),
{
    if toplevels.len() == 0 {
        seq![]
    } else {
        let before = closed_handles(toplevels.drop_last(), windows);
        if is_listed(windows, toplevels.last().window) {
            before
        } else {
            before + toplevels.last().instances.map_values(|i: (u64, Seq<u64>)| i.0)
        }
    }
}

/// The place of the first window with a handle, among the first `n`.
pub open spec fn handle_owner(toplevels: Seq<ToplevelView>, handle: u64, n: nat) -> Option<int>
    decreases n,
{
    if n == 0 {
        None
    } else {
        match handle_owner(toplevels, handle, (n - 1) as nat) {
            Some(k) => Some(k),
            None => if has_handle(toplevels[n - 1].instances, handle) {
                Some(n - 1)
            } else {
                None
            },
        }
    }
}

proof fn handle_owner_stays(toplevels: Seq<ToplevelView>, handle: u64, n: nat, m: nat)
    requires
        n <= m,
        handle_owner(toplevels, handle, n) is Some,
    ensures
        handle_owner(toplevels, handle, m) == handle_owner(toplevels, handle, n),
    decreases m,
{
    if n < m {
        handle_owner_stays(toplevels, handle, n, (m - 1) as nat);
    }
}

/// What a client may ask of a window.
#[derive(Clone, Copy, Debug, PartialEq, Eq, Structural)]
pub enum HandleRequest {
    SetMaximized,
    UnsetMaximized,
    SetMinimized,
    UnsetMinimized,
    Activate,
    Close,
    SetRectangle,
    Destroy,
    SetFullscreen,
    UnsetFullscreen,
}

/// What is done for a client.
#[derive(Clone, Copy, Debug, PartialEq, Eq, Structural)]
pub enum HandleAction {
    Nothing,
    Activate(u64),
    Close(u64),
    SetFullscreen(u64),
    UnsetFullscreen(u64),
}

/// What is done for a client. On an infinite canvas nothing is maximized or
/// minimized.
pub open spec fn answered(request: HandleRequest, window: u64) -> HandleAction {
    match request {
        HandleRequest::Activate => HandleAction::Activate(window),
        HandleRequest::Close => HandleAction::Close(window),
        HandleRequest::SetFullscreen => HandleAction::SetFullscreen(window),
        HandleRequest::UnsetFullscreen => HandleAction::UnsetFullscreen(window),
        _ => HandleAction::Nothing,
    }
}

impl ForeignToplevelManagerState {
    /// No client is there, and no window.
    pub fn new() -> (r: ForeignToplevelManagerState)
        ensures
            r.instances@ == Seq::<u64>::empty(),
            toplevels_seen(r.toplevels@) == Seq::<ToplevelView>::empty(),
    {
        let r = ForeignToplevelManagerState { instances: Vec::new(), toplevels: Vec::new() };
        assert(toplevels_seen(r.toplevels@) =~= Seq::<ToplevelView>::empty());
        r
    }

    /// Forgets windows that are gone or pinned. Returns the handles whose
    /// clients are told.
    pub fn retain_listed(&mut self, windows: &Vec<ListedWindow>) -> (r: Vec<u64>)
        ensures
            toplevels_seen(final(self).toplevels@) == still_listed(
                toplevels_seen(old(self).toplevels@),
                windows@,
            ),
            r@ == closed_handles(toplevels_seen(old(self).toplevels@), windows@),
            final(self).instances@ == old(self).instances@,
    {
        let ghost before = toplevels_seen(self.toplevels@);
        let ghost mut done: int = 0;
        let mut kept: Vec<ToplevelData> = Vec::new();
        let mut closed: Vec<u64> = Vec::new();
        assert(toplevels_seen(kept@) =~= still_listed(before.take(0), windows@));
        assert(toplevels_seen(self.toplevels@) =~= before.skip(0));
        while self.toplevels.len() > 0
            invariant
                0 <= done <= before.len(),
                toplevels_seen(self.toplevels@) == before.skip(done),
                self.instances@ == old(self).instances@,
                toplevels_seen(kept@) == still_listed(before.take(done), windows@),
                closed@ == closed_handles(before.take(done), windows@),
            decreases self.toplevels.len(),
        {
            let ghost rest = toplevels_seen(self.toplevels@);
            assert(rest.len() == self.toplevels@.len());
            assert(rest.len() == before.len() - done);
            let data = self.toplevels.remove(0);
            assert(before[done] == rest[0]);
            assert(toplevels_seen(self.toplevels@) =~= rest.skip(1));
            assert(before.take(done + 1).drop_last() =~= before.take(done));
            let ghost list = toplevels_seen(kept@);
            if listed(windows, data.window) {
                kept.push(data);
                assert(toplevels_seen(kept@) =~= list.push(before[done]));
            } else {
                let ghost told = closed@;
                let mut i: usize = 0;
                let ghost handles = data@.instances.map_values(|i: (u64, Seq<u64>)| i.0);
                assert(closed@ =~= told + handles.take(0));
                while i < data.instances.len()
                    invariant
                        i <= data.instances@.len(),
                        handles == data@.instances.map_values(|i: (u64, Seq<u64>)| i.0),
                        closed@ == told + handles.take(i as int),
                    decreases data.instances.len() - i,
                {
                    assert(handles[i as int] == data.instances@[i as int].handle);
                    closed.push(data.instances[i].handle);
                    i += 1;
                    assert(closed@ =~= told + handles.take(i as int));
                }
                assert(handles.take(i as int) =~= handles);
            }
            proof {
                done = done + 1;
            }
            assert(toplevels_seen(self.toplevels@) =~= before.skip(done));
        }
        assert(before.take(done) =~= before);
        self.toplevels = kept;
        closed
    }

    /// What is done for a client that asks something of a window by a handle.
    /// Nothing is, where the handle is of no window.
    pub fn request(&self, handle: u64, request: HandleRequest) -> (r: HandleAction)
        ensures
            r == match handle_owner(
                toplevels_seen(self.toplevels@),
                handle,
                toplevels_seen(self.toplevels@).len(),
            ) {
                Some(k) => answered(request, toplevels_seen(self.toplevels@)[k].window),
                None => HandleAction::Nothing,
            },
    {
        let ghost all = toplevels_seen(self.toplevels@);
        let mut i: usize = 0;
        while i < self.toplevels.len()
            invariant
                i <= self.toplevels@.len(),
                all == toplevels_seen(self.toplevels@),
                handle_owner(all, handle, i as nat) is None,
            decreases self.toplevels.len() - i,
        {
            assert(all[i as int] == self.toplevels@[i as int]@);
            if self.toplevels[i].has(handle) {
                proof {
                    handle_owner_stays(all, handle, (i + 1) as nat, all.len());
                }
                let window: u64 = self.toplevels[i].window;
                return match request {
                    HandleRequest::Activate => HandleAction::Activate(window),
                    HandleRequest::Close => HandleAction::Close(window),
                    HandleRequest::SetFullscreen => HandleAction::SetFullscreen(window),
                    HandleRequest::UnsetFullscreen => HandleAction::UnsetFullscreen(window),
                    _ => HandleAction::Nothing,
                };
            }
            i += 1;
        }
        HandleAction::Nothing
    }

    /// Forgets a client that is gone or wants to hear no more.
    pub fn manager_gone(&mut self, manager: u64)
        ensures
            final(self).instances@ == without(old(self).instances@, manager),
            final(self).toplevels == old(self).toplevels,
    {
        retain_others(&mut self.instances, manager);
    }
}

/// The window that is gone to when a client asks for it: none where its rule
/// keeps the focus away.
pub fn activate(no_focus: bool, window: Option<u64>) -> (r: Option<u64>)
    ensures
        r == if no_focus {
            None
        } else {
            window
        },
{
    if no_focus {
        None
    } else {
        window
    }
}

} // verus!
