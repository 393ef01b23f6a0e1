//! Which window is in focus, which one fills the screen, and where the
//! viewport goes back to.
//!
//! Windows are known by number. A viewpoint (camera and zoom) is only ever
//! kept and handed back, so its type is left open.

use crate::config::types::{Action, Direction};
use crate::units::saturate_i32;
use vstd::prelude::*;

verus! {

use crate::config::types::ActionView;
use crate::units::clamp_i32;

/// The history without a window.
pub open spec fn without(history: Seq<u64>, window: u64) -> Seq<u64>
    decreases history.len(),
{
    if history.len() == 0 {
        seq![]
    } else if history.last() == window {
        without(history.drop_last(), window)
    } else {
        without(history.drop_last(), window).push(history.last())
    }
}

/// The history with a window in front.
pub open spec fn promoted(history: Seq<u64>, window: u64) -> Seq<u64> {
    seq![window] + without(history, window)
}

/// Taking a window out leaves exactly the others.
pub proof fn without_holds_the_others(history: Seq<u64>, window: u64, w: u64)
    ensures
        without(history, window).contains(w) <==> history.contains(w) && w != window,
    decreases history.len(),
{
    if history.len() > 0 {
        let front = history.drop_last();
        without_holds_the_others(front, window, w);
        let kept = without(front, window);
        if history.contains(w) && history.last() != w {
            let k = choose|k: int| 0 <= k < history.len() && history[k] == w;
            assert(front[k] == w);
        }
        if front.contains(w) {
            let k = choose|k: int| 0 <= k < front.len() && front[k] == w;
            assert(history[k] == w);
        }
        if history.last() == w {
            assert(history[history.len() - 1] == w);
        }
        if history.last() != window {
            let now = kept.push(history.last());
            assert(now[kept.len() as int] == history.last());
            if kept.contains(w) {
                let k = choose|k: int| 0 <= k < kept.len() && kept[k] == w;
                assert(now[k] == w);
            }
            if now.contains(w) && w != history.last() {
                let k = choose|k: int| 0 <= k < now.len() && now[k] == w;
                assert(kept[k] == w);
            }
        }
    }
}

proof fn without_keeps_distinct(history: Seq<u64>, window: u64)
    requires
        history.no_duplicates(),
    ensures
        without(history, window).no_duplicates(),
        without(history, window).len() <= history.len(),
        history.contains(window) ==> without(history, window).len() < history.len(),
    decreases history.len(),
{
    if history.len() > 0 {
        let front = history.drop_last();
        without_keeps_distinct(front, window);
        without_holds_the_others(front, window, history.last());
        if history.contains(window) && history.last() != window {
            let k = choose|k: int| 0 <= k < history.len() && history[k] == window;
            assert(front[k] == window);
        }
        let kept = without(front, window);
        assert(!front.contains(history.last()));
    }
}

/// Bringing a window to the front keeps every window once, adds none but that
/// one, and loses none.
pub proof fn promoted_keeps_the_history(history: Seq<u64>, window: u64, w: u64)
    requires
        history.no_duplicates(),
    ensures
        promoted(history, window).no_duplicates(),
        promoted(history, window)[0] == window,
        promoted(history, window).contains(w) <==> history.contains(w) || w == window,
{
    without_keeps_distinct(history, window);
    without_holds_the_others(history, window, window);
    without_holds_the_others(history, window, w);
    let rest = without(history, window);
    let all = promoted(history, window);
    assert forall|i: int, j: int| 0 <= i < j < all.len() implies all[i] != all[j] by {
        assert(all[j] == rest[j - 1]);
        if i == 0 {
            assert(rest.contains(rest[j - 1]));
        } else {
            assert(all[i] == rest[i - 1]);
        }
    }
    assert(all[0] == window);
    if rest.contains(w) {
        let k = choose|k: int| 0 <= k < rest.len() && rest[k] == w;
        assert(all[k + 1] == w);
    }
    if all.contains(w) && w != window {
        let k = choose|k: int| 0 <= k < all.len() && all[k] == w;
        assert(rest[k - 1] == w);
    }
}

/// A window that fills the screen, and what comes back when it stops.
#[derive(Debug)]
pub struct FullscreenState<V> {
    pub window: u64,
    pub saved_location: (i32, i32),
    pub saved_view: V,
}

/// Where the home key leads back to.
#[derive(Debug)]
pub struct HomeReturn<V> {
    pub view: V,
    /// The window that filled the screen there.
    pub fullscreen_window: Option<u64>,
}

impl<V: Copy> Copy for FullscreenState<V> {

}

impl<V: Copy> Clone for FullscreenState<V> {
    fn clone(&self) -> (r: FullscreenState<V>)
        ensures
            r == *self,
    {
        *self
    }
}

impl<V: Copy> Copy for HomeReturn<V> {

}

impl<V: Copy> Clone for HomeReturn<V> {
    fn clone(&self) -> (r: HomeReturn<V>)
        ensures
            r == *self,
    {
        *self
    }
}

/// The waiting cursor after a program was started: when it appears and when it
/// is given up, in milliseconds.
#[derive(Clone, Copy, Debug, PartialEq, Eq, Structural)]
pub struct ExecCursor {
    pub show_at: u64,
    pub deadline: u64,
}

/// Focus, fullscreen and places to return to, on one output.
pub struct Desk<V> {
    /// Windows by last use, the latest first.
    pub focus_history: Vec<u64>,
    /// The place in the history while windows are cycled.
    pub cycle_state: Option<usize>,
    pub fullscreen: Option<FullscreenState<V>>,
    pub home_return: Option<HomeReturn<V>>,
    pub overview_return: Option<V>,
    pub exec_cursor: Option<ExecCursor>,
}

/// A desk with its history as a sequence.
#[verifier::ext_equal]
pub struct DeskView<V> {
    pub focus_history: Seq<u64>,
    pub cycle_state: Option<usize>,
    pub fullscreen: Option<FullscreenState<V>>,
    pub home_return: Option<HomeReturn<V>>,
    pub overview_return: Option<V>,
    pub exec_cursor: Option<ExecCursor>,
}

impl<V> View for Desk<V> {
    type V = DeskView<V>;

    open spec fn view(&self) -> DeskView<V> {
        DeskView {
            focus_history: self.focus_history@,
            cycle_state: self.cycle_state,
            fullscreen: self.fullscreen,
            home_return: self.home_return,
            overview_return: self.overview_return,
            exec_cursor: self.exec_cursor,
        }
    }
}

/// Takes every entry of a window out of a list, keeping the order.
pub(crate) fn retain_others(list: &mut Vec<u64>, window: u64)
    ensures
        final(list)@ == without(old(list)@, window),
{
    let ghost all = list@;
    let mut kept: Vec<u64> = Vec::new();
    let mut i: usize = 0;
    while i < list.len()
        invariant
            i <= list@.len(),
            list@ == all,
            kept@ == without(all.take(i as int), window),
        decreases list.len() - i,
    {
        let w: u64 = list[i];
        assert(all.take(i + 1).drop_last() =~= all.take(i as int));
        if w != window {
            kept.push(w);
        }
        i += 1;
    }
    assert(all.take(i as int) =~= all);
    *list = kept;
}

/// The next place in a history of `len` windows.
pub open spec fn cycled(place: int, len: int, backward: bool) -> int {
    if backward {
        (place + len - 1) % len
    } else {
        (place + 1) % len
    }
}

/// Going one way and back again leads to the same window.
pub proof fn cycling_back_returns(place: int, len: int)
    requires
        0 <= place < len,
    ensures
        cycled(cycled(place, len, false), len, true) == place,
        cycled(cycled(place, len, true), len, false) == place,
{
    vstd::arithmetic::div_mod::lemma_small_mod(place as nat, len as nat);
    if place + 1 < len {
        vstd::arithmetic::div_mod::lemma_small_mod((place + 1) as nat, len as nat);
        vstd::arithmetic::div_mod::lemma_mod_add_multiples_vanish(place, len);
        assert((place + 1 + len - 1) % len == place);
    } else {
        vstd::arithmetic::div_mod::lemma_mod_self_0(len);
        vstd::arithmetic::div_mod::lemma_small_mod((len - 1) as nat, len as nat);
    }
    if place > 0 {
        vstd::arithmetic::div_mod::lemma_small_mod((place - 1) as nat, len as nat);
        vstd::arithmetic::div_mod::lemma_mod_add_multiples_vanish(place - 1, len);
        assert((place + len - 1) % len == place - 1);
    } else {
        vstd::arithmetic::div_mod::lemma_small_mod((len - 1) as nat, len as nat);
        vstd::arithmetic::div_mod::lemma_mod_self_0(len);
    }
}

fn next_place(place: usize, len: usize, backward: bool) -> (r: usize)
    requires
        len > 0,
    ensures
        r == cycled(place as int, len as int, backward),
        r < len,
{
    let i: usize = place % len;
    proof {
        let p = place as int;
        let n = len as int;
        vstd::arithmetic::div_mod::lemma_fundamental_div_mod(p, n);
        let q = p / n;
        assert(p == n * q + i);
        if backward {
            if i == 0 {
                assert((p + n - 1) % n == n - 1) by {
                    vstd::arithmetic::div_mod::lemma_mod_multiples_vanish(q, n - 1, n);
                    vstd::arithmetic::div_mod::lemma_small_mod((n - 1) as nat, n as nat);
                }
            } else {
                assert((p + n - 1) % n == i - 1) by {
                    assert(p + n - 1 == n * (q + 1) + (i - 1)) by (nonlinear_arith)
                        requires
                            p == n * q + i,
                    ;
                    vstd::arithmetic::div_mod::lemma_mod_multiples_vanish(q + 1, i - 1, n);
                    vstd::arithmetic::div_mod::lemma_small_mod((i - 1) as nat, n as nat);
                }
            }
        } else if i + 1 == n {
            assert((p + 1) % n == 0) by {
                assert(p + 1 == n * (q + 1) + 0) by (nonlinear_arith)
                    requires
                        p == n * q + i,
                        i + 1 == n,
                ;
                vstd::arithmetic::div_mod::lemma_mod_multiples_vanish(q + 1, 0, n);
                vstd::arithmetic::div_mod::lemma_small_mod(0, n as nat);
            }
        } else {
            assert((p + 1) % n == i + 1) by {
                vstd::arithmetic::div_mod::lemma_mod_multiples_vanish(q, i + 1, n);
                vstd::arithmetic::div_mod::lemma_small_mod((i + 1) as nat, n as nat);
            }
        }
    }
    if backward {
        if i == 0 {
            len - 1
        } else {
            i - 1
        }
    } else if i + 1 == len {
        0
    } else {
        i + 1
    }
}

/// The focused surface, as far as actions look at it.
#[derive(Clone, Copy, Debug, PartialEq, Eq, Structural)]
pub struct Focus {
    /// The window that it belongs to, if any.
    pub window: Option<u64>,
    /// Whether its window rule pins it.
    pub widget: bool,
}

/// Where directional navigation leads.
#[derive(Clone, Copy, Debug, PartialEq, Eq, Structural)]
pub enum NavTarget {
    Window(u64),
    /// A canvas position in units.
    Anchor(i64, i64),
}

/// What an action finds when it is carried out, after fullscreen has been
/// left.
pub struct ActionEnv<'a, V> {
    /// Milliseconds.
    pub now: u64,
    /// The viewpoint of the active output.
    pub view: V,
    pub focus: Option<Focus>,
    /// Every mapped window with its location.
    pub windows: &'a [(u64, (i32, i32))],
    /// Pixels per nudge.
    pub nudge_step: i32,
    /// Whether the viewpoint is home: at zoom one, with the origin in sight.
    pub at_home: bool,
    /// The window closest to the middle of the viewport.
    pub closest: Option<u64>,
    /// Where the direction of the action leads.
    pub nearest: Option<NavTarget>,
    /// Whether there are windows to bring into sight.
    pub anything_to_fit: bool,
    /// The output in the direction of the action.
    pub target_output: Option<u64>,
}

impl<'a, V> ActionEnv<'a, V> {
    /// A time from which five seconds can be counted.
    pub open spec fn wf(self) -> bool {
        self.now <= u64::MAX - 5000
    }
}

/// Where a window is, and the origin for one that is not mapped.
pub open spec fn location(windows: Seq<(u64, (i32, i32))>, window: u64) -> (i32, i32)
    decreases windows.len(),
{
    if windows.len() == 0 {
        (0, 0)
    } else if windows[0].0 == window {
        windows[0].1
    } else {
        location(windows.skip(1), window)
    }
}

/// Whether a window is mapped.
pub open spec fn mapped(windows: Seq<(u64, (i32, i32))>, window: u64) -> bool {
    exists|k: int| 0 <= k < windows.len() && (#[trigger] windows[k]).0 == window
}

/// What the compositor has to do for an action.
#[derive(Debug)]
pub enum Effect<V> {
    Nothing,
    /// Start a program.
    Spawn(String),
    /// Ask a window to close.
    Close(u64),
    /// Put a window at a place.
    Place(u64, (i32, i32)),
    /// Move the viewport by one step.
    Pan(Direction),
    /// Go to a window; true resets the zoom.
    Navigate(u64, bool),
    /// Put a canvas position into the middle of the viewport.
    CenterOn(i64, i64),
    /// Animate to a viewpoint.
    Animate(V),
    /// Take a viewpoint at once and fill the screen with a window.
    RestoreFullscreen(V, u64),
    /// Animate to the canvas origin at zoom one.
    GoHome,
    /// One zoom step in, around the middle of the viewport.
    ZoomIn,
    /// One zoom step out, around the middle of the viewport.
    ZoomOut,
    /// Zoom to one, around the middle of the viewport.
    ZoomReset,
    /// Animate to a view of all windows.
    Overview,
    /// Fill the screen with a window; the first part is what stops filling it.
    EnterFullscreen(Option<FullscreenState<V>>, u64),
    /// Put back what filled the screen.
    LeaveFullscreen(FullscreenState<V>),
    /// Put a window into the middle of another output.
    SendTo(u64, u64),
    ReloadConfig,
    Quit,
}

/// An effect with its text as characters.
pub enum EffectView<V> {
    Nothing,
    Spawn(Seq<char>),
    Close(u64),
    Place(u64, (i32, i32)),
    Pan(Direction),
    Navigate(u64, bool),
    CenterOn(i64, i64),
    Animate(V),
    RestoreFullscreen(V, u64),
    GoHome,
    ZoomIn,
    ZoomOut,
    ZoomReset,
    Overview,
    EnterFullscreen(Option<FullscreenState<V>>, u64),
    LeaveFullscreen(FullscreenState<V>),
    SendTo(u64, u64),
    ReloadConfig,
    Quit,
}

impl<V> View for Effect<V> {
    type V = EffectView<V>;

    open spec fn view(&self) -> EffectView<V> {
        match self {
            Effect::Nothing => EffectView::Nothing,
            Effect::Spawn(s) => EffectView::Spawn(s@),
            Effect::Close(w) => EffectView::Close(*w),
            Effect::Place(w, at) => EffectView::Place(*w, *at),
            Effect::Pan(d) => EffectView::Pan(*d),
            Effect::Navigate(w, reset) => EffectView::Navigate(*w, *reset),
            Effect::CenterOn(x, y) => EffectView::CenterOn(*x, *y),
            Effect::Animate(v) => EffectView::Animate(*v),
            Effect::RestoreFullscreen(v, w) => EffectView::RestoreFullscreen(*v, *w),
            Effect::GoHome => EffectView::GoHome,
            Effect::ZoomIn => EffectView::ZoomIn,
            Effect::ZoomOut => EffectView::ZoomOut,
            Effect::ZoomReset => EffectView::ZoomReset,
            Effect::Overview => EffectView::Overview,
            Effect::EnterFullscreen(fs, w) => EffectView::EnterFullscreen(*fs, *w),
            Effect::LeaveFullscreen(fs) => EffectView::LeaveFullscreen(*fs),
            Effect::SendTo(w, o) => EffectView::SendTo(*w, *o),
            Effect::ReloadConfig => EffectView::ReloadConfig,
            Effect::Quit => EffectView::Quit,
        }
    }
}

/// Whether `r` is `step` over the square root of two, to the nearest integer:
/// twice the square of the step lies between the squares of the two odd
/// numbers around twice `r`.
pub open spec fn is_diagonal_step(step: int, r: int) -> bool {
    let s = if step < 0 {
        -step
    } else {
        step
    };
    let a = if step < 0 {
        -r
    } else {
        r
    };
    &&& 0 <= a
    &&& 2 * (s * s) < (2 * a + 1) * (2 * a + 1)
    &&& a > 0 ==> (2 * a - 1) * (2 * a - 1) < 2 * (s * s)
}

/// There is only one such integer.
pub proof fn diagonal_step_is_unique(step: int, r: int, q: int)
    requires
        is_diagonal_step(step, r),
        is_diagonal_step(step, q),
    ensures
        r == q,
{
    let a = if step < 0 {
        -r
    } else {
        r
    };
    let b = if step < 0 {
        -q
    } else {
        q
    };
    if a < b {
        assert((2 * a + 1) * (2 * a + 1) <= (2 * b - 1) * (2 * b - 1)) by (nonlinear_arith)
            requires
                0 <= a < b,
        ;
    }
    if b < a {
        assert((2 * b + 1) * (2 * b + 1) <= (2 * a - 1) * (2 * a - 1)) by (nonlinear_arith)
            requires
                0 <= b < a,
        ;
    }
}

/// A step along a diagonal, on each axis: the step over the square root of
/// two, rounded.
pub fn diagonal_step(step: i64) -> (r: i64)
    requires
        -0x1_0000_0000 <= step <= 0x1_0000_0000,
    ensures
        is_diagonal_step(step as int, r as int),
        -0x1_0000_0001 <= r <= 0x1_0000_0001,
{
    let s: u128 = if step < 0 {
        (-step) as u128
    } else {
        step as u128
    };
    assert(s * s <= 0x1_0000_0000_0000_0000) by (nonlinear_arith)
        requires
            0 <= s <= 0x1_0000_0000,
    ;
    let square: u128 = 2 * (s * s);
    let mut low: u128 = 0;
    let mut high: u128 = s + 1;
    proof {
        assert(square < (2 * high + 1) * (2 * high + 1)) by (nonlinear_arith)
            requires
                square == 2 * (s * s),
                high == s + 1,
                s >= 0,
        ;
    }
    while low < high
        invariant
            low <= high <= s + 1,
            s <= 0x1_0000_0000,
            square == 2 * (s * s),
            low > 0 ==> (2 * low - 1) * (2 * low - 1) <= square,
            square < (2 * high + 1) * (2 * high + 1),
        decreases high - low,
    {
        let mid: u128 = low + (high - low) / 2;
        assert((2 * mid + 1) * (2 * mid + 1) <= 0x10_0000_0000_0000_0000) by (nonlinear_arith)
            requires
                0 <= mid <= 0x1_0000_0001,
        ;
        if square < (2 * mid + 1) * (2 * mid + 1) {
            high = mid;
        } else {
            low = mid + 1;
            assert(2 * low - 1 == 2 * mid + 1);
        }
    }
    proof {
        if low > 0 {
            let odd = 2 * low - 1;
            assert(odd * odd != 2 * (s * s)) by (nonlinear_arith)
                requires
                    odd == 2 * low - 1,
            {
                assert(odd * odd == 2 * (2 * (low * low) - 2 * low) + 1) by (nonlinear_arith)
                    requires
                        odd == 2 * low - 1,
                ;
            }
        }
    }
    if step < 0 {
        -(low as i64)
    } else {
        low as i64
    }
}

/// The step over the square root of two, rounded.
pub open spec fn diagonal(step: int) -> int {
    choose|r: int| is_diagonal_step(step, r)
}

/// How far a nudge moves a window on one axis.
pub open spec fn nudge_by(sign: int, is_diagonal: bool, step: int) -> int {
    if sign == 0 {
        0
    } else if is_diagonal {
        diagonal(sign * step)
    } else {
        sign * step
    }
}

/// Where a nudge moves a window. It stays at the end of the range where the
/// nudge would leave it.
pub open spec fn nudge_to(from: (i32, i32), dir: Direction, step: i32) -> (i32, i32) {
    (
        clamp_i32(from.0 + nudge_by(dir.heading().0, dir.is_diagonal(), step as int)) as i32,
        clamp_i32(from.1 + nudge_by(dir.heading().1, dir.is_diagonal(), step as int)) as i32,
    )
}

fn nudge_axis(sign: i32, is_diagonal: bool, step: i32) -> (r: i64)
    requires
        -1 <= sign <= 1,
    ensures
        r == nudge_by(sign as int, is_diagonal, step as int),
        -0x1_0000_0001 <= r <= 0x1_0000_0001,
{
    let along: i64 = if sign < 0 {
        -(step as i64)
    } else {
        step as i64
    };
    assert(sign != 0 ==> sign * step == along) by (nonlinear_arith)
        requires
            -1 <= sign <= 1,
            sign < 0 ==> along == -step,
            sign >= 0 ==> along == step,
    ;
    if sign == 0 {
        0
    } else if is_diagonal {
        let r: i64 = diagonal_step(along);
        proof {
            diagonal_step_is_unique(along as int, r as int, diagonal(along as int));
        }
        r
    } else {
        along
    }
}

/// Where a nudge moves a window.
pub fn nudged(from: (i32, i32), dir: Direction, step: i32) -> (to: (i32, i32))
    ensures
        to == nudge_to(from, dir, step),
{
    let (sx, sy) = dir.signs();
    let is_diagonal = sx != 0 && sy != 0;
    let dx: i64 = nudge_axis(sx, is_diagonal, step);
    let dy: i64 = nudge_axis(sy, is_diagonal, step);
    (saturate_i32(from.0 as i64 + dx), saturate_i32(from.1 as i64 + dy))
}

/// What fills the screen once a window enters fullscreen. A window that
/// filled it before is put back first, so the places to return to are those
/// from before either.
pub open spec fn entered<V>(
    current: Option<FullscreenState<V>>,
    window: u64,
    at: (i32, i32),
    view: V,
) -> FullscreenState<V> {
    match current {
        Some(fs) => FullscreenState {
            window,
            saved_location: if fs.window == window {
                fs.saved_location
            } else {
                at
            },
            saved_view: fs.saved_view,
        },
        None => FullscreenState { window, saved_location: at, saved_view: view },
    }
}

impl<V> DeskView<V> {
    /// The desk once a window has entered fullscreen.
    pub open spec fn with_fullscreen(self, window: u64, at: (i32, i32), view: V) -> DeskView<V> {
        DeskView {
            fullscreen: Some(entered(self.fullscreen, window, at, view)),
            home_return: None,
            overview_return: None,
            ..self
        }
    }
}

impl<V: Copy> Desk<V> {
    /// Nothing in focus, nothing to return to.
    pub fn new() -> (r: Desk<V>)
        ensures
            r@ == (DeskView::<V> {
                focus_history: seq![],
                cycle_state: None,
                fullscreen: None,
                home_return: None,
                overview_return: None,
                exec_cursor: None,
            }),
    {
        let r = Desk {
            focus_history: Vec::new(),
            cycle_state: None,
            fullscreen: None,
            home_return: None,
            overview_return: None,
            exec_cursor: None,
        };
        assert(r.focus_history@ =~= seq![]);
        r
    }

    /// Puts a window that has got the focus in front of the history.
    pub fn update_focus_history(&mut self, window: u64)
        ensures
            final(self)@ == (DeskView {
                focus_history: promoted(old(self)@.focus_history, window),
                ..old(self)@
            }),
    {
        retain_others(&mut self.focus_history, window);
        self.focus_history.insert(0, window);
        assert(self.focus_history@ =~= promoted(old(self)@.focus_history, window));
    }

    /// Tells the history of a change of focus. While windows are cycled the
    /// history stands still.
    pub fn focus_changed(&mut self, focused: Option<u64>)
        ensures
            final(self)@ == match focused {
                Some(w) if old(self)@.cycle_state is None => (DeskView {
                    focus_history: promoted(old(self)@.focus_history, w),
                    ..old(self)@
                }),
                _ => old(self)@,
            },
    {
        if self.cycle_state.is_none() {
            if let Some(w) = focused {
                self.update_focus_history(w);
            }
        }
    }

    /// Ends cycling: the selected window comes to the front of the history.
    pub fn end_cycle(&mut self)
        ensures
            final(self)@ == ({
                let before = old(self)@;
                let history = match before.cycle_state {
                    Some(i) if i < before.focus_history.len() => promoted(
                        before.focus_history,
                        before.focus_history[i as int],
                    ),
                    _ => before.focus_history,
                };
                DeskView { focus_history: history, cycle_state: None, ..before }
            }),
    {
        let place = self.cycle_state.take();
        if let Some(i) = place {
            if i < self.focus_history.len() {
                let w: u64 = self.focus_history[i];
                self.update_focus_history(w);
            }
        }
    }

    /// Selects the next window and returns it. The first selection is the
    /// window before the current one.
    pub fn cycle(&mut self, backward: bool) -> (r: Option<u64>)
        ensures
            ({
                let before = old(self)@;
                let len = before.focus_history.len();
                if len == 0 {
                    r is None && final(self)@ == before
                } else {
                    let place = match before.cycle_state {
                        Some(i) => cycled(i as int, len as int, backward),
                        None => 1int % (len as int),
                    };
                    &&& final(self)@ == (DeskView { cycle_state: Some(place as usize), ..before })
                    &&& 0 <= place < len
                    &&& r == Some(before.focus_history[place])
                }
            }),
    {
        let len: usize = self.focus_history.len();
        if len == 0 {
            return None;
        }
        let place: usize = match self.cycle_state {
            Some(i) => next_place(i, len, backward),
            None => 1 % len,
        };
        self.cycle_state = Some(place);
        Some(self.focus_history[place])
    }

    /// Notes that a window fills the screen now, and returns what filled it
    /// before.
    pub fn enter_fullscreen(&mut self, window: u64, at: (i32, i32), view: V) -> (r: Option<
        FullscreenState<V>,
    >)
        ensures
            r == old(self)@.fullscreen,
            final(self)@ == old(self)@.with_fullscreen(window, at, view),
    {
        let left = self.fullscreen.take();
        let (saved_location, saved_view) = match left {
            Some(fs) => if fs.window == window {
                (fs.saved_location, fs.saved_view)
            } else {
                (at, fs.saved_view)
            },
            None => (at, view),
        };
        self.fullscreen = Some(FullscreenState { window, saved_location, saved_view });
        self.home_return = None;
        self.overview_return = None;
        left
    }

    /// Notes that nothing fills the screen any more, and returns what did.
    pub fn exit_fullscreen(&mut self) -> (r: Option<FullscreenState<V>>)
        ensures
            r == old(self)@.fullscreen,
            final(self)@ == (DeskView { fullscreen: None, ..old(self)@ }),
    {
        self.fullscreen.take()
    }

    /// Goes to a window. Returns the viewpoint whose zoom comes back, if an
    /// overview is left for it.
    pub fn navigate(&mut self) -> (r: Option<V>)
        ensures
            r == old(self)@.overview_return,
            final(self)@ == (DeskView { overview_return: None, ..old(self)@ }),
    {
        self.overview_return.take()
    }

    /// Notes that the viewport was moved or zoomed by hand: there is no overview
    /// to return from any more.
    pub fn panned(&mut self)
        ensures
            final(self)@ == (DeskView { overview_return: None, ..old(self)@ }),
    {
        self.overview_return = None;
    }

    /// Forgets a window that is gone. Returns the viewpoint to restore where
    /// it filled the screen.
    pub fn remove_window(&mut self, window: u64) -> (r: Option<V>)
        ensures
            ({
                let before = old(self)@;
                let left = without(before.focus_history, window);
                &&& r == match before.fullscreen {
                    Some(fs) if fs.window == window => Some(fs.saved_view),
                    _ => None::<V>,
                }
                &&& final(self)@ == (DeskView {
                    focus_history: left,
                    cycle_state: match before.cycle_state {
                        Some(i) => if left.len() == 0 {
                            None
                        } else if i >= left.len() {
                            Some((left.len() - 1) as usize)
                        } else {
                            Some(i)
                        },
                        None => None,
                    },
                    fullscreen: if r is Some {
                        None
                    } else {
                        before.fullscreen
                    },
                    ..before
                })
            }),
    {
        let restored = match self.fullscreen {
            Some(fs) => if fs.window == window {
                self.fullscreen = None;
                Some(fs.saved_view)
            } else {
                None
            },
            None => None,
        };
        retain_others(&mut self.focus_history, window);
        let left: usize = self.focus_history.len();
        if let Some(i) = self.cycle_state {
            if left == 0 {
                self.cycle_state = None;
            } else if i >= left {
                self.cycle_state = Some(left - 1);
            }
        }
        restored
    }
}

/// Leaving fullscreen puts the window and the viewpoint back where they were
/// before any window entered it, however many entered in between.
pub proof fn fullscreen_returns<V>(
    current: FullscreenState<V>,
    window: u64,
    at: (i32, i32),
    view: V,
)
    ensures
        entered(None, window, at, view) == (FullscreenState {
            window,
            saved_location: at,
            saved_view: view,
        }),
        entered(Some(current), window, at, view).saved_view == current.saved_view,
        window == current.window ==> entered(Some(current), window, at, view) == current,
{
}

/// Whether an action leaves fullscreen before it is carried out: every one but
/// the fullscreen switch itself.
pub open spec fn leaves_fullscreen(action: ActionView) -> bool {
    action !is ToggleFullscreen
}

/// What an action does to the desk, and what it has the compositor do. `left`
/// is the window that filled the screen before the action.
pub open spec fn acted<V>(
    desk: DeskView<V>,
    action: ActionView,
    left: Option<u64>,
    env: ActionEnv<V>,
) -> (DeskView<V>, EffectView<V>) {
    let focused = match env.focus {
        Some(f) => f.window,
        None => None,
    };
    let movable = match env.focus {
        Some(f) => if f.widget {
            None
        } else {
            f.window
        },
        None => None,
    };
    match action {
        ActionView::Exec(cmd) => (
            DeskView {
                exec_cursor: Some(
                    ExecCursor {
                        show_at: (env.now + 150) as u64,
                        deadline: (env.now + 5000) as u64,
                    },
                ),
                ..desk
            },
            EffectView::Spawn(cmd),
        ),
        ActionView::Spawn(cmd) => (desk, EffectView::Spawn(cmd)),
        ActionView::CloseWindow => (
            desk,
            match focused {
                Some(w) => EffectView::Close(w),
                None => EffectView::Nothing,
            },
        ),
        ActionView::NudgeWindow(dir) => (
            desk,
            match movable {
                Some(w) => if mapped(env.windows@, w) {
                    EffectView::Place(
                        w,
                        nudge_to(location(env.windows@, w), dir, env.nudge_step),
                    )
                } else {
                    EffectView::Nothing
                },
                None => EffectView::Nothing,
            },
        ),
        ActionView::PanViewport(dir) => (
            DeskView { overview_return: None, ..desk },
            EffectView::Pan(dir),
        ),
        ActionView::CenterWindow => (
            desk,
            match (
                if env.focus is Some {
                    focused
                } else {
                    env.closest
                }
            ) {
                Some(w) => EffectView::Navigate(w, true),
                None => EffectView::Nothing,
            },
        ),
        ActionView::CenterNearest(_) => (
            desk,
            match env.nearest {
                Some(NavTarget::Window(w)) => EffectView::Navigate(w, false),
                Some(NavTarget::Anchor(x, y)) => EffectView::CenterOn(x, y),
                None => EffectView::Nothing,
            },
        ),
        ActionView::CycleWindows { backward } => {
            let len = desk.focus_history.len();
            if len == 0 {
                (desk, EffectView::Nothing)
            } else {
                let place = match desk.cycle_state {
                    Some(i) => cycled(i as int, len as int, backward),
                    None => 1int % (len as int),
                };
                (
                    DeskView { cycle_state: Some(place as usize), ..desk },
                    EffectView::Navigate(desk.focus_history[place], false),
                )
            }
        },
        ActionView::HomeToggle => if env.at_home {
            let gone = DeskView { home_return: None, ..desk };
            match desk.home_return {
                None => (gone, EffectView::Nothing),
                Some(ret) => match ret.fullscreen_window {
                    Some(w) if mapped(env.windows@, w) => (
                        gone.with_fullscreen(w, location(env.windows@, w), ret.view),
                        EffectView::RestoreFullscreen(ret.view, w),
                    ),
                    _ => (gone, EffectView::Animate(ret.view)),
                },
            }
        } else {
            (
                DeskView {
                    home_return: Some(HomeReturn { view: env.view, fullscreen_window: left }),
                    overview_return: None,
                    ..desk
                },
                EffectView::GoHome,
            )
        },
        ActionView::GoToPosition(x, y) => (
            DeskView { overview_return: None, ..desk },
            EffectView::CenterOn(x, (-y) as i64),
        ),
        ActionView::ZoomIn => (DeskView { overview_return: None, ..desk }, EffectView::ZoomIn),
        ActionView::ZoomOut => (DeskView { overview_return: None, ..desk }, EffectView::ZoomOut),
        ActionView::ZoomReset => (
            DeskView { overview_return: None, ..desk },
            EffectView::ZoomReset,
        ),
        ActionView::ZoomToFit => match desk.overview_return {
            Some(view) => (DeskView { overview_return: None, ..desk }, EffectView::Animate(view)),
            None => if env.anything_to_fit {
                (DeskView { overview_return: Some(env.view), ..desk }, EffectView::Overview)
            } else {
                (desk, EffectView::Nothing)
            },
        },
        ActionView::ToggleFullscreen => match desk.fullscreen {
            Some(fs) => (DeskView { fullscreen: None, ..desk }, EffectView::LeaveFullscreen(fs)),
            None => match focused {
                Some(w) => (
                    desk.with_fullscreen(w, location(env.windows@, w), env.view),
                    EffectView::EnterFullscreen(desk.fullscreen, w),
                ),
                None => (desk, EffectView::Nothing),
            },
        },
        ActionView::SendToOutput(_) => (
            desk,
            match (movable, env.target_output) {
                (Some(w), Some(o)) => EffectView::SendTo(w, o),
                _ => EffectView::Nothing,
            },
        ),
        ActionView::FitWindow => (desk, EffectView::Nothing),
        ActionView::FocusCenter => (desk, EffectView::Nothing),
        ActionView::ReloadConfig => (desk, EffectView::ReloadConfig),
        ActionView::Quit => (desk, EffectView::Quit),
    }
}

fn locate(windows: &[(u64, (i32, i32))], window: u64) -> (r: Option<(i32, i32)>)
    ensures
        match r {
            Some(at) => mapped(windows@, window) && at == location(windows@, window),
            None => !mapped(windows@, window) && location(windows@, window) == (0i32, 0i32),
        },
{
    let mut i: usize = 0;
    assert(windows@.skip(0) =~= windows@);
    while i < windows.len()
        invariant
            i <= windows@.len(),
            forall|k: int| 0 <= k < i ==> (#[trigger] windows@[k]).0 != window,
            location(windows@, window) == location(windows@.skip(i as int), window),
        decreases windows.len() - i,
    {
        let entry = windows[i];
        assert(windows@.skip(i as int)[0] == entry);
        assert(windows@.skip(i as int).skip(1) =~= windows@.skip(i + 1));
        if entry.0 == window {
            assert(windows@[i as int].0 == window);
            return Some(entry.1);
        }
        i += 1;
    }
    None
}

fn location_or_origin(windows: &[(u64, (i32, i32))], window: u64) -> (r: (i32, i32))
    ensures
        r == location(windows@, window),
{
    match locate(windows, window) {
        Some(at) => at,
        None => (0, 0),
    }
}

impl<V: Copy> Desk<V> {
    /// Leaves fullscreen ahead of an action, unless the action is the
    /// fullscreen switch. Returns what filled the screen.
    pub fn begin_action(&mut self, action: &Action) -> (r: Option<FullscreenState<V>>)
        ensures
            leaves_fullscreen(action@) ==> r == old(self)@.fullscreen && final(self)@ == (DeskView {
                fullscreen: None,
                ..old(self)@
            }),
            !leaves_fullscreen(action@) ==> r is None && final(self)@ == old(self)@,
    {
        match action {
            Action::ToggleFullscreen => None,
            _ => self.exit_fullscreen(),
        }
    }

    /// Carries an action out, after [`Desk::begin_action`]: changes the desk,
    /// and says what the compositor has to do.
    pub fn execute_action(&mut self, action: &Action, left: Option<u64>, env: &ActionEnv<'_, V>) -> (r:
        Effect<V>)
        requires
            env.wf(),
            action@ matches ActionView::GoToPosition(_, y) ==> y > i64::MIN,
        ensures
            (final(self)@, r@) == acted(old(self)@, action@, left, *env),
    {
        match action {
            Action::Exec(cmd) => {
                self.exec_cursor = Some(
                    ExecCursor { show_at: env.now + 150, deadline: env.now + 5000 },
                );
                Effect::Spawn(cmd.clone())
            },
            Action::Spawn(cmd) => Effect::Spawn(cmd.clone()),
            Action::CloseWindow => match env.focus {
                Some(f) => match f.window {
                    Some(w) => Effect::Close(w),
                    None => Effect::Nothing,
                },
                None => Effect::Nothing,
            },
            Action::NudgeWindow(dir) => match env.focus {
                Some(f) => match f.window {
                    Some(w) => {
                        if f.widget {
                            return Effect::Nothing;
                        }
                        match locate(env.windows, w) {
                            Some(at) => Effect::Place(w, nudged(at, *dir, env.nudge_step)),
                            None => Effect::Nothing,
                        }
                    },
                    None => Effect::Nothing,
                },
                None => Effect::Nothing,
            },
            Action::PanViewport(dir) => {
                self.overview_return = None;
                Effect::Pan(*dir)
            },
            Action::CenterWindow => {
                let target = match env.focus {
                    Some(f) => f.window,
                    None => env.closest,
                };
                match target {
                    Some(w) => Effect::Navigate(w, true),
                    None => Effect::Nothing,
                }
            },
            Action::CenterNearest(_) => match env.nearest {
                Some(NavTarget::Window(w)) => Effect::Navigate(w, false),
                Some(NavTarget::Anchor(x, y)) => Effect::CenterOn(x, y),
                None => Effect::Nothing,
            },
            Action::CycleWindows { backward } => match self.cycle(*backward) {
                Some(w) => Effect::Navigate(w, false),
                None => Effect::Nothing,
            },
            Action::HomeToggle => if env.at_home {
                match self.home_return.take() {
                    None => Effect::Nothing,
                    Some(ret) => {
                        if let Some(w) = ret.fullscreen_window {
                            if let Some(at) = locate(env.windows, w) {
                                self.enter_fullscreen(w, at, ret.view);
                                return Effect::RestoreFullscreen(ret.view, w);
                            }
                        }
                        Effect::Animate(ret.view)
                    },
                }
            } else {
                self.home_return = Some(HomeReturn { view: env.view, fullscreen_window: left });
                self.overview_return = None;
                Effect::GoHome
            },
            Action::GoToPosition(x, y) => {
                self.overview_return = None;
                Effect::CenterOn(*x, -*y)
            },
            Action::ZoomIn => {
                self.overview_return = None;
                Effect::ZoomIn
            },
            Action::ZoomOut => {
                self.overview_return = None;
                Effect::ZoomOut
            },
            Action::ZoomReset => {
                self.overview_return = None;
                Effect::ZoomReset
            },
            Action::ZoomToFit => match self.overview_return.take() {
                Some(view) => Effect::Animate(view),
                None => if env.anything_to_fit {
                    self.overview_return = Some(env.view);
                    Effect::Overview
                } else {
                    Effect::Nothing
                },
            },
            Action::ToggleFullscreen => match self.exit_fullscreen() {
                Some(fs) => Effect::LeaveFullscreen(fs),
                None => match env.focus {
                    Some(f) => match f.window {
                        Some(w) => {
                            let at = location_or_origin(env.windows, w);
                            let before = self.enter_fullscreen(w, at, env.view);
                            Effect::EnterFullscreen(before, w)
                        },
                        None => Effect::Nothing,
                    },
                    None => Effect::Nothing,
                },
            },
            Action::SendToOutput(_) => match env.focus {
                Some(f) => match (f.window, env.target_output) {
                    (Some(w), Some(o)) => if f.widget {
                        Effect::Nothing
                    } else {
                        Effect::SendTo(w, o)
                    },
                    _ => Effect::Nothing,
                },
                None => Effect::Nothing,
            },
            Action::FitWindow => Effect::Nothing,
            Action::FocusCenter => Effect::Nothing,
            Action::ReloadConfig => Effect::ReloadConfig,
            Action::Quit => Effect::Quit,
        }
    }
}

/// Pressing the home key away from home and again once there leads back to the
/// viewpoint that was left.
pub proof fn home_key_returns<V>(
    desk: DeskView<V>,
    left: Option<u64>,
    away: ActionEnv<V>,
    home: ActionEnv<V>,
)
    requires
        !away.at_home,
        home.at_home,
    ensures
        ({
            let (there, out) = acted(desk, ActionView::HomeToggle, left, away);
            let (back, again) = acted(there, ActionView::HomeToggle, None, home);
            &&& out is GoHome
            &&& back.home_return is None
            &&& match left {
                Some(w) if mapped(home.windows@, w) => again == EffectView::RestoreFullscreen(
                    away.view,
                    w,
                ),
                _ => again == EffectView::Animate(away.view),
            }
        }),
{
}

/// Asking for the overview twice leads back to the viewpoint that was left.
pub proof fn overview_returns<V>(desk: DeskView<V>, first: ActionEnv<V>, second: ActionEnv<V>)
    requires
        desk.overview_return is None,
        first.anything_to_fit,
    ensures
        ({
            let (there, out) = acted(desk, ActionView::ZoomToFit, None, first);
            let (back, again) = acted(there, ActionView::ZoomToFit, None, second);
            &&& out is Overview
            &&& again == EffectView::Animate(first.view)
            &&& back == desk
        }),
{
}

/// The fullscreen switch undoes itself: the window comes back to its place,
/// and the viewpoint to where it was.
pub proof fn fullscreen_switch_returns<V>(
    desk: DeskView<V>,
    on: ActionEnv<V>,
    off: ActionEnv<V>,
    window: u64,
)
    requires
        desk.fullscreen is None,
        on.focus matches Some(f) && f.window == Some(window),
    ensures
        ({
            let (there, out) = acted(desk, ActionView::ToggleFullscreen, None, on);
            let (back, again) = acted(there, ActionView::ToggleFullscreen, None, off);
            &&& out == EffectView::<V>::EnterFullscreen(None, window)
            &&& again == EffectView::LeaveFullscreen(
                FullscreenState {
                    window,
                    saved_location: location(on.windows@, window),
                    saved_view: on.view,
                },
            )
            &&& back.fullscreen is None
            &&& back.focus_history == desk.focus_history
        }),
{
}

/// Pinned windows are never moved by an action.
pub proof fn widgets_stay<V>(desk: DeskView<V>, action: ActionView, left: Option<u64>, env: ActionEnv<V>)
    requires
        env.focus matches Some(f) && f.widget,
    ensures
        acted(desk, action, left, env).1 !is Place,
        acted(desk, action, left, env).1 !is SendTo,
{
}

} // verus!
