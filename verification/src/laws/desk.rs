//! What key actions do to the viewport and the windows.

use crate::config::types::{Action, Direction};
use crate::desk::{ActionEnv, DeskView, Effect, FullscreenState, NavTarget};
use vstd::prelude::*;

verus! {

use crate::desk::{
    acted,
    diagonal,
    is_diagonal_step,
    leaves_fullscreen,
    location,
    mapped,
    nudge_to,
    promoted,
    without,
};

/// Whether an action leads from a desk to a desk, with an effect.
pub open spec fn leads<V>(
    desk: DeskView<V>,
    action: Action,
    left: Option<u64>,
    env: ActionEnv<V>,
    after: DeskView<V>,
    effect: Effect<V>,
) -> bool {
    (after, effect@) == acted(desk, action@, left, env)
}

/// An action that stands for one effect has that effect, on every desk and
/// everywhere: zooming in zooms in, panning pans the way it says, and so on.
pub proof fn plain_actions_do_what_they_say<V>(
    desk: DeskView<V>,
    action: Action,
    left: Option<u64>,
    env: ActionEnv<V>,
    after: DeskView<V>,
    effect: Effect<V>,
)
    requires
        leads(desk, action, left, env, after, effect),
    ensures
        action is ZoomIn ==> effect is ZoomIn,
        action is ZoomOut ==> effect is ZoomOut,
        action is ZoomReset ==> effect is ZoomReset,
        action is ReloadConfig ==> effect is ReloadConfig,
        action is Quit ==> effect is Quit,
        action is FitWindow || action is FocusCenter ==> effect is Nothing,
        action matches Action::PanViewport(d) ==> effect == Effect::<V>::Pan(d),
        action matches Action::Exec(command) ==> effect matches Effect::Spawn(run) && run@
            == command@,
        action matches Action::Spawn(command) ==> effect matches Effect::Spawn(run) && run@
            == command@,
        action matches Action::GoToPosition(x, y) ==> (y > i64::MIN ==> (effect matches
            Effect::CenterOn(to_x, to_y) && to_x == x && to_y == -y)),
{
}

/// Closing, centering, nudging and sending act on the focused window: the first
/// two on any, the others on all but widgets. Without one, nothing happens,
/// but that centering falls back on the closest window where nothing at all
/// has the focus.
pub proof fn window_actions_act_on_the_focus<V>(
    desk: DeskView<V>,
    action: Action,
    left: Option<u64>,
    env: ActionEnv<V>,
    after: DeskView<V>,
    effect: Effect<V>,
    w: u64,
    o: u64,
    dir: Direction,
)
    requires
        leads(desk, action, left, env, after, effect),
    ensures
        action is CloseWindow && (env.focus matches Some(f) && f.window == Some(w)) ==> effect
            == Effect::<V>::Close(w),
        action is CloseWindow && (env.focus matches Some(f) ==> f.window is None)
            ==> effect is Nothing,
        action is CenterWindow && (env.focus matches Some(f) && f.window == Some(w)) ==> effect
            == Effect::<V>::Navigate(w, true),
        action is CenterWindow && env.focus is None && env.closest == Some(w) ==> effect
            == Effect::<V>::Navigate(w, true),
        action is CenterWindow && env.focus is None && env.closest is None ==> effect is Nothing,
        action is CenterWindow && (env.focus matches Some(f) && f.window is None)
            ==> effect is Nothing,
        action is SendToOutput && (env.focus matches Some(f) && !f.widget && f.window == Some(w))
            && env.target_output == Some(o) ==> effect == Effect::<V>::SendTo(w, o),
        action is SendToOutput && env.target_output is None ==> effect is Nothing,
        action is SendToOutput && (env.focus matches Some(f) ==> f.widget || f.window is None)
            ==> effect is Nothing,
        action == Action::NudgeWindow(dir) && (env.focus matches Some(f) && !f.widget && f.window
            == Some(w)) && mapped(env.windows@, w) ==> effect == Effect::<V>::Place(
            w,
            nudge_to(location(env.windows@, w), dir, env.nudge_step),
        ),
        action is NudgeWindow && (env.focus matches Some(f) ==> f.widget || f.window is None)
            ==> effect is Nothing,
{
}

/// Going to the nearest goes to what was found: a window without resetting the
/// zoom, an anchor by centering on it.
pub proof fn going_to_the_nearest_goes_there<V>(
    desk: DeskView<V>,
    dir: Direction,
    left: Option<u64>,
    env: ActionEnv<V>,
    after: DeskView<V>,
    effect: Effect<V>,
    w: u64,
    x: i64,
    y: i64,
)
    requires
        leads(desk, Action::CenterNearest(dir), left, env, after, effect),
    ensures
        env.nearest == Some(NavTarget::Window(w)) ==> effect == Effect::<V>::Navigate(w, false),
        env.nearest == Some(NavTarget::Anchor(x, y)) ==> effect == Effect::<V>::CenterOn(x, y),
        env.nearest is None ==> effect is Nothing,
{
}

/// Cycling goes through the windows in the order in which they had the focus:
/// first to the one before the current, then on or back by one, round and
/// round. With one window it stays there, with none nothing happens.
pub proof fn cycling_goes_round<V>(
    desk: DeskView<V>,
    backward: bool,
    left: Option<u64>,
    env: ActionEnv<V>,
    after: DeskView<V>,
    effect: Effect<V>,
)
    requires
        leads(desk, Action::CycleWindows { backward }, left, env, after, effect),
        desk.focus_history.len() <= usize::MAX,
    ensures
        desk.focus_history.len() == 0 ==> effect is Nothing && after == desk,
        desk.focus_history.len() > 0 ==> {
            &&& after.cycle_state matches Some(place) && place < desk.focus_history.len() && effect
                == Effect::<V>::Navigate(desk.focus_history[place as int], false)
        },
        desk.focus_history.len() > 1 && desk.cycle_state is None ==> after.cycle_state
            == Some(1usize),
        desk.focus_history.len() == 1 && desk.cycle_state is None ==> after.cycle_state
            == Some(0usize),
        desk.cycle_state matches Some(i) ==> (i < desk.focus_history.len() && !backward
            ==> after.cycle_state == Some(
            (if i + 1 == desk.focus_history.len() {
                0
            } else {
                i + 1
            }) as usize,
        )),
        desk.cycle_state matches Some(i) ==> (i < desk.focus_history.len() && backward
            ==> after.cycle_state == Some(
            (if i == 0 {
                desk.focus_history.len() - 1
            } else {
                i - 1
            }) as usize,
        )),
{
    let len = desk.focus_history.len() as int;
    if let Some(place) = desk.cycle_state {
        let i = place as int;
        if len > 0 {
            assert(0 <= (i + len - 1) % len < len) by (nonlinear_arith)
                requires
                    len > 0,
            ;
            assert(0 <= (i + 1) % len < len) by (nonlinear_arith)
                requires
                    len > 0,
            ;
        }
        if i < len {
            if i + 1 < len {
                vstd::arithmetic::div_mod::lemma_small_mod((i + 1) as nat, len as nat);
            } else {
                vstd::arithmetic::div_mod::lemma_mod_self_0(len);
            }
            if i == 0 {
                vstd::arithmetic::div_mod::lemma_small_mod((len - 1) as nat, len as nat);
            } else {
                vstd::arithmetic::div_mod::lemma_mod_add_multiples_vanish(i - 1, len);
                vstd::arithmetic::div_mod::lemma_small_mod((i - 1) as nat, len as nat);
                assert(len + (i - 1) == i + len - 1);
            }
        }
    } else if len > 1 {
        vstd::arithmetic::div_mod::lemma_small_mod(1, len as nat);
    }
}

/// The home switch goes home from elsewhere, remembering the view and what was
/// left, and from home goes back where something is remembered.
pub proof fn the_home_switch_goes_and_returns<V>(
    desk: DeskView<V>,
    left: Option<u64>,
    env: ActionEnv<V>,
    after: DeskView<V>,
    effect: Effect<V>,
    view: V,
    w: u64,
)
    requires
        leads(desk, Action::HomeToggle, left, env, after, effect),
    ensures
        !env.at_home ==> effect is GoHome && (after.home_return matches Some(h) && h.view == env.view
            && h.fullscreen_window == left),
        env.at_home && desk.home_return is None ==> effect is Nothing,
        env.at_home ==> after.home_return is None,
        env.at_home && (desk.home_return matches Some(h) && h.view == view && h.fullscreen_window
            is None) ==> effect == Effect::<V>::Animate(view),
        env.at_home && (desk.home_return matches Some(h) && h.view == view && h.fullscreen_window
            == Some(w)) && !mapped(env.windows@, w) ==> effect == Effect::<V>::Animate(view),
        env.at_home && (desk.home_return matches Some(h) && h.view == view && h.fullscreen_window
            == Some(w)) && mapped(env.windows@, w) ==> effect == Effect::<V>::RestoreFullscreen(
            view,
            w,
        ) && (after.fullscreen matches Some(fs) && fs.window == w),
{
}

/// The overview switch shows everything, where there is anything, and goes back
/// to the view that it was switched on from.
pub proof fn the_overview_switch_goes_and_returns<V>(
    desk: DeskView<V>,
    left: Option<u64>,
    env: ActionEnv<V>,
    after: DeskView<V>,
    effect: Effect<V>,
    view: V,
)
    requires
        leads(desk, Action::ZoomToFit, left, env, after, effect),
    ensures
        desk.overview_return == Some(view) ==> effect == Effect::<V>::Animate(view)
            && after.overview_return is None,
        desk.overview_return is None && env.anything_to_fit ==> effect is Overview
            && after.overview_return == Some(env.view),
        desk.overview_return is None && !env.anything_to_fit ==> effect is Nothing && after == desk,
{
}

/// The fullscreen switch leaves where a window is fullscreen, and else takes the
/// focused window there, remembering where it and the view were.
pub proof fn the_fullscreen_switch_goes_and_returns<V>(
    desk: DeskView<V>,
    left: Option<u64>,
    env: ActionEnv<V>,
    after: DeskView<V>,
    effect: Effect<V>,
    w: u64,
)
    requires
        leads(desk, Action::ToggleFullscreen, left, env, after, effect),
    ensures
        desk.fullscreen matches Some(fs) ==> effect == Effect::LeaveFullscreen(fs)
            && after.fullscreen is None,
        desk.fullscreen is None && (env.focus matches Some(f) && f.window == Some(w)) ==> {
            &&& effect == Effect::EnterFullscreen(None::<FullscreenState<V>>, w)
            &&& after.fullscreen matches Some(fs) && fs.window == w && fs.saved_location == location(
                env.windows@,
                w,
            ) && fs.saved_view == env.view
        },
        desk.fullscreen is None && (env.focus matches Some(f) ==> f.window is None)
            ==> effect is Nothing && after == desk,
{
}

/// What an action leaves alone: the focus history always, the place in a cycle
/// but by cycling, the launch cursor but by a launch, which shows it from 150
/// milliseconds on for 5 seconds in all, and the fullscreen window but by the
/// switches that are about it.
pub proof fn actions_leave_the_rest_alone<V>(
    desk: DeskView<V>,
    action: Action,
    left: Option<u64>,
    env: ActionEnv<V>,
    after: DeskView<V>,
    effect: Effect<V>,
)
    requires
        leads(desk, action, left, env, after, effect),
        env.wf(),
    ensures
        after.focus_history == desk.focus_history,
        !(action is CycleWindows) ==> after.cycle_state == desk.cycle_state,
        !(action is Exec) ==> after.exec_cursor == desk.exec_cursor,
        action is Exec ==> (after.exec_cursor matches Some(c) && c.show_at == env.now + 150
            && c.deadline == env.now + 5000),
        !(action is ToggleFullscreen) && !(action is HomeToggle) ==> after.fullscreen
            == desk.fullscreen && after.home_return == desk.home_return,
        action is ToggleFullscreen && effect is EnterFullscreen ==> after.home_return is None
            && after.overview_return is None,
        action is PanViewport || action is ZoomIn || action is ZoomOut || action is ZoomReset
            || action is GoToPosition ==> after.overview_return is None,
        action is HomeToggle && !env.at_home ==> after.overview_return is None && after.fullscreen
            == desk.fullscreen,
        action is Exec || action is Spawn || action is CloseWindow || action is NudgeWindow
            || action is CenterWindow || action is CenterNearest || action is CycleWindows
            || action is SendToOutput || action is FitWindow || action is FocusCenter
            || action is ReloadConfig || action is Quit ==> after.overview_return
            == desk.overview_return,
{
}

/// Every action but the fullscreen switch leaves fullscreen first.
pub proof fn actions_leave_fullscreen(action: Action)
    ensures
        leaves_fullscreen(action@) <==> !(action is ToggleFullscreen),
{
}

/// A nudge moves a window by the step, the way it says: right adds to x and down
/// adds to y. A diagonal nudge moves as far along both axes, by the step over
/// the square root of two to the nearest pixel.
pub proof fn nudges_go_where_they_say(from: (i32, i32), dir: Direction, step: i32)
    requires
        -0x1000_0000 <= from.0 <= 0x1000_0000,
        -0x1000_0000 <= from.1 <= 0x1000_0000,
        0 <= step <= 0x1000_0000,
    ensures
        ({
            let to = nudge_to(from, dir, step);
            let dx = to.0 - from.0;
            let dy = to.1 - from.1;
            &&& dir is Right ==> dx == step && dy == 0
            &&& dir is Left ==> dx == -step && dy == 0
            &&& dir is Down ==> dx == 0 && dy == step
            &&& dir is Up ==> dx == 0 && dy == -step
            &&& dir is DownRight ==> dx >= 0 && dy == dx
            &&& dir is UpLeft ==> dx <= 0 && dy == dx
            &&& dir is UpRight ==> dx >= 0 && dy == -dx
            &&& dir is DownLeft ==> dx <= 0 && dy == -dx
            &&& dir is DownRight || dir is UpRight ==> 2 * (step * step) < (2 * dx + 1) * (2 * dx + 1)
                && (dx > 0 ==> (2 * dx - 1) * (2 * dx - 1) < 2 * (step * step))
            &&& dir is UpLeft || dir is DownLeft ==> 2 * (step * step) < (-2 * dx + 1) * (-2 * dx + 1)
                && (dx < 0 ==> (-2 * dx - 1) * (-2 * dx - 1) < 2 * (step * step))
        }),
{
    if dir.is_diagonal() {
        let s = step as int;
        let a = diagonal_exists(s);
        if s == 0 {
            let r = diagonal(0);
            assert(2 * (0int * 0int) < (2 * 0 + 1) * (2 * 0 + 1)) by (nonlinear_arith);
            assert(is_diagonal_step(0, 0));
            crate::desk::diagonal_step_is_unique(0, r, 0);
            assert(1 * s == 0 && -1 * s == 0);
        } else {
            assert(is_diagonal_step(s, a));
            assert((-s) * (-s) == s * s) by (nonlinear_arith);
            assert(is_diagonal_step(-s, -a));
            crate::desk::diagonal_step_is_unique(s, diagonal(s), a);
            crate::desk::diagonal_step_is_unique(-s, diagonal(-s), -a);
            assert(1 * s == s && -1 * s == -s);
        }
        assert(a <= 0x1000_0001) by (nonlinear_arith)
            requires
                0 <= s <= 0x1000_0000,
                a > 0 ==> (2 * a - 1) * (2 * a - 1) < 2 * (s * s),
        ;
    }
}

proof fn diagonal_exists(s: int) -> (a: int)
    requires
        0 <= s,
    ensures
        0 <= a,
        2 * (s * s) < (2 * a + 1) * (2 * a + 1),
        a > 0 ==> (2 * a - 1) * (2 * a - 1) < 2 * (s * s),
    decreases s,
{
    climb(s, 0)
}

proof fn climb(s: int, low: int) -> (a: int)
    requires
        0 <= s,
        0 <= low,
        low <= 2 * s,
        low > 0 ==> (2 * low - 1) * (2 * low - 1) < 2 * (s * s),
    ensures
        0 <= a,
        2 * (s * s) < (2 * a + 1) * (2 * a + 1),
        a > 0 ==> (2 * a - 1) * (2 * a - 1) < 2 * (s * s),
    decreases 2 * s - low,
{
    if 2 * (s * s) < (2 * low + 1) * (2 * low + 1) {
        low
    } else {
        let (p, q) = (low * low + low, s * s);
        assert((2 * low + 1) * (2 * low + 1) == 4 * p + 1) by (nonlinear_arith)
            requires
                p == low * low + low,
        ;
        assert(4 * p + 1 != 2 * q);
        assert(low < 2 * s) by (nonlinear_arith)
            requires
                0 <= low,
                0 <= s,
                (2 * low + 1) * (2 * low + 1) <= 2 * (s * s),
        ;
        assert(2 * (low + 1) - 1 == 2 * low + 1);
        climb(s, low + 1)
    }
}

/// A window is where the list says, each window being listed once.
pub proof fn windows_are_where_they_are_listed(windows: Seq<(u64, (i32, i32))>, k: int)
    requires
        0 <= k < windows.len(),
        forall|i: int, j: int|
            0 <= i < j < windows.len() ==> (#[trigger] windows[i]).0 != (#[trigger] windows[j]).0,
    ensures
        mapped(windows, windows[k].0),
        location(windows, windows[k].0) == windows[k].1,
    decreases windows.len(),
{
    if k > 0 {
        let rest = windows.skip(1);
        assert(rest[k - 1] == windows[k]);
        assert forall|i: int, j: int| 0 <= i < j < rest.len() implies (#[trigger] rest[i]).0 != (
        #[trigger] rest[j]).0 by {
            assert(windows[i + 1].0 != windows[j + 1].0);
        }
        windows_are_where_they_are_listed(rest, k - 1);
        assert(windows[0].0 != windows[k].0);
    }
}

/// Taking a window out of the history keeps the order of the others, and
/// promoting one puts it first.
pub proof fn histories_keep_their_order(a: Seq<u64>, b: Seq<u64>, w: u64, x: u64)
    ensures
        without(a + b, w) == without(a, w) + without(b, w),
        without(seq![x], w) == (if x == w {
            Seq::<u64>::empty()
        } else {
            seq![x]
        }),
        promoted(a + b, w) == seq![w] + without(a, w) + without(b, w),
    decreases b.len(),
{
    if b.len() == 0 {
        assert(a + b =~= a);
        assert(without(a, w) + without(b, w) =~= without(a, w));
    } else {
        assert((a + b).drop_last() =~= a + b.drop_last());
        histories_keep_their_order(a, b.drop_last(), w, x);
        assert(without(a + b, w) =~= without(a, w) + without(b, w));
    }
    assert(seq![x].drop_last() =~= Seq::<u64>::empty());
    assert(without(seq![x], w) =~= (if x == w {
        Seq::<u64>::empty()
    } else {
        seq![x]
    })) by {
        reveal_with_fuel(without, 2);
    }
    assert(promoted(a + b, w) =~= seq![w] + without(a, w) + without(b, w));
}

/// A desk on which a window enters fullscreen has that window fullscreen,
/// forgets the ways back from home and overview, and keeps the rest.
pub proof fn fullscreen_forgets_the_ways_back<V>(desk: DeskView<V>, w: u64, at: (i32, i32), view: V)
    ensures
        ({
            let after = desk.with_fullscreen(w, at, view);
            &&& after.fullscreen matches Some(fs) && fs.window == w
            &&& desk.fullscreen is None ==> (after.fullscreen matches Some(fs) && fs.saved_location
                == at && fs.saved_view == view)
            &&& desk.fullscreen is Some && desk.fullscreen->0.window != w ==> (
            after.fullscreen matches Some(fs) && fs.saved_location == at && fs.saved_view
                == desk.fullscreen->0.saved_view)
            &&& after.home_return is None && after.overview_return is None
            &&& after.focus_history == desk.focus_history && after.cycle_state == desk.cycle_state
                && after.exec_cursor == desk.exec_cursor
        }),
{
}

} // verus!
