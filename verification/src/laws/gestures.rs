//! Swipes, pinches and holds on the trackpad.

use crate::config::types::{ContinuousAction, GestureTrigger, ThresholdAction};
use crate::config::Config;
use crate::geometry::{Point, ResizeEdge, Size};
use crate::gestures::{
    GestureEnv,
    GestureState,
    GestureWindow,
    GesturesView,
    PinchEnd,
    SwipeEnd,
    SwipeMotion,
    SwipeStart,
    SwipeUpdate,
};
use vstd::prelude::*;

verus! {

use crate::config::types::{ActionView, GestureEntryView, ThresholdActionView};
use crate::gestures::{
    directions_bound,
    drag_target,
    entry_for,
    may_configure,
    pinch_action,
    pinch_begun,
    pinch_ended,
    pinched,
    pointed,
    short_of_threshold,
    swipe_action,
    swipe_begun,
    swipe_ended,
    swiped,
    swiped_size,
    threshold_swipe,
    GestureStateView,
    PinchUpdateView,
    SwipeUpdateView,
};
use crate::gestures::seen;
use crate::units::magnitude;

/// A window that is dragged by a swipe follows the fingers: wherever an output
/// is found under the moved pointer, whether another or the same, the pointer
/// has moved by the swipe, counted in the layout of the outputs.
pub proof fn dragged_pointers_follow_the_fingers(
    output: u64,
    screen: (i64, i64),
    delta: (i64, i64),
    layout_position: Point,
    size: Size,
    target: u64,
    at: Point,
)
    requires
        target == output ==> at == layout_position,
    ensures
        ({
            let r = drag_target(output, screen, delta, layout_position, size, Some((target, at)));
            &&& r.0 == target
            &&& r.1.0 + 32_000 * at.x == screen.0 + delta.0 + 32_000 * layout_position.x
            &&& r.1.1 + 32_000 * at.y == screen.1 + delta.1 + 32_000 * layout_position.y
        }),
{
}

/// Where no output is found, the pointer stays on the one that it was on, at
/// its edge on the side that it would leave by, and follows the fingers along
/// the other axis.
pub proof fn dragged_pointers_stop_at_the_edge(
    output: u64,
    screen: (i64, i64),
    delta: (i64, i64),
    layout_position: Point,
    size: Size,
)
    requires
        size.w >= 1,
        size.h >= 1,
    ensures
        ({
            let r = drag_target(output, screen, delta, layout_position, size, None);
            let (x, y) = (screen.0 + delta.0, screen.1 + delta.1);
            &&& r.0 == output
            &&& x < 0 ==> r.1.0 == 0
            &&& x > 32_000 * (size.w - 1) ==> r.1.0 == 32_000 * (size.w - 1)
            &&& 0 <= x <= 32_000 * (size.w - 1) ==> r.1.0 == x
            &&& y < 0 ==> r.1.1 == 0
            &&& y > 32_000 * (size.h - 1) ==> r.1.1 == 32_000 * (size.h - 1)
            &&& 0 <= y <= 32_000 * (size.h - 1) ==> r.1.1 == y
        }),
{
}

/// A direction leads where the vector does: never to the other side, along one
/// axis where the other hardly counts, and between them where both do.
pub proof fn directions_lead_where_vectors_do(v: (i64, i64))
    requires
        v.0 != 0 || v.1 != 0,
    ensures
        ({
            let d = pointed(v);
            let (x, y) = (magnitude(v.0 as int), magnitude(v.1 as int));
            &&& d is Right || d is UpRight || d is DownRight ==> v.0 > 0
            &&& d is Left || d is UpLeft || d is DownLeft ==> v.0 < 0
            &&& d is Down || d is DownLeft || d is DownRight ==> v.1 > 0
            &&& d is Up || d is UpLeft || d is UpRight ==> v.1 < 0
            &&& d is Up || d is Down ==> 10_000 * x <= 4_142 * y
            &&& d is Left || d is Right ==> 10_000 * y <= 4_142 * x
            &&& d is UpLeft || d is UpRight || d is DownLeft || d is DownRight ==> 10_000 * x > 4_142 * y
                && 10_000 * y > 4_142 * x
        }),
{
}

/// A swipe counts once it is 16 pixels long, as the crow flies.
pub proof fn swipes_count_from_sixteen_pixels(c: (i64, i64))
    ensures
        short_of_threshold(c) <==> c.0 * c.0 + c.1 * c.1 < 512_000 * 512_000,
        c.1 == 0 ==> (short_of_threshold(c) <==> -512_000 < c.0 < 512_000),
        c.0 == 0 ==> (short_of_threshold(c) <==> -512_000 < c.1 < 512_000),
{
    let (x, y) = (c.0 as int, c.1 as int);
    assert(x * x < 512_000 * 512_000 <==> -512_000 < x < 512_000) by (nonlinear_arith);
    assert(y * y < 512_000 * 512_000 <==> -512_000 < y < 512_000) by (nonlinear_arith);
    assert(x == 0 ==> x * x == 0) by (nonlinear_arith);
    assert(y == 0 ==> y * y == 0) by (nonlinear_arith);
}

/// A swipe that counts does what is bound to its direction, up being where y
/// falls and left being where x falls; where nothing is bound to it, what is
/// bound to the swipe as such.
pub proof fn swipes_do_what_their_direction_is_bound_to<Z>(
    cumulative: (i64, i64),
    fired: bool,
    up: Option<ThresholdActionView>,
    down: Option<ThresholdActionView>,
    left: Option<ThresholdActionView>,
    right: Option<ThresholdActionView>,
    directional: Option<ThresholdActionView>,
    went: (i64, i64),
    a: ActionView,
)
    ensures
        ({
            let state = GestureStateView::<Z>::SwipeThreshold {
                cumulative,
                fired,
                up,
                down,
                left,
                right,
                directional,
            };
            let (x, y) = (magnitude(went.0 as int), magnitude(went.1 as int));
            let fixed = Some(ThresholdActionView::Fixed(a));
            &&& went.1 < 0 && y > x && up == fixed ==> swipe_action(state, went) == Some(a)
            &&& went.1 > 0 && y > x && down == fixed ==> swipe_action(state, went) == Some(a)
            &&& went.0 < 0 && x > y && left == fixed ==> swipe_action(state, went) == Some(a)
            &&& went.0 > 0 && x > y && right == fixed ==> swipe_action(state, went) == Some(a)
            &&& up is None && down is None && left is None && right is None && directional == fixed
                ==> swipe_action(state, went) == Some(a)
            &&& up is None && down is None && left is None && right is None && directional is None
                ==> swipe_action(state, went) is None
            &&& went.1 < 0 && y > x && up is None && directional == fixed ==> swipe_action(state, went)
                == Some(a)
            &&& went.1 > 0 && y > x && down is None && directional == fixed ==> swipe_action(
                state,
                went,
            ) == Some(a)
            &&& went.0 < 0 && x > y && left is None && directional == fixed ==> swipe_action(
                state,
                went,
            ) == Some(a)
            &&& went.0 > 0 && x > y && right is None && directional == fixed ==> swipe_action(
                state,
                went,
            ) == Some(a)
            &&& up is None && down is None && left is None && right is None && directional == Some(
                ThresholdActionView::CenterNearest,
            ) ==> swipe_action(state, went) == Some(ActionView::CenterNearest(pointed(went)))
        }),
{
}

/// A swipe on the way does nothing until it counts, then acts, and then no
/// more; the way adds up from step to step.
pub proof fn swipes_add_up<Z>(state: GestureStateView<Z>, motion: SwipeMotion)
    requires
        state matches GestureStateView::SwipeThreshold { fired, .. } && !fired,
        state.wf(),
        motion.wf(),
    ensures
        ({
            let (after, update) = swiped(Some(state), motion);
            let x = state->SwipeThreshold_cumulative.0 + motion.delta.0;
            let y = state->SwipeThreshold_cumulative.1 + motion.delta.1;
            &&& after matches Some(s) && s is SwipeThreshold
            &&& after->0->SwipeThreshold_cumulative.0 == x
            &&& after->0->SwipeThreshold_cumulative.1 == y
            &&& after->0->fired <==> x * x + y * y >= 512_000 * 512_000
            &&& !after->0->fired ==> update is Nothing
            &&& after->0->fired ==> match swipe_action(state, (x as i64, y as i64)) {
                Some(a) => update == SwipeUpdateView::Act(a),
                None => update is Nothing,
            }
        }),
{
}

/// A swipe that pans pans and one that drags drags, and neither changes by it;
/// a swipe that nothing took goes on to the client.
pub proof fn swipes_go_on_as_they_began<Z>(state: Option<GestureStateView<Z>>, motion: SwipeMotion)
    ensures
        state == Some(GestureStateView::<Z>::SwipePan) ==> swiped(state, motion) == (
            state,
            SwipeUpdateView::Pan,
        ),
        state == Some(GestureStateView::<Z>::SwipeMove) ==> swiped(state, motion) == (
            state,
            SwipeUpdateView::Move,
        ),
        state is None ==> swiped(state, motion) == (state, SwipeUpdateView::Forward),
        state is Some && !(state->0 is SwipePan || state->0 is SwipeMove || state->0 is SwipeResize
            || state->0 is SwipeThreshold) ==> swiped(state, motion) == (
            state,
            SwipeUpdateView::Forward,
        ),
{
}

/// A window that is resized by a swipe has the size of one whose held edges are
/// dragged as far as the fingers went in all. It asks for a size when that
/// changes; an X11 window at most every 16 milliseconds.
pub proof fn swipes_resize_by_the_whole_way<Z>(state: GestureStateView<Z>, motion: SwipeMotion)
    requires
        state is SwipeResize,
        state.wf(),
        motion.wf(),
        -0x1_0000_0000_0000 <= state->SwipeResize_cumulative.0 <= 0x1_0000_0000_0000,
        -0x1_0000_0000_0000 <= state->SwipeResize_cumulative.1 <= 0x1_0000_0000_0000,
        -0x1_0000_0000_0000 <= motion.canvas_delta.0 <= 0x1_0000_0000_0000,
        -0x1_0000_0000_0000 <= motion.canvas_delta.1 <= 0x1_0000_0000_0000,
    ensures
        ({
            let (after, update) = swiped(Some(state), motion);
            let x = state->SwipeResize_cumulative.0 + motion.canvas_delta.0;
            let y = state->SwipeResize_cumulative.1 + motion.canvas_delta.1;
            let size = swiped_size(state->edges, state->initial_size, (x as i64, y as i64));
            let waits = motion.x11 && (state->last_x11_configure matches Some(t) && motion.now < t
                + 16);
            &&& after matches Some(s) && s is SwipeResize
            &&& after->0->SwipeResize_cumulative.0 == x
            &&& after->0->SwipeResize_cumulative.1 == y
            &&& after->0->window == state->window
            &&& after->0->edges == state->edges
            &&& after->0->initial_location == state->initial_location
            &&& after->0->initial_size == state->initial_size
            &&& after->0->last_size == size
            &&& size != state->last_size && !waits ==> update == SwipeUpdateView::Resize(Some(size))
            &&& size == state->last_size || waits ==> update == SwipeUpdateView::Resize(None)
            &&& motion.x11 && update == SwipeUpdateView::Resize(Some(size))
                ==> after->0->last_x11_configure == Some(motion.now)
        }),
{
}

/// Fingers that go right widen a window that is held on the right and narrow
/// one that is held on the left; fingers that go down heighten one that is held
/// at the bottom and shorten one that is held at the top.
pub proof fn held_edges_follow_the_fingers(edges: ResizeEdge, initial: Size, dx: int, dy: int)
    requires
        1 <= initial.w <= 0x1000_0000,
        1 <= initial.h <= 0x1000_0000,
        -0x1000_0000 <= dx <= 0x1000_0000,
        -0x1000_0000 <= dy <= 0x1000_0000,
    ensures
        ({
            let size = swiped_size(edges, initial, ((32_000 * dx) as i64, (32_000 * dy) as i64));
            &&& (edges is Right || edges is TopRight || edges is BottomRight) && initial.w + dx >= 1
                ==> size.w == initial.w + dx
            &&& (edges is Left || edges is TopLeft || edges is BottomLeft) && initial.w - dx >= 1
                ==> size.w == initial.w - dx
            &&& (edges is Bottom || edges is BottomLeft || edges is BottomRight) && initial.h + dy
                >= 1 ==> size.h == initial.h + dy
            &&& (edges is Top || edges is TopLeft || edges is TopRight) && initial.h - dy >= 1
                ==> size.h == initial.h - dy
            &&& edges is Top || edges is Bottom ==> size.w == initial.w
            &&& edges is Left || edges is Right ==> size.h == initial.h
        }),
{
}

/// A swipe that is bound to a window acts on the window under the fingers: it
/// moves or resizes it, but a widget stays, and what is bound to nothing that
/// is there pans the canvas.
pub proof fn bound_swipes_act_on_the_window<Z>(
    gestures: GesturesView<Z>,
    config: Config,
    env: GestureEnv,
    fingers: u32,
    w: GestureWindow,
)
    requires
        w.has_surface,
        !w.widget,
    ensures
        ({
            let bound = entry_for(config, env, GestureTrigger::Swipe { fingers });
            let (after, begin) = swipe_begun(gestures, config, env, fingers, false);
            &&& bound == Some(GestureEntryView::Continuous(ContinuousAction::MoveWindow))
                && env.window == Some(w) ==> begin.start == SwipeStart::Move(w.id)
                && after.state == Some(GestureStateView::<Z>::SwipeMove)
            &&& bound == Some(GestureEntryView::Continuous(ContinuousAction::ResizeWindow))
                && env.window == Some(w) ==> (begin.start matches SwipeStart::Resize {
                window,
                cluster,
                ..
            } && window == w.id && !cluster) && after.state is Some && after.state->0 is SwipeResize
                && after.state->0->window == w.id && after.state->0->initial_size == w.size
                && after.state->0->initial_location == w.location
                && after.state->0->SwipeResize_cumulative == (0i64, 0i64)
            &&& bound == Some(GestureEntryView::Continuous(ContinuousAction::ResizeWindowSnapped))
                && env.window == Some(w) ==> (begin.start matches SwipeStart::Resize {
                window,
                cluster,
                ..
            } && window == w.id && cluster)
            &&& bound == Some(GestureEntryView::Continuous(ContinuousAction::PanViewport))
                ==> begin.start == SwipeStart::Follow && after.state == Some(
                GestureStateView::<Z>::SwipePan,
            )
            &&& bound is Some && bound->0 is Continuous && env.window is None ==> begin.start
                == SwipeStart::Follow && after.state == Some(GestureStateView::<Z>::SwipePan)
            &&& bound is Some ==> after.output == env.active_output && begin.cancel_animations
            &&& !begin.flush_middle_click
        }),
{
}

/// A widget under a swipe that would move or resize it stays: the canvas is
/// panned.
pub proof fn swipes_over_widgets_pan<Z>(
    gestures: GesturesView<Z>,
    config: Config,
    env: GestureEnv,
    fingers: u32,
    w: GestureWindow,
)
    requires
        w.widget,
        env.window == Some(w),
        entry_for(config, env, GestureTrigger::Swipe { fingers }) matches Some(e) && e is Continuous,
    ensures
        swipe_begun(gestures, config, env, fingers, false).0.state == Some(
            GestureStateView::<Z>::SwipePan,
        ),
        swipe_begun(gestures, config, env, fingers, false).1.start == SwipeStart::Follow,
{
}

/// A swipe after a tap does what is bound to that, where it is about the window
/// under the fingers, and swallows the tap; else it gives the tap back and is a
/// plain swipe.
pub proof fn swipes_after_a_tap<Z>(
    gestures: GesturesView<Z>,
    config: Config,
    env: GestureEnv,
    fingers: u32,
    w: GestureWindow,
)
    requires
        w.has_surface,
        !w.widget,
    ensures
        ({
            let bound = entry_for(config, env, GestureTrigger::DoubletapSwipe { fingers });
            let (after, begin) = swipe_begun(gestures, config, env, fingers, true);
            let plain = swipe_begun(gestures, config, env, fingers, false);
            &&& bound == Some(GestureEntryView::Continuous(ContinuousAction::MoveWindow))
                && env.window == Some(w) ==> begin.start == SwipeStart::Move(w.id)
                && !begin.flush_middle_click && begin.cancel_animations
            &&& bound is None ==> begin.flush_middle_click && begin.start == plain.1.start
                && after == plain.0
        }),
{
}

/// A swipe that is bound by its directions, or as a whole to an action, waits
/// for its direction with each of the four where it belongs.
pub proof fn directions_are_looked_up_each<Z>(
    config: Config,
    env: GestureEnv,
    fingers: u32,
    directional: Option<ThresholdActionView>,
    t: ThresholdActionView,
)
    ensures
        ({
            let state = threshold_swipe::<Z>(config, env, fingers, directional);
            &&& state is SwipeThreshold && !state->fired && state->SwipeThreshold_cumulative == (
                0i64,
                0i64,
            ) && state->directional == directional
            &&& entry_for(config, env, GestureTrigger::SwipeUp { fingers }) == Some(
                GestureEntryView::Threshold(t),
            ) ==> state->up == Some(t)
            &&& entry_for(config, env, GestureTrigger::SwipeDown { fingers }) == Some(
                GestureEntryView::Threshold(t),
            ) ==> state->down == Some(t)
            &&& entry_for(config, env, GestureTrigger::SwipeLeft { fingers }) == Some(
                GestureEntryView::Threshold(t),
            ) ==> state->left == Some(t)
            &&& entry_for(config, env, GestureTrigger::SwipeRight { fingers }) == Some(
                GestureEntryView::Threshold(t),
            ) ==> state->right == Some(t)
            &&& entry_for(config, env, GestureTrigger::SwipeUp { fingers }) is None ==> state->up is None
            &&& entry_for(config, env, GestureTrigger::SwipeDown { fingers }) is None
                ==> state->down is None
            &&& entry_for(config, env, GestureTrigger::SwipeLeft { fingers }) is None
                ==> state->left is None
            &&& entry_for(config, env, GestureTrigger::SwipeRight { fingers }) is None
                ==> state->right is None
        }),
        directions_bound(config, env, fingers) <==> entry_for(
            config,
            env,
            GestureTrigger::SwipeUp { fingers },
        ) is Some || entry_for(config, env, GestureTrigger::SwipeDown { fingers }) is Some
            || entry_for(config, env, GestureTrigger::SwipeLeft { fingers }) is Some || entry_for(
            config,
            env,
            GestureTrigger::SwipeRight { fingers },
        ) is Some,
{
}

/// A swipe whose directions alone are bound waits for its direction, and one
/// that is bound as a whole to an action does so with that to fall back on.
pub proof fn bound_directions_are_waited_for<Z>(
    gestures: GesturesView<Z>,
    config: Config,
    env: GestureEnv,
    fingers: u32,
    t: ThresholdActionView,
)
    ensures
        ({
            let bound = entry_for(config, env, GestureTrigger::Swipe { fingers });
            let (after, begin) = swipe_begun(gestures, config, env, fingers, false);
            &&& bound == Some(GestureEntryView::Threshold(t)) ==> begin.start == SwipeStart::Follow
                && after.state is Some && after.state->0 is SwipeThreshold
                && after.state->0->directional == Some(t)
            &&& bound is None && directions_bound(config, env, fingers) ==> begin.start
                == SwipeStart::Follow && after.state is Some && after.state->0 is SwipeThreshold
                && after.state->0->directional is None
            &&& bound is None && !directions_bound(config, env, fingers) ==> begin.start
                == SwipeStart::Forward && after == gestures && !begin.cancel_animations
        }),
{
}

/// A swipe ends as it went: a pan drifts on, a drag is let go, a resize is
/// finished with what it began with, and one that nothing took ends at the
/// client.
pub proof fn swipes_end_as_they_went<Z>(gestures: GesturesView<Z>)
    ensures
        gestures.state is None ==> swipe_ended(gestures) is Forward,
        gestures.state == Some(GestureStateView::<Z>::SwipePan) ==> swipe_ended(gestures)
            == SwipeEnd::Drift(gestures.output),
        gestures.state == Some(GestureStateView::<Z>::SwipeMove) ==> swipe_ended(gestures)
            is Release,
        gestures.state is Some && gestures.state->0 is SwipeResize ==> swipe_ended(gestures) == (
        SwipeEnd::FinishResize {
            window: gestures.state->0->window,
            edges: gestures.state->0->edges,
            initial_location: gestures.state->0->initial_location,
            initial_size: gestures.state->0->initial_size,
        }),
        gestures.state is Some && gestures.state->0 is SwipeThreshold ==> swipe_ended(gestures)
            is Nothing,
{
}

/// A pinch zooms where that is bound to it, from the zoom that it began at;
/// else it waits for what is bound to either way, or goes to the client.
pub proof fn pinches_do_what_they_are_bound_to<Z>(
    gestures: GesturesView<Z>,
    config: Config,
    env: GestureEnv,
    fingers: u32,
    zoom: Z,
    a: ActionView,
    scale: i64,
)
    ensures
        ({
            let bound = entry_for(config, env, GestureTrigger::Pinch { fingers });
            let inward = entry_for(config, env, GestureTrigger::PinchIn { fingers });
            let outward = entry_for(config, env, GestureTrigger::PinchOut { fingers });
            let fixed = Some(GestureEntryView::Threshold(ThresholdActionView::Fixed(a)));
            let zooms = bound == Some(GestureEntryView::Continuous(ContinuousAction::Zoom));
            let (after, begin) = pinch_begun(gestures, config, env, fingers, zoom);
            let update = pinched(after.state, scale).1;
            &&& zooms ==> begin is Zoom && after.output == env.active_output && update
                == PinchUpdateView::Zoom(zoom)
            &&& !zooms && inward == fixed ==> begin is Threshold && (scale < 800_000 ==> update
                == PinchUpdateView::<Z>::Act(a))
            &&& !zooms && outward == fixed ==> begin is Threshold && (scale > 1_200_000 ==> update
                == PinchUpdateView::<Z>::Act(a))
            &&& !zooms && (inward == fixed || outward == fixed) && 800_000 <= scale <= 1_200_000
                ==> update is Nothing
            &&& !zooms && inward is None && outward is None ==> begin is Forward && update is Forward
        }),
{
}

/// What a pinch has done once inwards it can still do outwards, and the other
/// way round.
pub proof fn pinches_turn_round<Z>(state: GestureStateView<Z>, first: i64, second: i64)
    requires
        state matches GestureStateView::PinchThreshold { fired_in, fired_out, .. } && !fired_in
            && !fired_out,
    ensures
        first < 800_000 && second > 1_200_000 ==> pinched(pinched(Some(state), first).0, second).1
            == match state->action_out {
            Some(a) => PinchUpdateView::<Z>::Act(a),
            None => PinchUpdateView::Nothing,
        },
        first > 1_200_000 && second < 800_000 ==> pinched(pinched(Some(state), first).0, second).1
            == match state->action_in {
            Some(a) => PinchUpdateView::<Z>::Act(a),
            None => PinchUpdateView::Nothing,
        },
{
}

/// A pinch ends as it went: a zoom snaps, one for the client ends there, and
/// one that acted is over.
pub proof fn pinches_end_as_they_went<Z>(gestures: GesturesView<Z>)
    ensures
        gestures.state is None || gestures.state->0 is PinchForward ==> pinch_ended(gestures)
            is Forward,
        gestures.state is Some && gestures.state->0 is PinchZoom ==> pinch_ended(gestures)
            == PinchEnd::SnapZoom(gestures.output),
        gestures.state is Some && gestures.state->0 is PinchThreshold ==> pinch_ended(gestures)
            is Nothing,
{
}

/// Only a fixed action can be bound to a hold or a pinch one way.
pub proof fn pinches_take_fixed_actions(a: ActionView, c: ContinuousAction)
    ensures
        pinch_action(Some(GestureEntryView::Threshold(ThresholdActionView::Fixed(a)))) == Some(a),
        pinch_action(Some(GestureEntryView::Threshold(ThresholdActionView::CenterNearest))) is None,
        pinch_action(Some(GestureEntryView::Continuous(c))) is None,
        pinch_action(None) is None,
{
}

/// An X11 window may be configured again after 16 milliseconds.
pub proof fn configures_are_sixteen_milliseconds_apart(last: u64, now: u64)
    ensures
        may_configure(None, now),
        may_configure(Some(last), now) <==> now >= last + 16,
{
}

/// What is known of a gesture is what it is: its kind, and for a swipe to be
/// counted the way so far and whether it has acted.
pub proof fn views_tell_the_kind<Z>(s: GestureState<Z>, u: SwipeUpdate)
    ensures
        s@ is SwipePan <==> s is SwipePan,
        s@ is SwipeMove <==> s is SwipeMove,
        s@ is SwipeResize <==> s is SwipeResize,
        s@ is SwipeThreshold <==> s is SwipeThreshold,
        s@ is PinchZoom <==> s is PinchZoom,
        s@ is PinchForward <==> s is PinchForward,
        s@ is PinchThreshold <==> s is PinchThreshold,
        s@ is HoldAction <==> s is HoldAction,
        u@ is Forward <==> u is Forward,
        u@ is Pan <==> u is Pan,
        u@ is Move <==> u is Move,
        u@ is Resize <==> u is Resize,
        u@ is Act <==> u is Act,
        u@ is Nothing <==> u is Nothing,
{
}

/// A gesture that waits is seen with what it will do, each way for itself.
pub proof fn waiting_gestures_are_seen_each_way<Z>(s: GestureState<Z>)
    ensures
        s matches GestureState::SwipeThreshold { up, down, left, right, directional, .. } ==> (
        s@ matches GestureStateView::SwipeThreshold {
            up: u,
            down: d,
            left: l,
            right: r,
            directional: a,
            ..
        } && u == seen(up) && d == seen(down) && l == seen(left) && r == seen(right) && a == seen(
            directional,
        )),
        s matches GestureState::PinchThreshold { action_in, action_out, fired_in, fired_out } ==> (
        s@ matches GestureStateView::PinchThreshold {
            action_in: i,
            action_out: o,
            fired_in: fi,
            fired_out: fo,
        } && i == seen(action_in) && o == seen(action_out) && fi == fired_in && fo == fired_out),
{
}

/// What a gesture will do is seen where there is something.
pub proof fn what_waits_is_seen(a: Option<ThresholdAction>)
    ensures
        a is None <==> seen(a) is None,
        a matches Some(t) ==> seen(a) == Some(t@),
{
}

} // verus!
