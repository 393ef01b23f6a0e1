//! Trackpad gestures: what a swipe, a pinch or a hold does from its beginning
//! to its end.
//!
//! A gesture is decided when it begins and stays what it is. Distances are in
//! units and scales in millionths. A zoom is only kept and handed back, so its
//! type is left open.

use crate::config::types::{
    Action, BindingContext, ContinuousAction, Direction, GestureConfigEntry, GestureTrigger,
    Modifiers, ThresholdAction,
};
use crate::config::Config;
use crate::geometry::{Point, ResizeEdge, Size};
use crate::grabs::{edges_from_position, keep_on_output, resized};
use crate::units::{pixels, COORD_LIMIT};
use vstd::prelude::*;

verus! {

use crate::config::types::{
    ActionView, GestureBinding, GestureEntryView, ThresholdActionView,
};
use crate::grabs::{grid_edge, on_output, stretched};
use crate::units::{from_pixels, in_range, magnitude};

/// How far a swipe goes before it fires, in units.
pub const SWIPE_THRESHOLD: i64 = 512_000;

/// A pinch below this scale fires inwards.
pub const PINCH_SCALE_LO: i64 = 800_000;

/// A pinch above this scale fires outwards.
pub const PINCH_SCALE_HI: i64 = 1_200_000;

/// Milliseconds between two sizes that are asked of an X11 window.
pub const X11_CONFIGURE_MS: u64 = 16;

/// The view of what may be there.
pub open spec fn seen<T: View>(v: Option<T>) -> Option<T::V> {
    match v {
        Some(t) => Some(t@),
        None => None,
    }
}

/// The gesture under way.
#[derive(Debug)]
pub enum GestureState<Z> {
    /// The viewport follows the fingers.
    SwipePan,
    /// A window follows the pointer.
    SwipeMove,
    /// A window is resized.
    SwipeResize {
        window: u64,
        edges: ResizeEdge,
        initial_location: Point,
        initial_size: Size,
        last_size: Size,
        /// How far the edges have come, in canvas units.
        cumulative: (i64, i64),
        /// When an X11 window was last asked for a size, in milliseconds.
        last_x11_configure: Option<u64>,
    },
    /// Fires once, in the direction in which the fingers have gone far enough.
    SwipeThreshold {
        cumulative: (i64, i64),
        fired: bool,
        up: Option<ThresholdAction>,
        down: Option<ThresholdAction>,
        left: Option<ThresholdAction>,
        right: Option<ThresholdAction>,
        /// For a direction that has no action of its own.
        directional: Option<ThresholdAction>,
    },
    /// The zoom follows the fingers.
    PinchZoom { initial_zoom: Z },
    /// The client gets the pinch.
    PinchForward,
    /// Fires once inwards and once outwards.
    PinchThreshold {
        fired_in: bool,
        fired_out: bool,
        action_in: Option<Action>,
        action_out: Option<Action>,
    },
    /// Acts when the fingers are lifted.
    HoldAction { action: Action },
}

/// The gesture under way, with texts as characters.
pub enum GestureStateView<Z> {
    SwipePan,
    SwipeMove,
    SwipeResize {
        window: u64,
        edges: ResizeEdge,
        initial_location: Point,
        initial_size: Size,
        last_size: Size,
        cumulative: (i64, i64),
        last_x11_configure: Option<u64>,
    },
    SwipeThreshold {
        cumulative: (i64, i64),
        fired: bool,
        up: Option<ThresholdActionView>,
        down: Option<ThresholdActionView>,
        left: Option<ThresholdActionView>,
        right: Option<ThresholdActionView>,
        directional: Option<ThresholdActionView>,
    },
    PinchZoom { initial_zoom: Z },
    PinchForward,
    PinchThreshold {
        fired_in: bool,
        fired_out: bool,
        action_in: Option<ActionView>,
        action_out: Option<ActionView>,
    },
    HoldAction { action: ActionView },
}

impl<Z> View for GestureState<Z> {
    type V = GestureStateView<Z>;

    open spec fn view(&self) -> GestureStateView<Z> {
        match *self {
            GestureState::SwipePan => GestureStateView::SwipePan,
            GestureState::SwipeMove => GestureStateView::SwipeMove,
            GestureState::SwipeResize {
                window,
                edges,
                initial_location,
                initial_size,
                last_size,
                cumulative,
                last_x11_configure,
            } => GestureStateView::SwipeResize {
                window,
                edges,
                initial_location,
                initial_size,
                last_size,
                cumulative,
                last_x11_configure,
            },
            GestureState::SwipeThreshold {
                cumulative,
                fired,
                up,
                down,
                left,
                right,
                directional,
            } => GestureStateView::SwipeThreshold {
                cumulative,
                fired,
                up: seen(up),
                down: seen(down),
                left: seen(left),
                right: seen(right),
                directional: seen(directional),
            },
            GestureState::PinchZoom { initial_zoom } => GestureStateView::PinchZoom { initial_zoom },
            GestureState::PinchForward => GestureStateView::PinchForward,
            GestureState::PinchThreshold { fired_in, fired_out, action_in, action_out } => {
                GestureStateView::PinchThreshold {
                    fired_in,
                    fired_out,
                    action_in: seen(action_in),
                    action_out: seen(action_out),
                }
            },
            GestureState::HoldAction { action } => GestureStateView::HoldAction { action: action@ },
        }
    }
}

/// Whether a distance is short of the swipe threshold.
pub open spec fn short_of_threshold(c: (i64, i64)) -> bool {
    c.0 * c.0 + c.1 * c.1 < SWIPE_THRESHOLD * SWIPE_THRESHOLD
}

impl<Z> GestureStateView<Z> {
    /// A swipe that has not fired is short of the threshold, and a resize
    /// stays on the canvas.
    pub open spec fn wf(self) -> bool {
        match self {
            GestureStateView::SwipeResize { cumulative, .. } => in_range(cumulative.0) && in_range(
                cumulative.1,
            ),
            GestureStateView::SwipeThreshold { cumulative, fired, .. } => !fired ==> (
            short_of_threshold(cumulative) && magnitude(cumulative.0 as int) <= SWIPE_THRESHOLD
                && magnitude(cumulative.1 as int) <= SWIPE_THRESHOLD),
            _ => true,
        }
    }
}

/// The gesture under way and the output that it belongs to.
#[derive(Debug)]
pub struct Gestures<Z> {
    pub state: Option<GestureState<Z>>,
    pub output: Option<u64>,
}

/// The gesture under way and its output, with texts as characters.
pub struct GesturesView<Z> {
    pub state: Option<GestureStateView<Z>>,
    pub output: Option<u64>,
}

impl<Z> View for Gestures<Z> {
    type V = GesturesView<Z>;

    open spec fn view(&self) -> GesturesView<Z> {
        GesturesView { state: seen(self.state), output: self.output }
    }
}

impl<Z> GesturesView<Z> {
    pub open spec fn wf(self) -> bool {
        self.state matches Some(s) ==> s.wf()
    }
}

/// The window under the pointer when a gesture begins.
#[derive(Clone, Copy, Debug, PartialEq, Eq, Structural)]
pub struct GestureWindow {
    pub id: u64,
    pub has_surface: bool,
    /// Whether its rule pins it.
    pub widget: bool,
    pub location: Point,
    pub size: Size,
}

/// What a gesture finds when it begins.
#[derive(Clone, Copy, Debug)]
pub struct GestureEnv {
    pub modifiers: Modifiers,
    pub context: BindingContext,
    /// The pointer on the canvas, in units.
    pub pos: (i64, i64),
    pub window: Option<GestureWindow>,
    pub active_output: Option<u64>,
}

impl GestureEnv {
    pub open spec fn wf(self) -> bool {
        in_range(self.pos.0) && in_range(self.pos.1)
    }
}

/// What a gesture is bound to where it begins.
pub open spec fn entry_for(config: Config, env: GestureEnv, trigger: GestureTrigger) -> Option<
    GestureEntryView,
> {
    seen(
        config.gestures.bound(
            (GestureBinding { modifiers: env.modifiers, trigger }),
            env.context,
        ),
    )
}

/// Whether a swipe leaves fullscreen before anything else.
pub fn swipe_leaves_fullscreen(fullscreen: bool, fingers: u32) -> (r: bool)
    ensures
        r == (fullscreen && fingers >= 3),
{
    fullscreen && fingers >= 3
}

/// What a pinch does to a window that fills the screen.
#[derive(Clone, Copy, Debug, PartialEq, Eq, Structural)]
pub enum FullscreenPinch {
    /// Nothing fills the screen.
    GoOn,
    /// Fullscreen is left first.
    Leave,
    /// The window gets the pinch.
    Forward,
}

/// Decides what a pinch does to a window that fills the screen.
pub fn fullscreen_pinch(fullscreen: bool, fingers: u32) -> (r: FullscreenPinch)
    ensures
        r == if !fullscreen {
            FullscreenPinch::GoOn
        } else if fingers >= 3 {
            FullscreenPinch::Leave
        } else {
            FullscreenPinch::Forward
        },
{
    if !fullscreen {
        FullscreenPinch::GoOn
    } else if fingers >= 3 {
        FullscreenPinch::Leave
    } else {
        FullscreenPinch::Forward
    }
}

/// What the compositor does when a swipe begins.
#[derive(Clone, Copy, Debug, PartialEq, Eq)]
pub enum SwipeStart {
    /// The client gets the swipe.
    Forward,
    /// Nothing to do yet.
    Follow,
    /// Raise and focus a window and drag it.
    Move(u64),
    /// Raise a window that cannot be focused.
    Raise(u64),
    /// Raise and focus a window and resize it, alone or with its cluster.
    Resize { window: u64, edges: ResizeEdge, cluster: bool },
    /// A window without a surface is left alone.
    Nothing,
}

/// What becomes of the beginning of a swipe.
#[derive(Clone, Copy, Debug, PartialEq, Eq)]
pub struct SwipeBegin {
    /// Whether the middle click that was held back goes to the client.
    pub flush_middle_click: bool,
    /// Whether the viewport stops where it is.
    pub cancel_animations: bool,
    pub start: SwipeStart,
}

/// A gesture that drags a window: the state after it, and what to do. Pinned
/// windows are not dragged, the viewport is.
pub open spec fn move_started<Z>(state: Option<GestureStateView<Z>>, w: GestureWindow) -> (
    Option<GestureStateView<Z>>,
    SwipeStart,
) {
    if w.widget {
        (Some(GestureStateView::SwipePan), SwipeStart::Follow)
    } else if !w.has_surface {
        (state, SwipeStart::Raise(w.id))
    } else {
        (Some(GestureStateView::SwipeMove), SwipeStart::Move(w.id))
    }
}

/// A gesture that resizes a window: the state after it, and what to do.
pub open spec fn resize_started<Z>(
    state: Option<GestureStateView<Z>>,
    w: GestureWindow,
    pos: (i64, i64),
    cluster: bool,
) -> (Option<GestureStateView<Z>>, SwipeStart) {
    if !w.has_surface {
        (state, SwipeStart::Nothing)
    } else {
        let edges = grid_edge(pos, w.location, w.size);
        (
            Some(
                GestureStateView::SwipeResize {
                    window: w.id,
                    edges,
                    initial_location: w.location,
                    initial_size: w.size,
                    last_size: w.size,
                    cumulative: (0, 0),
                    last_x11_configure: None,
                },
            ),
            SwipeStart::Resize { window: w.id, edges, cluster },
        )
    }
}

/// What a continuous action does to the window under the pointer, if it does
/// anything to it.
pub open spec fn window_gesture<Z>(
    state: Option<GestureStateView<Z>>,
    action: ContinuousAction,
    env: GestureEnv,
) -> Option<(Option<GestureStateView<Z>>, SwipeStart)> {
    match (action, env.window) {
        (ContinuousAction::MoveWindow, Some(w)) => Some(move_started(state, w)),
        (ContinuousAction::ResizeWindow, Some(w)) if !w.widget => Some(
            resize_started(state, w, env.pos, false),
        ),
        (ContinuousAction::ResizeWindowSnapped, Some(w)) if !w.widget => Some(
            resize_started(state, w, env.pos, true),
        ),
        _ => None,
    }
}

/// The action of one direction of a swipe.
pub open spec fn direction_action(entry: Option<GestureEntryView>) -> Option<ThresholdActionView> {
    match entry {
        Some(GestureEntryView::Threshold(t)) => Some(t),
        _ => None,
    }
}

/// A swipe that fires once, with the actions of its directions.
pub open spec fn threshold_swipe<Z>(
    config: Config,
    env: GestureEnv,
    fingers: u32,
    directional: Option<ThresholdActionView>,
) -> GestureStateView<Z> {
    GestureStateView::SwipeThreshold {
        cumulative: (0, 0),
        fired: false,
        up: direction_action(entry_for(config, env, GestureTrigger::SwipeUp { fingers })),
        down: direction_action(entry_for(config, env, GestureTrigger::SwipeDown { fingers })),
        left: direction_action(entry_for(config, env, GestureTrigger::SwipeLeft { fingers })),
        right: direction_action(entry_for(config, env, GestureTrigger::SwipeRight { fingers })),
        directional,
    }
}

/// Whether any direction of a swipe is bound.
pub open spec fn directions_bound(config: Config, env: GestureEnv, fingers: u32) -> bool {
    ||| entry_for(config, env, GestureTrigger::SwipeUp { fingers }) is Some
    ||| entry_for(config, env, GestureTrigger::SwipeDown { fingers }) is Some
    ||| entry_for(config, env, GestureTrigger::SwipeLeft { fingers }) is Some
    ||| entry_for(config, env, GestureTrigger::SwipeRight { fingers }) is Some
}

/// What a swipe without a tap before it begins: the state after it, what to
/// do, and whether the compositor takes it.
pub open spec fn plain_swipe<Z>(
    state: Option<GestureStateView<Z>>,
    config: Config,
    env: GestureEnv,
    fingers: u32,
) -> (Option<GestureStateView<Z>>, SwipeStart, bool) {
    match entry_for(config, env, GestureTrigger::Swipe { fingers }) {
        Some(GestureEntryView::Continuous(action)) => match window_gesture(state, action, env) {
            Some((after, start)) => (after, start, true),
            None => (Some(GestureStateView::SwipePan), SwipeStart::Follow, true),
        },
        Some(GestureEntryView::Threshold(t)) => (
            Some(threshold_swipe(config, env, fingers, Some(t))),
            SwipeStart::Follow,
            true,
        ),
        None => if directions_bound(config, env, fingers) {
            (Some(threshold_swipe(config, env, fingers, None)), SwipeStart::Follow, true)
        } else {
            (state, SwipeStart::Forward, false)
        },
    }
}

/// What the beginning of a swipe comes to. With a middle click held back, the
/// swipe may be the second half of a double tap that drags a window.
pub open spec fn swipe_begun<Z>(
    gestures: GesturesView<Z>,
    config: Config,
    env: GestureEnv,
    fingers: u32,
    pending_click: bool,
) -> (GesturesView<Z>, SwipeBegin) {
    let tapped = if pending_click {
        entry_for(config, env, GestureTrigger::DoubletapSwipe { fingers })
    } else {
        None
    };
    let dragged = match tapped {
        Some(GestureEntryView::Continuous(action)) => window_gesture(gestures.state, action, env),
        _ => None,
    };
    match dragged {
        Some((state, start)) => (
            GesturesView { state, output: env.active_output },
            SwipeBegin { flush_middle_click: false, cancel_animations: true, start },
        ),
        None => {
            let (state, start, taken) = plain_swipe(gestures.state, config, env, fingers);
            (
                GesturesView {
                    state,
                    output: if tapped is Some || taken {
                        env.active_output
                    } else {
                        gestures.output
                    },
                },
                SwipeBegin {
                    flush_middle_click: pending_click,
                    cancel_animations: tapped is Some || taken,
                    start,
                },
            )
        },
    }
}

fn entry<'a>(config: &'a Config, env: &GestureEnv, trigger: GestureTrigger) -> (r: Option<
    &'a GestureConfigEntry,
>)
    ensures
        match r {
            Some(e) => entry_for(*config, *env, trigger) == Some(e@),
            None => entry_for(*config, *env, trigger) is None,
        },
{
    config.gesture_lookup(&env.modifiers, &trigger, env.context)
}

fn own_action(config: &Config, env: &GestureEnv, trigger: GestureTrigger) -> (r: Option<ThresholdAction>)
    ensures
        seen(r) == direction_action(entry_for(*config, *env, trigger)),
{
    match entry(config, env, trigger) {
        Some(GestureConfigEntry::Threshold(t)) => Some(t.duplicate()),
        _ => None,
    }
}

/// A swipe that fires once, with the actions of its directions.
pub fn build_swipe_threshold<Z>(
    config: &Config,
    env: &GestureEnv,
    fingers: u32,
    directional: Option<ThresholdAction>,
) -> (r: GestureState<Z>)
    ensures
        r@ == threshold_swipe::<Z>(*config, *env, fingers, seen(directional)),
        r@.wf(),
{
    proof {
        assert(0int * 0int + 0int * 0int < SWIPE_THRESHOLD * SWIPE_THRESHOLD) by (nonlinear_arith)
            requires
                SWIPE_THRESHOLD == 512_000,
        ;
    }
    GestureState::SwipeThreshold {
        cumulative: (0, 0),
        fired: false,
        up: own_action(config, env, GestureTrigger::SwipeUp { fingers }),
        down: own_action(config, env, GestureTrigger::SwipeDown { fingers }),
        left: own_action(config, env, GestureTrigger::SwipeLeft { fingers }),
        right: own_action(config, env, GestureTrigger::SwipeRight { fingers }),
        directional,
    }
}

/// Whether any direction of a swipe is bound.
pub fn has_swipe_direction_bindings(config: &Config, env: &GestureEnv, fingers: u32) -> (r: bool)
    ensures
        r == directions_bound(*config, *env, fingers),
{
    entry(config, env, GestureTrigger::SwipeUp { fingers }).is_some() || entry(
        config,
        env,
        GestureTrigger::SwipeDown { fingers },
    ).is_some() || entry(config, env, GestureTrigger::SwipeLeft { fingers }).is_some() || entry(
        config,
        env,
        GestureTrigger::SwipeRight { fingers },
    ).is_some()
}

impl<Z> Gestures<Z> {
    /// No gesture is under way.
    pub fn new() -> (r: Gestures<Z>)
        ensures
            r@ == (GesturesView::<Z> { state: None, output: None }),
            r@.wf(),
    {
        Gestures { state: None, output: None }
    }

    fn start_gesture_move(&mut self, w: GestureWindow) -> (r: SwipeStart)
        requires
            old(self)@.wf(),
        ensures
            (final(self)@.state, r) == move_started(old(self)@.state, w),
            final(self).output == old(self).output,
            final(self)@.wf(),
    {
        if w.widget {
            self.state = Some(GestureState::SwipePan);
            return SwipeStart::Follow;
        }
        if !w.has_surface {
            return SwipeStart::Raise(w.id);
        }
        self.state = Some(GestureState::SwipeMove);
        SwipeStart::Move(w.id)
    }

    fn start_gesture_resize(&mut self, w: GestureWindow, pos: (i64, i64), cluster: bool) -> (r:
        SwipeStart)
        requires
            old(self)@.wf(),
            in_range(pos.0),
            in_range(pos.1),
        ensures
            (final(self)@.state, r) == resize_started(old(self)@.state, w, pos, cluster),
            final(self).output == old(self).output,
            final(self)@.wf(),
    {
        if !w.has_surface {
            return SwipeStart::Nothing;
        }
        let edges = edges_from_position(pos, w.location, w.size);
        self.state =
        Some(
            GestureState::SwipeResize {
                window: w.id,
                edges,
                initial_location: w.location,
                initial_size: w.size,
                last_size: w.size,
                cumulative: (0, 0),
                last_x11_configure: None,
            },
        );
        SwipeStart::Resize { window: w.id, edges, cluster }
    }

    fn start_on_window(&mut self, action: ContinuousAction, env: &GestureEnv) -> (r: Option<SwipeStart>)
        requires
            old(self)@.wf(),
            env.wf(),
        ensures
            match r {
                Some(start) => window_gesture(old(self)@.state, action, *env) == Some(
                    (final(self)@.state, start),
                ),
                None => window_gesture(old(self)@.state, action, *env) is None && final(self)@ == old(
                    self,
                )@,
            },
            final(self).output == old(self).output,
            final(self)@.wf(),
    {
        match (action, env.window) {
            (ContinuousAction::MoveWindow, Some(w)) => Some(self.start_gesture_move(w)),
            (ContinuousAction::ResizeWindow, Some(w)) => if !w.widget {
                Some(self.start_gesture_resize(w, env.pos, false))
            } else {
                None
            },
            (ContinuousAction::ResizeWindowSnapped, Some(w)) => if !w.widget {
                Some(self.start_gesture_resize(w, env.pos, true))
            } else {
                None
            },
            _ => None,
        }
    }

    /// Begins a swipe. `pending_click` says whether a middle click is held
    /// back.
    pub fn swipe_begin(&mut self, config: &Config, env: &GestureEnv, fingers: u32, pending_click: bool) -> (r:
        SwipeBegin)
        requires
            old(self)@.wf(),
            env.wf(),
        ensures
            (final(self)@, r) == swipe_begun(old(self)@, *config, *env, fingers, pending_click),
            final(self)@.wf(),
    {
        let mut tapped = false;
        if pending_click {
            if let Some(e) = entry(config, env, GestureTrigger::DoubletapSwipe { fingers }) {
                tapped = true;
                self.output = env.active_output;
                if let GestureConfigEntry::Continuous(action) = e {
                    if let Some(start) = self.start_on_window(*action, env) {
                        return SwipeBegin {
                            flush_middle_click: false,
                            cancel_animations: true,
                            start,
                        };
                    }
                }
            }
        }
        let flush_middle_click = pending_click;
        match entry(config, env, GestureTrigger::Swipe { fingers }) {
            Some(GestureConfigEntry::Continuous(action)) => {
                self.output = env.active_output;
                let start = match self.start_on_window(*action, env) {
                    Some(start) => start,
                    None => {
                        self.state = Some(GestureState::SwipePan);
                        SwipeStart::Follow
                    },
                };
                SwipeBegin { flush_middle_click, cancel_animations: true, start }
            },
            Some(GestureConfigEntry::Threshold(t)) => {
                self.output = env.active_output;
                self.state =
                Some(build_swipe_threshold(config, env, fingers, Some(t.duplicate())));
                SwipeBegin { flush_middle_click, cancel_animations: true, start: SwipeStart::Follow }
            },
            None => {
                if has_swipe_direction_bindings(config, env, fingers) {
                    self.output = env.active_output;
                    self.state = Some(build_swipe_threshold(config, env, fingers, None));
                    SwipeBegin {
                        flush_middle_click,
                        cancel_animations: true,
                        start: SwipeStart::Follow,
                    }
                } else {
                    SwipeBegin {
                        flush_middle_click,
                        cancel_animations: tapped,
                        start: SwipeStart::Forward,
                    }
                }
            },
        }
    }
}

/// The direction of the eight that a distance points to. One that is more than
/// 0.4142 as long one way as the other is diagonal.
pub open spec fn pointed(v: (i64, i64)) -> Direction {
    let ax = magnitude(v.0 as int);
    let ay = magnitude(v.1 as int);
    let minor = if ax < ay {
        ax
    } else {
        ay
    };
    let major = if ax < ay {
        ay
    } else {
        ax
    };
    if major > 0 && 10_000 * minor > 4_142 * major {
        match (v.0 > 0, v.1 > 0) {
            (true, true) => Direction::DownRight,
            (true, false) => Direction::UpRight,
            (false, true) => Direction::DownLeft,
            (false, false) => Direction::UpLeft,
        }
    } else if ax > ay {
        if v.0 > 0 {
            Direction::Right
        } else {
            Direction::Left
        }
    } else if v.1 > 0 {
        Direction::Down
    } else {
        Direction::Up
    }
}

/// The direction of the eight that a distance points to.
pub fn direction_from_vector(v: (i64, i64)) -> (r: Direction)
    ensures
        r == pointed(v),
{
    let ax: i128 = if v.0 < 0 {
        -(v.0 as i128)
    } else {
        v.0 as i128
    };
    let ay: i128 = if v.1 < 0 {
        -(v.1 as i128)
    } else {
        v.1 as i128
    };
    let (minor, major): (i128, i128) = if ax < ay {
        (ax, ay)
    } else {
        (ay, ax)
    };
    if major > 0 && 10_000 * minor > 4_142 * major {
        match (v.0 > 0, v.1 > 0) {
            (true, true) => Direction::DownRight,
            (true, false) => Direction::UpRight,
            (false, true) => Direction::DownLeft,
            (false, false) => Direction::UpLeft,
        }
    } else if ax > ay {
        if v.0 > 0 {
            Direction::Right
        } else {
            Direction::Left
        }
    } else if v.1 > 0 {
        Direction::Down
    } else {
        Direction::Up
    }
}

/// The opposite distance points the opposite way.
pub proof fn opposite_points_back(v: (i64, i64), w: (i64, i64))
    requires
        w.0 == -v.0,
        w.1 == -v.1,
        v.0 != 0 || v.1 != 0,
    ensures
        pointed(w).heading().0 == -pointed(v).heading().0,
        pointed(w).heading().1 == -pointed(v).heading().1,
{
}

/// A canvas coordinate that stays on the canvas.
pub open spec fn on_the_canvas(v: int) -> int {
    if v > COORD_LIMIT {
        COORD_LIMIT as int
    } else if v < -COORD_LIMIT {
        -COORD_LIMIT
    } else {
        v
    }
}

fn add_on_canvas(a: i64, b: i64) -> (r: i64)
    requires
        in_range(a),
        in_range(b),
    ensures
        r == on_the_canvas(a + b),
        in_range(r),
{
    let v: i64 = a + b;
    if v > COORD_LIMIT {
        COORD_LIMIT
    } else if v < -COORD_LIMIT {
        -COORD_LIMIT
    } else {
        v
    }
}

/// What a swipe that has gone far enough does: the action of the direction in
/// which it went most, or the one for all directions.
pub open spec fn swipe_action<Z>(state: GestureStateView<Z>, went: (i64, i64)) -> Option<ActionView> {
    match state {
        GestureStateView::SwipeThreshold { up, down, left, right, directional, .. } => {
            let own = if magnitude(went.1 as int) > magnitude(went.0 as int) {
                if went.1 < 0 {
                    up
                } else {
                    down
                }
            } else if went.0 < 0 {
                left
            } else {
                right
            };
            let chosen = if own is Some {
                own
            } else {
                directional
            };
            match chosen {
                Some(ThresholdActionView::CenterNearest) => Some(
                    ActionView::CenterNearest(pointed(went)),
                ),
                Some(ThresholdActionView::Fixed(a)) => Some(a),
                None => None,
            }
        },
        _ => None,
    }
}

/// What the compositor does with a motion of a swipe.
#[derive(Debug)]
pub enum SwipeUpdate {
    /// The client gets it.
    Forward,
    /// The viewport follows.
    Pan,
    /// The pointer takes its window along.
    Move,
    /// The pointer follows, and the window is asked for a size.
    Resize(Option<Size>),
    /// An action is carried out.
    Act(Action),
    Nothing,
}

/// What the compositor does with a motion of a swipe, with texts as
/// characters.
pub enum SwipeUpdateView {
    Forward,
    Pan,
    Move,
    Resize(Option<Size>),
    Act(ActionView),
    Nothing,
}

impl View for SwipeUpdate {
    type V = SwipeUpdateView;

    open spec fn view(&self) -> SwipeUpdateView {
        match self {
            SwipeUpdate::Forward => SwipeUpdateView::Forward,
            SwipeUpdate::Pan => SwipeUpdateView::Pan,
            SwipeUpdate::Move => SwipeUpdateView::Move,
            SwipeUpdate::Resize(s) => SwipeUpdateView::Resize(*s),
            SwipeUpdate::Act(a) => SwipeUpdateView::Act(a@),
            SwipeUpdate::Nothing => SwipeUpdateView::Nothing,
        }
    }
}

/// The motion of a swipe: how far the fingers went on the screen, and how far
/// the pointer may go on the canvas.
#[derive(Clone, Copy, Debug)]
pub struct SwipeMotion {
    pub delta: (i64, i64),
    pub canvas_delta: (i64, i64),
    /// Whether the window is an X11 window.
    pub x11: bool,
    /// Milliseconds.
    pub now: u64,
}

impl SwipeMotion {
    pub open spec fn wf(self) -> bool {
        &&& in_range(self.delta.0) && in_range(self.delta.1)
        &&& in_range(self.canvas_delta.0) && in_range(self.canvas_delta.1)
    }
}

/// Whether an X11 window may be asked for another size.
pub open spec fn may_configure(last: Option<u64>, now: u64) -> bool {
    last matches Some(t) ==> now - t >= X11_CONFIGURE_MS
}

/// The size of a window whose edges have come this far.
pub open spec fn swiped_size(edges: ResizeEdge, initial: Size, cumulative: (i64, i64)) -> Size {
    Size {
        w: stretched(
            initial.w as int,
            edges.is_left(),
            edges.is_right(),
            cumulative.0 as int,
        ) as i32,
        h: stretched(
            initial.h as int,
            edges.is_top(),
            edges.is_bottom(),
            cumulative.1 as int,
        ) as i32,
    }
}

/// The state after a motion of a swipe, and what to do. An X11 window is asked
/// for a new size only so often.
pub open spec fn swiped<Z>(state: Option<GestureStateView<Z>>, motion: SwipeMotion) -> (
    Option<GestureStateView<Z>>,
    SwipeUpdateView,
) {
    match state {
        Some(GestureStateView::SwipePan) => (state, SwipeUpdateView::Pan),
        Some(GestureStateView::SwipeMove) => (state, SwipeUpdateView::Move),
        Some(
            GestureStateView::SwipeResize {
                window,
                edges,
                initial_location,
                initial_size,
                last_size,
                cumulative,
                last_x11_configure,
            },
        ) => {
            let total = (
                on_the_canvas(cumulative.0 + motion.canvas_delta.0) as i64,
                on_the_canvas(cumulative.1 + motion.canvas_delta.1) as i64,
            );
            let size = swiped_size(edges, initial_size, total);
            let asks = size != last_size && (!motion.x11 || may_configure(
                last_x11_configure,
                motion.now,
            ));
            (
                Some(
                    GestureStateView::SwipeResize {
                        window,
                        edges,
                        initial_location,
                        initial_size,
                        last_size: size,
                        cumulative: total,
                        last_x11_configure: if asks && motion.x11 {
                            Some(motion.now)
                        } else {
                            last_x11_configure
                        },
                    },
                ),
                SwipeUpdateView::Resize(
                    if asks {
                        Some(size)
                    } else {
                        None
                    },
                ),
            )
        },
        Some(
            GestureStateView::SwipeThreshold { cumulative, fired, up, down, left, right, directional },
        ) => if fired {
            (state, SwipeUpdateView::Nothing)
        } else {
            let total = (
                (cumulative.0 + motion.delta.0) as i64,
                (cumulative.1 + motion.delta.1) as i64,
            );
            let fires = !short_of_threshold(total);
            let after = GestureStateView::SwipeThreshold {
                cumulative: total,
                fired: fires,
                up,
                down,
                left,
                right,
                directional,
            };
            (
                Some(after),
                match swipe_action(after, total) {
                    Some(a) if fires => SwipeUpdateView::Act(a),
                    _ => SwipeUpdateView::Nothing,
                },
            )
        },
        _ => (state, SwipeUpdateView::Forward),
    }
}

/// A swipe that looks for the nearest window looks where the fingers went.
pub proof fn swipes_lead_where_they_go<Z>(
    cumulative: (i64, i64),
    motion: SwipeMotion,
    went: (i64, i64),
)
    requires
        went.0 == cumulative.0 + motion.delta.0,
        went.1 == cumulative.1 + motion.delta.1,
        !short_of_threshold(went),
    ensures
        ({
            let before = GestureStateView::<Z>::SwipeThreshold {
                cumulative,
                fired: false,
                up: None,
                down: None,
                left: None,
                right: None,
                directional: Some(ThresholdActionView::CenterNearest),
            };
            let (after, update) = swiped(Some(before), motion);
            &&& update == SwipeUpdateView::Act(ActionView::CenterNearest(pointed(went)))
            &&& after matches Some(GestureStateView::SwipeThreshold { fired, .. }) && fired
        }),
{
}

/// A swipe fires at most once.
pub proof fn swipe_fires_once<Z>(state: GestureStateView<Z>, first: SwipeMotion, second: SwipeMotion)
    requires
        state is SwipeThreshold,
        swiped(Some(state), first).1 is Act,
    ensures
        swiped(swiped(Some(state), first).0, second) == (
            swiped(Some(state), first).0,
            SwipeUpdateView::Nothing,
        ),
{
}

fn is_short_of_threshold(c: (i64, i64)) -> (r: bool)
    requires
        -0x2000_0000_0000_0000 <= c.0 <= 0x2000_0000_0000_0000,
        -0x2000_0000_0000_0000 <= c.1 <= 0x2000_0000_0000_0000,
    ensures
        r == short_of_threshold(c),
        r ==> magnitude(c.0 as int) <= SWIPE_THRESHOLD && magnitude(c.1 as int) <= SWIPE_THRESHOLD,
{
    let x: i128 = c.0 as i128;
    let y: i128 = c.1 as i128;
    proof {
        let lim = 0x2000_0000_0000_0000int;
        assert(0 <= x * x <= lim * lim) by (nonlinear_arith)
            requires
                -lim <= x <= lim,
        ;
        assert(0 <= y * y <= lim * lim) by (nonlinear_arith)
            requires
                -lim <= y <= lim,
        ;
        assert(lim * lim == 0x0400_0000_0000_0000_0000_0000_0000_0000) by (nonlinear_arith)
            requires
                lim == 0x2000_0000_0000_0000,
        ;
        assert(SWIPE_THRESHOLD * SWIPE_THRESHOLD == 262_144_000_000) by (nonlinear_arith)
            requires
                SWIPE_THRESHOLD == 512_000,
        ;
        assert(x * x < 262_144_000_000 ==> -512_000 <= x <= 512_000) by (nonlinear_arith);
        assert(y * y < 262_144_000_000 ==> -512_000 <= y <= 512_000) by (nonlinear_arith);
    }
    x * x + y * y < 262_144_000_000
}

fn chosen_action(own: &Option<ThresholdAction>, directional: &Option<ThresholdAction>, went: (i64, i64)) -> (r:
    Option<Action>)
    ensures
        seen(r) == match if seen(*own) is Some {
            seen(*own)
        } else {
            seen(*directional)
        } {
            Some(ThresholdActionView::CenterNearest) => Some(
                ActionView::CenterNearest(pointed(went)),
            ),
            Some(ThresholdActionView::Fixed(a)) => Some(a),
            None => None,
        },
{
    let chosen = match own {
        Some(t) => Some(t),
        None => match directional {
            Some(t) => Some(t),
            None => None,
        },
    };
    match chosen {
        Some(ThresholdAction::CenterNearest) => Some(
            Action::CenterNearest(direction_from_vector(went)),
        ),
        Some(ThresholdAction::Fixed(a)) => Some(a.duplicate()),
        None => None,
    }
}

impl<Z> Gestures<Z> {
    /// Takes a motion of a swipe.
    pub fn swipe_update(&mut self, motion: &SwipeMotion) -> (r: SwipeUpdate)
        requires
            old(self)@.wf(),
            motion.wf(),
        ensures
            (final(self)@.state, r@) == swiped(old(self)@.state, *motion),
            final(self).output == old(self).output,
            final(self)@.wf(),
    {
        match self.state.take() {
            Some(GestureState::SwipePan) => {
                self.state = Some(GestureState::SwipePan);
                SwipeUpdate::Pan
            },
            Some(GestureState::SwipeMove) => {
                self.state = Some(GestureState::SwipeMove);
                SwipeUpdate::Move
            },
            Some(
                GestureState::SwipeResize {
                    window,
                    edges,
                    initial_location,
                    initial_size,
                    last_size,
                    cumulative,
                    last_x11_configure,
                },
            ) => {
                let total: (i64, i64) = (
                    add_on_canvas(cumulative.0, motion.canvas_delta.0),
                    add_on_canvas(cumulative.1, motion.canvas_delta.1),
                );
                let size = resized(edges, initial_size, total);
                let mut asks = size.w != last_size.w || size.h != last_size.h;
                let mut stamp = last_x11_configure;
                if asks && motion.x11 {
                    asks =
                    match last_x11_configure {
                        Some(t) => motion.now >= t && motion.now - t >= X11_CONFIGURE_MS,
                        None => true,
                    };
                    if asks {
                        stamp = Some(motion.now);
                    }
                }
                self.state =
                Some(
                    GestureState::SwipeResize {
                        window,
                        edges,
                        initial_location,
                        initial_size,
                        last_size: size,
                        cumulative: total,
                        last_x11_configure: stamp,
                    },
                );
                SwipeUpdate::Resize(
                    if asks {
                        Some(size)
                    } else {
                        None
                    },
                )
            },
            Some(
                GestureState::SwipeThreshold {
                    cumulative,
                    fired,
                    up,
                    down,
                    left,
                    right,
                    directional,
                },
            ) => {
                if fired {
                    self.state =
                    Some(
                        GestureState::SwipeThreshold {
                            cumulative,
                            fired,
                            up,
                            down,
                            left,
                            right,
                            directional,
                        },
                    );
                    return SwipeUpdate::Nothing;
                }
                let total: (i64, i64) = (
                    cumulative.0 + motion.delta.0,
                    cumulative.1 + motion.delta.1,
                );
                let fires = !is_short_of_threshold(total);
                let mut update = SwipeUpdate::Nothing;
                if fires {
                    let ax: i64 = if total.0 < 0 {
                        -total.0
                    } else {
                        total.0
                    };
                    let ay: i64 = if total.1 < 0 {
                        -total.1
                    } else {
                        total.1
                    };
                    let own = if ay > ax {
                        if total.1 < 0 {
                            &up
                        } else {
                            &down
                        }
                    } else if total.0 < 0 {
                        &left
                    } else {
                        &right
                    };
                    if let Some(action) = chosen_action(own, &directional, total) {
                        update = SwipeUpdate::Act(action);
                    }
                }
                self.state =
                Some(
                    GestureState::SwipeThreshold {
                        cumulative: total,
                        fired: fires,
                        up,
                        down,
                        left,
                        right,
                        directional,
                    },
                );
                update
            },
            other => {
                self.state = other;
                SwipeUpdate::Forward
            },
        }
    }
}

/// How far the pointer may follow a swipe without leaving the output.
pub fn clamped_delta(screen: (i64, i64), delta: (i64, i64), output_size: Size) -> (r: (i64, i64))
    requires
        in_range(screen.0),
        in_range(screen.1),
        in_range(delta.0),
        in_range(delta.1),
        output_size.w >= 1,
        output_size.h >= 1,
    ensures
        r.0 == on_output(screen.0 + delta.0, output_size.w as int) - screen.0,
        r.1 == on_output(screen.1 + delta.1, output_size.h as int) - screen.1,
{
    (
        keep_on_output(screen.0 + delta.0, output_size.w) - screen.0,
        keep_on_output(screen.1 + delta.1, output_size.h) - screen.1,
    )
}

/// A pointer on the output does not leave it.
pub proof fn pointer_stays_on_output(screen: int, delta: int, length: int)
    requires
        length >= 1,
    ensures
        0 <= screen + (on_output(screen + delta, length) - screen) <= from_pixels(length - 1),
{
}

/// A dragged pointer in the layout of all outputs.
pub fn dragged_in_layout(screen: (i64, i64), delta: (i64, i64), layout_position: Point) -> (r: (
    i64,
    i64,
))
    requires
        in_range(screen.0),
        in_range(screen.1),
        in_range(delta.0),
        in_range(delta.1),
    ensures
        r.0 == screen.0 + delta.0 + from_pixels(layout_position.x as int),
        r.1 == screen.1 + delta.1 + from_pixels(layout_position.y as int),
{
    (
        screen.0 + delta.0 + pixels(layout_position.x),
        screen.1 + delta.1 + pixels(layout_position.y),
    )
}

/// Where a dragged pointer goes: onto the output that was found in the layout,
/// or, where there is none, to the border of the one that it is on.
pub open spec fn drag_target(
    output: u64,
    screen: (i64, i64),
    delta: (i64, i64),
    layout_position: Point,
    output_size: Size,
    found: Option<(u64, Point)>,
) -> (u64, (int, int)) {
    match found {
        Some((target, at)) => if target != output {
            (
                target,
                (
                    screen.0 + delta.0 + from_pixels(layout_position.x as int) - from_pixels(
                        at.x as int,
                    ),
                    screen.1 + delta.1 + from_pixels(layout_position.y as int) - from_pixels(
                        at.y as int,
                    ),
                ),
            )
        } else {
            (output, (screen.0 + delta.0, screen.1 + delta.1))
        },
        None => (
            output,
            (
                on_output(screen.0 + delta.0, output_size.w as int),
                on_output(screen.1 + delta.1, output_size.h as int),
            ),
        ),
    }
}

impl<Z> Gestures<Z> {
    /// Drags the pointer of a swipe that moves a window. `found` is the output
    /// at the place where [`dragged_in_layout`] puts it, with its layout
    /// position. Returns the output and the screen position there; the gesture
    /// belongs to that output from then on.
    pub fn drag_pointer(
        &mut self,
        output: u64,
        screen: (i64, i64),
        delta: (i64, i64),
        layout_position: Point,
        output_size: Size,
        found: Option<(u64, Point)>,
    ) -> (r: (u64, (i64, i64)))
        requires
            in_range(screen.0),
            in_range(screen.1),
            in_range(delta.0),
            in_range(delta.1),
            output_size.w >= 1,
            output_size.h >= 1,
        ensures
            (r.0, (r.1.0 as int, r.1.1 as int)) == drag_target(
                output,
                screen,
                delta,
                layout_position,
                output_size,
                found,
            ),
            final(self).output == if r.0 != output {
                Some(r.0)
            } else {
                old(self).output
            },
            final(self).state == old(self).state,
    {
        let to: (i64, i64) = (screen.0 + delta.0, screen.1 + delta.1);
        match found {
            Some((target, at)) => {
                if target != output {
                    self.output = Some(target);
                    let layout: (i64, i64) = dragged_in_layout(screen, delta, layout_position);
                    (target, (layout.0 - pixels(at.x), layout.1 - pixels(at.y)))
                } else {
                    (output, to)
                }
            },
            None => (
                output,
                (keep_on_output(to.0, output_size.w), keep_on_output(to.1, output_size.h)),
            ),
        }
    }
}

/// What the compositor does when a swipe ends.
#[derive(Clone, Copy, Debug)]
pub enum SwipeEnd {
    /// The client gets it.
    Forward,
    /// The viewport of an output drifts on.
    Drift(Option<u64>),
    /// The pointer lets go of its window.
    Release,
    /// The window waits for its last size.
    FinishResize {
        window: u64,
        edges: ResizeEdge,
        initial_location: Point,
        initial_size: Size,
    },
    Nothing,
}

/// What the compositor does when a swipe ends.
pub open spec fn swipe_ended<Z>(gestures: GesturesView<Z>) -> SwipeEnd {
    match gestures.state {
        None => SwipeEnd::Forward,
        Some(GestureStateView::SwipePan) => SwipeEnd::Drift(gestures.output),
        Some(GestureStateView::SwipeMove) => SwipeEnd::Release,
        Some(
            GestureStateView::SwipeResize { window, edges, initial_location, initial_size, .. },
        ) => SwipeEnd::FinishResize { window, edges, initial_location, initial_size },
        _ => SwipeEnd::Nothing,
    }
}

/// What a pinch does when it begins.
#[derive(Clone, Copy, Debug, PartialEq, Eq, Structural)]
pub enum PinchBegin {
    /// The client gets it.
    Forward,
    /// The viewport stops, and the zoom follows the fingers.
    Zoom,
    /// The viewport stops, and the pinch fires when it has gone far enough.
    Threshold,
}

/// The action of one way of a pinch.
pub open spec fn pinch_action(entry: Option<GestureEntryView>) -> Option<ActionView> {
    match entry {
        Some(GestureEntryView::Threshold(ThresholdActionView::Fixed(a))) => Some(a),
        _ => None,
    }
}

/// What the beginning of a pinch comes to.
pub open spec fn pinch_begun<Z>(
    gestures: GesturesView<Z>,
    config: Config,
    env: GestureEnv,
    fingers: u32,
    zoom: Z,
) -> (GesturesView<Z>, PinchBegin) {
    let action_in = pinch_action(entry_for(config, env, GestureTrigger::PinchIn { fingers }));
    let action_out = pinch_action(entry_for(config, env, GestureTrigger::PinchOut { fingers }));
    if entry_for(config, env, GestureTrigger::Pinch { fingers }) == Some(
        GestureEntryView::Continuous(ContinuousAction::Zoom),
    ) {
        (
            GesturesView {
                state: Some(GestureStateView::PinchZoom { initial_zoom: zoom }),
                output: env.active_output,
            },
            PinchBegin::Zoom,
        )
    } else if action_in is Some || action_out is Some {
        (
            GesturesView {
                state: Some(
                    GestureStateView::PinchThreshold {
                        fired_in: false,
                        fired_out: false,
                        action_in,
                        action_out,
                    },
                ),
                output: gestures.output,
            },
            PinchBegin::Threshold,
        )
    } else {
        (
            GesturesView {
                state: Some(GestureStateView::PinchForward),
                output: gestures.output,
            },
            PinchBegin::Forward,
        )
    }
}

/// What the compositor does with a motion of a pinch.
#[derive(Debug)]
pub enum PinchUpdate<Z> {
    /// The client gets it.
    Forward,
    /// The zoom is the scale times this one.
    Zoom(Z),
    /// An action is carried out.
    Act(Action),
    Nothing,
}

/// What the compositor does with a motion of a pinch, with texts as
/// characters.
pub enum PinchUpdateView<Z> {
    Forward,
    Zoom(Z),
    Act(ActionView),
    Nothing,
}

impl<Z> View for PinchUpdate<Z> {
    type V = PinchUpdateView<Z>;

    open spec fn view(&self) -> PinchUpdateView<Z> {
        match *self {
            PinchUpdate::Forward => PinchUpdateView::Forward,
            PinchUpdate::Zoom(z) => PinchUpdateView::Zoom(z),
            PinchUpdate::Act(a) => PinchUpdateView::Act(a@),
            PinchUpdate::Nothing => PinchUpdateView::Nothing,
        }
    }
}

/// What firing with an action that may be missing comes to.
pub open spec fn fired_action<Z>(action: Option<ActionView>) -> PinchUpdateView<Z> {
    match action {
        Some(a) => PinchUpdateView::Act(a),
        None => PinchUpdateView::Nothing,
    }
}

/// The state after a motion of a pinch, and what to do.
pub open spec fn pinched<Z>(state: Option<GestureStateView<Z>>, scale: i64) -> (
    Option<GestureStateView<Z>>,
    PinchUpdateView<Z>,
) {
    match state {
        Some(GestureStateView::PinchZoom { initial_zoom }) => (
            state,
            PinchUpdateView::Zoom(initial_zoom),
        ),
        Some(
            GestureStateView::PinchThreshold { fired_in, fired_out, action_in, action_out },
        ) => if !fired_in && scale < PINCH_SCALE_LO {
            (
                Some(
                    GestureStateView::PinchThreshold {
                        fired_in: true,
                        fired_out,
                        action_in,
                        action_out,
                    },
                ),
                fired_action(action_in),
            )
        } else if !fired_out && scale > PINCH_SCALE_HI {
            (
                Some(
                    GestureStateView::PinchThreshold {
                        fired_in,
                        fired_out: true,
                        action_in,
                        action_out,
                    },
                ),
                fired_action(action_out),
            )
        } else {
            (state, PinchUpdateView::Nothing)
        },
        _ => (state, PinchUpdateView::Forward),
    }
}

/// A pinch fires at most once each way.
pub proof fn pinch_fires_once_each_way<Z>(state: GestureStateView<Z>, first: i64, second: i64)
    requires
        state is PinchThreshold,
        pinched(Some(state), first).1 is Act,
        (first < PINCH_SCALE_LO && second < PINCH_SCALE_LO) || (first > PINCH_SCALE_HI && second
            > PINCH_SCALE_HI),
    ensures
        pinched(pinched(Some(state), first).0, second).1 is Nothing,
{
}

/// What the compositor does when a pinch ends.
#[derive(Clone, Copy, Debug, PartialEq, Eq)]
pub enum PinchEnd {
    /// The client gets it.
    Forward,
    /// The zoom of an output snaps to one if it is close.
    SnapZoom(Option<u64>),
    Nothing,
}

/// What the compositor does when a pinch ends.
pub open spec fn pinch_ended<Z>(gestures: GesturesView<Z>) -> PinchEnd {
    match gestures.state {
        None | Some(GestureStateView::PinchForward) => PinchEnd::Forward,
        Some(GestureStateView::PinchZoom { .. }) => PinchEnd::SnapZoom(gestures.output),
        _ => PinchEnd::Nothing,
    }
}

/// What the compositor does when a hold ends.
#[derive(Debug)]
pub enum HoldEnd {
    /// The client gets it.
    Forward,
    /// An action is carried out.
    Act(Action),
    Nothing,
}

fn fixed_action(config: &Config, env: &GestureEnv, trigger: GestureTrigger) -> (r: Option<Action>)
    ensures
        seen(r) == pinch_action(entry_for(*config, *env, trigger)),
{
    match entry(config, env, trigger) {
        Some(GestureConfigEntry::Threshold(ThresholdAction::Fixed(a))) => Some(a.duplicate()),
        _ => None,
    }
}

fn acting<Z>(action: &Option<Action>) -> (r: PinchUpdate<Z>)
    ensures
        r@ == fired_action::<Z>(seen(*action)),
{
    match action {
        Some(a) => PinchUpdate::Act(a.duplicate()),
        None => PinchUpdate::Nothing,
    }
}

impl<Z: Copy> Gestures<Z> {
    /// Ends a swipe. No gesture is under way afterwards.
    pub fn swipe_end(&mut self) -> (r: SwipeEnd)
        ensures
            r == swipe_ended(old(self)@),
            final(self)@ == (GesturesView::<Z> { state: None, output: None }),
    {
        let output = self.output;
        self.output = None;
        match self.state.take() {
            None => SwipeEnd::Forward,
            Some(GestureState::SwipePan) => SwipeEnd::Drift(output),
            Some(GestureState::SwipeMove) => SwipeEnd::Release,
            Some(
                GestureState::SwipeResize { window, edges, initial_location, initial_size, .. },
            ) => SwipeEnd::FinishResize { window, edges, initial_location, initial_size },
            _ => SwipeEnd::Nothing,
        }
    }

    /// Begins a pinch at a zoom.
    pub fn pinch_begin(&mut self, config: &Config, env: &GestureEnv, fingers: u32, zoom: Z) -> (r:
        PinchBegin)
        ensures
            (final(self)@, r) == pinch_begun(old(self)@, *config, *env, fingers, zoom),
            final(self)@.wf(),
    {
        if let Some(GestureConfigEntry::Continuous(ContinuousAction::Zoom)) = entry(
            config,
            env,
            GestureTrigger::Pinch { fingers },
        ) {
            self.output = env.active_output;
            self.state = Some(GestureState::PinchZoom { initial_zoom: zoom });
            return PinchBegin::Zoom;
        }
        let action_in = fixed_action(config, env, GestureTrigger::PinchIn { fingers });
        let action_out = fixed_action(config, env, GestureTrigger::PinchOut { fingers });
        if action_in.is_some() || action_out.is_some() {
            self.state =
            Some(
                GestureState::PinchThreshold {
                    fired_in: false,
                    fired_out: false,
                    action_in,
                    action_out,
                },
            );
            return PinchBegin::Threshold;
        }
        self.state = Some(GestureState::PinchForward);
        PinchBegin::Forward
    }

    /// Takes a motion of a pinch, with its scale since the beginning.
    pub fn pinch_update(&mut self, scale: i64) -> (r: PinchUpdate<Z>)
        ensures
            (final(self)@.state, r@) == pinched(old(self)@.state, scale),
            final(self).output == old(self).output,
    {
        match self.state.take() {
            Some(GestureState::PinchZoom { initial_zoom }) => {
                self.state = Some(GestureState::PinchZoom { initial_zoom });
                PinchUpdate::Zoom(initial_zoom)
            },
            Some(GestureState::PinchThreshold { fired_in, fired_out, action_in, action_out }) => {
                let now_in = !fired_in && scale < PINCH_SCALE_LO;
                let now_out = !now_in && !fired_out && scale > PINCH_SCALE_HI;
                let update = if now_in {
                    acting(&action_in)
                } else if now_out {
                    acting(&action_out)
                } else {
                    PinchUpdate::Nothing
                };
                self.state =
                Some(
                    GestureState::PinchThreshold {
                        fired_in: fired_in || now_in,
                        fired_out: fired_out || now_out,
                        action_in,
                        action_out,
                    },
                );
                update
            },
            other => {
                self.state = other;
                PinchUpdate::Forward
            },
        }
    }

    /// Ends a pinch. No gesture is under way afterwards.
    pub fn pinch_end(&mut self) -> (r: PinchEnd)
        ensures
            r == pinch_ended(old(self)@),
            final(self)@ == (GesturesView::<Z> { state: None, output: None }),
    {
        let output = self.output;
        self.output = None;
        match self.state.take() {
            None | Some(GestureState::PinchForward) => PinchEnd::Forward,
            Some(GestureState::PinchZoom { .. }) => PinchEnd::SnapZoom(output),
            _ => PinchEnd::Nothing,
        }
    }

    /// Begins a hold. Returns whether the client gets it.
    pub fn hold_begin(&mut self, config: &Config, env: &GestureEnv, fingers: u32) -> (r: bool)
        ensures
            match pinch_action(entry_for(*config, *env, GestureTrigger::Hold { fingers })) {
                Some(action) => !r && final(self)@.state == Some(
                    GestureStateView::<Z>::HoldAction { action },
                ),
                None => r && final(self)@.state == old(self)@.state,
            },
            final(self).output == old(self).output,
    {
        match fixed_action(config, env, GestureTrigger::Hold { fingers }) {
            Some(action) => {
                self.state = Some(GestureState::HoldAction { action });
                false
            },
            None => true,
        }
    }

    /// Ends a hold. Its action is carried out unless it was cancelled.
    pub fn hold_end(&mut self, cancelled: bool) -> (r: HoldEnd)
        ensures
            match old(self)@.state {
                Some(GestureStateView::HoldAction { action }) => if cancelled {
                    r is Nothing
                } else {
                    r matches HoldEnd::Act(a) && a@ == action
                },
                _ => r is Forward,
            },
            final(self)@ == (GesturesView::<Z> { state: None, output: old(self).output }),
    {
        match self.state.take() {
            Some(GestureState::HoldAction { action }) => if cancelled {
                HoldEnd::Nothing
            } else {
                HoldEnd::Act(action)
            },
            _ => HoldEnd::Forward,
        }
    }
}

/// Whether nothing is bound to a swipe where it begins.
pub open spec fn swipe_unbound(config: Config, env: GestureEnv, fingers: u32) -> bool {
    &&& entry_for(config, env, GestureTrigger::Swipe { fingers }) is None
    &&& entry_for(config, env, GestureTrigger::DoubletapSwipe { fingers }) is None
    &&& !directions_bound(config, env, fingers)
}

/// A swipe that nothing is bound to goes to the client: its beginning, all of
/// its motions and its end. It neither moves the viewport nor keeps back a
/// click.
pub proof fn unbound_swipes_go_to_the_client<Z>(
    gestures: GesturesView<Z>,
    config: Config,
    env: GestureEnv,
    fingers: u32,
    pending_click: bool,
    motion: SwipeMotion,
)
    requires
        gestures.state is None,
        swipe_unbound(config, env, fingers),
    ensures
        ({
            let (begun, r) = swipe_begun(gestures, config, env, fingers, pending_click);
            &&& begun == gestures
            &&& r == (SwipeBegin {
                flush_middle_click: pending_click,
                cancel_animations: false,
                start: SwipeStart::Forward,
            })
            &&& swiped(begun.state, motion) == (begun.state, SwipeUpdateView::Forward)
            &&& swipe_ended(begun) == SwipeEnd::Forward
        }),
{
}

/// A pinch that nothing is bound to goes to the client: its beginning, all of
/// its motions and its end.
pub proof fn unbound_pinches_go_to_the_client<Z>(
    gestures: GesturesView<Z>,
    config: Config,
    env: GestureEnv,
    fingers: u32,
    zoom: Z,
    scale: i64,
)
    requires
        entry_for(config, env, GestureTrigger::Pinch { fingers }) is None,
        entry_for(config, env, GestureTrigger::PinchIn { fingers }) is None,
        entry_for(config, env, GestureTrigger::PinchOut { fingers }) is None,
    ensures
        ({
            let (begun, r) = pinch_begun(gestures, config, env, fingers, zoom);
            &&& r == PinchBegin::Forward
            &&& pinched(begun.state, scale) == (begun.state, PinchUpdateView::<Z>::Forward)
            &&& pinch_ended(begun) == PinchEnd::Forward
        }),
{
}

} // verus!
