//! What a mouse button or a scroll does.

use crate::config::types::{
    Action, BindingContext, Modifiers, MouseAction, BTN_LEFT, BTN_MIDDLE,
};
use crate::config::{AxisSource, Config};
use crate::decorations::DecorationHit;
use crate::geometry::ResizeEdge;
use vstd::prelude::*;

verus! {

use crate::config::types::{ActionView, MouseBinding, MouseTrigger};
use crate::config::scroll_trigger;

/// How long a middle click is held back, in milliseconds, for a swipe that may
/// follow.
pub const DOUBLE_TAP_WINDOW_MS: u64 = 300;

/// How long after a scroll moved the viewport another one still does, in
/// milliseconds.
pub const PAN_STICKINESS_MS: u64 = 150;

/// A window under the pointer.
#[derive(Clone, Copy, Debug, PartialEq, Eq, Structural)]
pub struct WindowUnder {
    pub id: u64,
    /// Whether it has a surface to focus.
    pub has_surface: bool,
    /// Whether its rule pins it.
    pub widget: bool,
    /// Whether its rule keeps the focus away from it.
    pub no_focus: bool,
}

/// The binding context of a pointer position.
pub open spec fn context_at(window: Option<WindowUnder>, canvas_layer: bool) -> BindingContext {
    if (window matches Some(w) && !w.no_focus) || canvas_layer {
        BindingContext::OnWindow
    } else {
        BindingContext::OnCanvas
    }
}

/// The binding context of a pointer position, from the window and the canvas
/// layer under it.
pub fn pointer_context(window: Option<WindowUnder>, canvas_layer: bool) -> (r: BindingContext)
    ensures
        r == context_at(window, canvas_layer),
{
    let over_window = match window {
        Some(w) => !w.no_focus,
        None => false,
    };
    if over_window || canvas_layer {
        BindingContext::OnWindow
    } else {
        BindingContext::OnCanvas
    }
}

/// A middle click that is held back: when the button went down, and up.
#[derive(Clone, Copy, Debug, PartialEq, Eq)]
pub struct PendingMiddleClick {
    pub press_time: u32,
    pub release_time: Option<u32>,
}

/// What the pointer remembers between events.
#[derive(Clone, Copy, Debug, PartialEq, Eq)]
pub struct PointerMemory {
    pub pending_middle_click: Option<PendingMiddleClick>,
    /// When a scroll last moved the viewport, in milliseconds.
    pub last_scroll_pan: Option<u64>,
}

/// What becomes of a button event at first.
#[derive(Clone, Copy, Debug, PartialEq, Eq)]
pub struct Buffered {
    /// An earlier click that goes to the client now.
    pub flush: Option<PendingMiddleClick>,
    /// Whether the event is held back.
    pub held: bool,
}

impl PointerMemory {
    /// What becomes of a button event at first, and what is remembered of it.
    pub open spec fn buffered(
        self,
        button: u32,
        pressed: bool,
        time: u32,
        bound: bool,
        timer: bool,
    ) -> (PointerMemory, Buffered) {
        if !pressed {
            if button == BTN_MIDDLE && self.pending_middle_click is Some {
                (
                    PointerMemory {
                        pending_middle_click: Some(
                            PendingMiddleClick {
                                press_time: self.pending_middle_click->0.press_time,
                                release_time: Some(time),
                            },
                        ),
                        ..self
                    },
                    Buffered { flush: None, held: true },
                )
            } else {
                (self, Buffered { flush: None, held: false })
            }
        } else if button == BTN_MIDDLE && !bound {
            (
                PointerMemory {
                    pending_middle_click: if timer {
                        Some(PendingMiddleClick { press_time: time, release_time: None })
                    } else {
                        None
                    },
                    last_scroll_pan: None,
                },
                Buffered { flush: self.pending_middle_click, held: timer },
            )
        } else {
            (
                PointerMemory { last_scroll_pan: None, ..self },
                Buffered { flush: None, held: false },
            )
        }
    }

    /// Nothing is remembered.
    pub fn new() -> (r: PointerMemory)
        ensures
            r == (PointerMemory { pending_middle_click: None, last_scroll_pan: None }),
    {
        PointerMemory { pending_middle_click: None, last_scroll_pan: None }
    }

    /// Takes a button event. A middle click without a binding is held back,
    /// because a tap of three fingers is one and a swipe may follow. `timer`
    /// says whether the time to hold it back could be set.
    pub fn button(&mut self, button: u32, pressed: bool, time: u32, bound: bool, timer: bool) -> (r:
        Buffered)
        ensures
            (*final(self), r) == old(self).buffered(button, pressed, time, bound, timer),
    {
        if !pressed {
            if button == BTN_MIDDLE {
                if let Some(click) = self.pending_middle_click {
                    self.pending_middle_click =
                    Some(
                        PendingMiddleClick { press_time: click.press_time, release_time: Some(time) },
                    );
                    return Buffered { flush: None, held: true };
                }
            }
            return Buffered { flush: None, held: false };
        }
        self.last_scroll_pan = None;
        if button == BTN_MIDDLE && !bound {
            let flush = self.pending_middle_click;
            self.pending_middle_click =
            if timer {
                Some(PendingMiddleClick { press_time: time, release_time: None })
            } else {
                None
            };
            return Buffered { flush, held: timer };
        }
        Buffered { flush: None, held: false }
    }

    /// Gives out the click that was held back, if there is one.
    pub fn take_middle_click(&mut self) -> (r: Option<PendingMiddleClick>)
        ensures
            r == old(self).pending_middle_click,
            *final(self) == (PointerMemory { pending_middle_click: None, ..*old(self) }),
    {
        let click = self.pending_middle_click;
        self.pending_middle_click = None;
        click
    }
}

/// A middle click that was held back comes out with both its times.
pub proof fn held_click_comes_back(memory: PointerMemory, down: u32, up: u32)
    ensures
        memory.buffered(BTN_MIDDLE, true, down, false, true).0.buffered(
            BTN_MIDDLE,
            false,
            up,
            false,
            true,
        ).0.pending_middle_click == Some(
            PendingMiddleClick { press_time: down, release_time: Some(up) },
        ),
{
}

/// What a press does while a window fills the screen.
#[derive(Clone, Copy, Debug, PartialEq, Eq, Structural)]
pub enum FullscreenPress {
    /// The client gets it.
    Forward,
    /// Fullscreen is left, and that is all.
    Leave,
    /// Fullscreen is left, and the press goes on.
    LeaveAndGoOn,
}

/// The mouse action of a button in a context.
pub open spec fn button_action(
    config: Config,
    modifiers: Modifiers,
    button: u32,
    context: BindingContext,
) -> Option<MouseAction> {
    config.mouse.bound((MouseBinding { modifiers, trigger: MouseTrigger::Button(button) }), context)
}

/// What a press does while a window fills the screen.
pub open spec fn fullscreen_press_outcome(config: Config, modifiers: Modifiers, button: u32) -> FullscreenPress {
    match button_action(config, modifiers, button, BindingContext::OnWindow) {
        Some(MouseAction::Action(Action::ToggleFullscreen)) => FullscreenPress::Leave,
        Some(_) => FullscreenPress::LeaveAndGoOn,
        None => FullscreenPress::Forward,
    }
}

/// Decides what a press does while a window fills the screen.
pub fn fullscreen_press(config: &Config, modifiers: &Modifiers, button: u32) -> (r: FullscreenPress)
    ensures
        r == fullscreen_press_outcome(*config, *modifiers, button),
{
    match config.mouse_button_lookup_ctx(modifiers, button, BindingContext::OnWindow) {
        Some(MouseAction::Action(Action::ToggleFullscreen)) => FullscreenPress::Leave,
        Some(_) => FullscreenPress::LeaveAndGoOn,
        None => FullscreenPress::Forward,
    }
}

/// What is under the pointer when a button goes down.
#[derive(Clone, Copy, Debug)]
pub struct PressEnv {
    /// Whether the pointer is over a layer surface of the screen.
    pub over_layer: bool,
    /// The decoration under the pointer, with its window.
    pub decoration: Option<(WindowUnder, DecorationHit)>,
    pub window: Option<WindowUnder>,
    /// Whether a canvas layer is under the pointer.
    pub canvas_layer: bool,
}

/// What gets the keyboard before a click goes to the client.
#[derive(Clone, Copy, Debug, PartialEq, Eq, Structural)]
pub enum Refocus {
    Nothing,
    /// Raise a window and focus it.
    RaiseAndFocus(u64),
    /// Focus a window where it is.
    FocusWindow(u64),
    /// Focus the canvas layer under the pointer.
    FocusCanvasLayer,
}

/// What a press comes to.
#[derive(Debug)]
pub enum PressOutcome {
    /// The client gets the press, after the focus has changed.
    Forward(Refocus),
    /// Nobody gets it.
    Drop,
    /// Ask a window to close.
    Close(u64),
    /// Raise and focus a window and drag it, alone or with its cluster.
    Move { window: u64, cluster: bool },
    /// Raise and focus a window and resize it, by the given edge or by the one
    /// that the position selects.
    Resize { window: u64, edge: Option<ResizeEdge>, cluster: bool },
    /// Drag the viewport.
    Pan { from_empty_canvas: bool },
    /// Drag towards the nearest window.
    Navigate,
    /// Raise and focus a window and carry out an action.
    FocusAndAct(u64, Action),
    /// Carry out an action.
    Act(Action),
}

/// What a press comes to, with the text of an action as characters.
pub enum PressOutcomeView {
    Forward(Refocus),
    Drop,
    Close(u64),
    Move { window: u64, cluster: bool },
    Resize { window: u64, edge: Option<ResizeEdge>, cluster: bool },
    Pan { from_empty_canvas: bool },
    Navigate,
    FocusAndAct(u64, ActionView),
    Act(ActionView),
}

impl View for PressOutcome {
    type V = PressOutcomeView;

    open spec fn view(&self) -> PressOutcomeView {
        match self {
            PressOutcome::Forward(f) => PressOutcomeView::Forward(*f),
            PressOutcome::Drop => PressOutcomeView::Drop,
            PressOutcome::Close(w) => PressOutcomeView::Close(*w),
            PressOutcome::Move { window, cluster } => PressOutcomeView::Move {
                window: *window,
                cluster: *cluster,
            },
            PressOutcome::Resize { window, edge, cluster } => PressOutcomeView::Resize {
                window: *window,
                edge: *edge,
                cluster: *cluster,
            },
            PressOutcome::Pan { from_empty_canvas } => PressOutcomeView::Pan {
                from_empty_canvas: *from_empty_canvas,
            },
            PressOutcome::Navigate => PressOutcomeView::Navigate,
            PressOutcome::FocusAndAct(w, a) => PressOutcomeView::FocusAndAct(*w, a@),
            PressOutcome::Act(a) => PressOutcomeView::Act(a@),
        }
    }
}

/// The focus after a click that no binding took.
pub open spec fn clicked(env: PressEnv) -> Refocus {
    match env.window {
        Some(w) if !w.no_focus => if !w.widget {
            Refocus::RaiseAndFocus(w.id)
        } else if env.canvas_layer {
            Refocus::FocusCanvasLayer
        } else {
            Refocus::FocusWindow(w.id)
        },
        _ => if env.canvas_layer {
            Refocus::FocusCanvasLayer
        } else {
            Refocus::Nothing
        },
    }
}

/// Whether nothing but the canvas is under the pointer.
pub open spec fn on_empty_canvas(env: PressEnv) -> bool {
    env.window is None && env.decoration is None && !env.canvas_layer
}

/// What a press comes to that no binding took: on the empty canvas the left
/// button drags the viewport, and the client gets any other press.
pub open spec fn unbound_outcome(env: PressEnv, button: u32) -> PressOutcomeView {
    if button == BTN_LEFT && on_empty_canvas(env) {
        PressOutcomeView::Pan { from_empty_canvas: true }
    } else {
        PressOutcomeView::Forward(clicked(env))
    }
}

/// What a binding makes of a press, if it takes it. One that needs a window
/// takes nothing where there is none that it may act on.
pub open spec fn bound_outcome(action: MouseAction, env: PressEnv) -> Option<PressOutcomeView> {
    match action {
        MouseAction::MoveWindow | MouseAction::MoveSnappedWindows => match env.window {
            Some(w) if w.has_surface && !w.widget => Some(
                PressOutcomeView::Move { window: w.id, cluster: action is MoveSnappedWindows },
            ),
            _ => None,
        },
        MouseAction::ResizeWindow | MouseAction::ResizeWindowSnapped => match env.window {
            Some(w) if !w.widget => Some(
                PressOutcomeView::Resize {
                    window: w.id,
                    edge: None,
                    cluster: action is ResizeWindowSnapped,
                },
            ),
            _ => None,
        },
        MouseAction::PanViewport => Some(
            PressOutcomeView::Pan {
                from_empty_canvas: context_at(env.window, env.canvas_layer)
                    == BindingContext::OnCanvas,
            },
        ),
        MouseAction::CenterNearest => Some(PressOutcomeView::Navigate),
        MouseAction::Zoom => None,
        MouseAction::Action(Action::ToggleFullscreen) => match env.window {
            Some(w) if !w.no_focus => Some(
                PressOutcomeView::FocusAndAct(w.id, ActionView::ToggleFullscreen),
            ),
            _ => None,
        },
        MouseAction::Action(a) => Some(PressOutcomeView::Act(a@)),
    }
}

/// What a press on a decoration comes to, if the decoration takes it.
pub open spec fn decoration_outcome(env: PressEnv, button: u32) -> Option<PressOutcomeView> {
    match env.decoration {
        None => None,
        Some((w, hit)) => if !w.has_surface {
            Some(PressOutcomeView::Drop)
        } else if button != BTN_LEFT {
            None
        } else {
            match hit {
                DecorationHit::CloseButton => Some(PressOutcomeView::Close(w.id)),
                DecorationHit::TitleBar if !w.widget => Some(
                    PressOutcomeView::Move { window: w.id, cluster: false },
                ),
                DecorationHit::ResizeBorder(edge) if !w.widget => Some(
                    PressOutcomeView::Resize { window: w.id, edge: Some(edge), cluster: false },
                ),
                _ => None,
            }
        },
    }
}

/// The window that is focused first, because its decoration was clicked and
/// does nothing else.
pub open spec fn focused_first(env: PressEnv, button: u32) -> Option<u64> {
    if env.over_layer {
        None
    } else {
        match env.decoration {
            Some((w, _)) if button == BTN_LEFT && decoration_outcome(env, button) is None => Some(
                w.id,
            ),
            _ => None,
        }
    }
}

/// What a press comes to: a layer surface gets it first, then a decoration,
/// then a binding, then the client under the pointer or the empty canvas.
pub open spec fn press_outcome(config: Config, modifiers: Modifiers, button: u32, env: PressEnv) -> PressOutcomeView {
    if env.over_layer {
        PressOutcomeView::Forward(Refocus::Nothing)
    } else if let Some(outcome) = decoration_outcome(env, button) {
        outcome
    } else {
        let context = context_at(env.window, env.canvas_layer);
        match button_action(config, modifiers, button, context) {
            Some(action) => match bound_outcome(action, env) {
                Some(outcome) => outcome,
                None => unbound_outcome(env, button),
            },
            None => unbound_outcome(env, button),
        }
    }
}

fn click(env: &PressEnv) -> (r: Refocus)
    ensures
        r == clicked(*env),
{
    if let Some(w) = env.window {
        if !w.no_focus {
            return if !w.widget {
                Refocus::RaiseAndFocus(w.id)
            } else if env.canvas_layer {
                Refocus::FocusCanvasLayer
            } else {
                Refocus::FocusWindow(w.id)
            };
        }
    }
    if env.canvas_layer {
        Refocus::FocusCanvasLayer
    } else {
        Refocus::Nothing
    }
}

fn press_decoration(env: &PressEnv, button: u32) -> (r: Option<PressOutcome>)
    ensures
        match r {
            Some(o) => decoration_outcome(*env, button) == Some(o@),
            None => decoration_outcome(*env, button) is None,
        },
{
    let (w, hit) = match env.decoration {
        Some(d) => d,
        None => {
            return None;
        },
    };
    if !w.has_surface {
        return Some(PressOutcome::Drop);
    }
    if button != BTN_LEFT {
        return None;
    }
    match hit {
        DecorationHit::CloseButton => Some(PressOutcome::Close(w.id)),
        DecorationHit::TitleBar => if !w.widget {
            Some(PressOutcome::Move { window: w.id, cluster: false })
        } else {
            None
        },
        DecorationHit::ResizeBorder(edge) => if !w.widget {
            Some(PressOutcome::Resize { window: w.id, edge: Some(edge), cluster: false })
        } else {
            None
        },
    }
}

fn press_bound(action: &MouseAction, env: &PressEnv) -> (r: Option<PressOutcome>)
    ensures
        match r {
            Some(o) => bound_outcome(*action, *env) == Some(o@),
            None => bound_outcome(*action, *env) is None,
        },
{
    match action {
        MouseAction::MoveWindow | MouseAction::MoveSnappedWindows => {
            let cluster = match action {
                MouseAction::MoveSnappedWindows => true,
                _ => false,
            };
            match env.window {
                Some(w) => if w.has_surface && !w.widget {
                    Some(PressOutcome::Move { window: w.id, cluster })
                } else {
                    None
                },
                None => None,
            }
        },
        MouseAction::ResizeWindow | MouseAction::ResizeWindowSnapped => {
            let cluster = match action {
                MouseAction::ResizeWindowSnapped => true,
                _ => false,
            };
            match env.window {
                Some(w) => if !w.widget {
                    Some(PressOutcome::Resize { window: w.id, edge: None, cluster })
                } else {
                    None
                },
                None => None,
            }
        },
        MouseAction::PanViewport => {
            let context = pointer_context(env.window, env.canvas_layer);
            Some(PressOutcome::Pan { from_empty_canvas: context == BindingContext::OnCanvas })
        },
        MouseAction::CenterNearest => Some(PressOutcome::Navigate),
        MouseAction::Zoom => None,
        MouseAction::Action(Action::ToggleFullscreen) => match env.window {
            Some(w) => if !w.no_focus {
                Some(PressOutcome::FocusAndAct(w.id, Action::ToggleFullscreen))
            } else {
                None
            },
            None => None,
        },
        MouseAction::Action(a) => Some(PressOutcome::Act(a.duplicate())),
    }
}

/// Decides what a press comes to. The first result is a window to focus
/// before that.
pub fn press(config: &Config, modifiers: &Modifiers, button: u32, env: &PressEnv) -> (r: (
    Option<u64>,
    PressOutcome,
))
    ensures
        r.0 == focused_first(*env, button),
        r.1@ == press_outcome(*config, *modifiers, button, *env),
{
    if env.over_layer {
        return (None, PressOutcome::Forward(Refocus::Nothing));
    }
    if let Some(outcome) = press_decoration(env, button) {
        return (None, outcome);
    }
    let first: Option<u64> = match env.decoration {
        Some((w, _)) => if button == BTN_LEFT {
            Some(w.id)
        } else {
            None
        },
        None => None,
    };
    let context = pointer_context(env.window, env.canvas_layer);
    if let Some(action) = config.mouse_button_lookup_ctx(modifiers, button, context) {
        if let Some(outcome) = press_bound(action, env) {
            return (first, outcome);
        }
    }
    if button == BTN_LEFT && env.window.is_none() && env.decoration.is_none() && !env.canvas_layer {
        return (first, PressOutcome::Pan { from_empty_canvas: true });
    }
    (first, PressOutcome::Forward(click(env)))
}

/// A left press on the empty canvas drags the viewport, unless a binding says
/// otherwise.
pub proof fn left_presses_drag_the_canvas(config: Config, modifiers: Modifiers, env: PressEnv)
    requires
        !env.over_layer,
        on_empty_canvas(env),
        button_action(config, modifiers, BTN_LEFT, BindingContext::OnCanvas) is None,
    ensures
        press_outcome(config, modifiers, BTN_LEFT, env) == (PressOutcomeView::Pan {
            from_empty_canvas: true,
        }),
        focused_first(env, BTN_LEFT) is None,
{
}

/// A widget is never dragged or resized by the mouse.
pub proof fn widgets_are_not_dragged(config: Config, modifiers: Modifiers, button: u32, env: PressEnv)
    requires
        env.window matches Some(w) ==> w.widget,
        env.decoration matches Some((w, _)) ==> w.widget,
    ensures
        press_outcome(config, modifiers, button, env) !is Move,
        press_outcome(config, modifiers, button, env) !is Resize,
{
}

/// What becomes of a scroll before its binding is looked at.
#[derive(Clone, Copy, Debug, PartialEq, Eq, Structural)]
pub enum ScrollRoute {
    /// The client gets it.
    Forward,
    /// Fullscreen is left first.
    LeaveFullscreen,
    GoOn,
}

/// The mouse action of a scroll in a context.
pub open spec fn scroll_action(
    config: Config,
    modifiers: Modifiers,
    source: AxisSource,
    context: BindingContext,
) -> Option<MouseAction> {
    config.mouse.bound((MouseBinding { modifiers, trigger: scroll_trigger(source) }), context)
}

/// What becomes of a scroll before its binding is looked at.
pub open spec fn scroll_routed(
    config: Config,
    modifiers: Modifiers,
    source: AxisSource,
    over_layer: bool,
    fullscreen: bool,
) -> ScrollRoute {
    if over_layer {
        ScrollRoute::Forward
    } else if fullscreen {
        if scroll_action(config, modifiers, source, BindingContext::OnWindow) is Some {
            ScrollRoute::LeaveFullscreen
        } else {
            ScrollRoute::Forward
        }
    } else {
        ScrollRoute::GoOn
    }
}

/// Decides what becomes of a scroll before its binding is looked at.
pub fn route_scroll(
    config: &Config,
    modifiers: &Modifiers,
    source: AxisSource,
    over_layer: bool,
    fullscreen: bool,
) -> (r: ScrollRoute)
    ensures
        r == scroll_routed(*config, *modifiers, source, over_layer, fullscreen),
{
    if over_layer {
        ScrollRoute::Forward
    } else if fullscreen {
        match config.mouse_scroll_lookup_ctx(modifiers, source, BindingContext::OnWindow) {
            Some(_) => ScrollRoute::LeaveFullscreen,
            None => ScrollRoute::Forward,
        }
    } else {
        ScrollRoute::GoOn
    }
}

/// What a scroll comes to.
#[derive(Clone, Copy, Debug, PartialEq, Eq, Structural)]
pub enum ScrollOutcome {
    /// The client gets it.
    Forward,
    /// The viewport moves.
    Pan,
    /// The zoom changes.
    Zoom,
    /// Nobody gets it.
    Swallow,
}

/// Whether the viewport was scrolled a moment ago.
pub open spec fn panned_recently(last: Option<u64>, now: u64) -> bool {
    last matches Some(t) && now - t < PAN_STICKINESS_MS
}

/// The context of a scroll: the canvas while the viewport is being scrolled,
/// so that a window that slides under the pointer does not stop it.
pub open spec fn scroll_context(last: Option<u64>, now: u64, here: BindingContext) -> BindingContext {
    if panned_recently(last, now) {
        BindingContext::OnCanvas
    } else {
        here
    }
}

/// What a scroll in a context comes to.
pub open spec fn scroll_outcome(
    config: Config,
    modifiers: Modifiers,
    source: AxisSource,
    context: BindingContext,
) -> ScrollOutcome {
    match scroll_action(config, modifiers, source, context) {
        Some(MouseAction::PanViewport) => ScrollOutcome::Pan,
        Some(MouseAction::Zoom) => ScrollOutcome::Zoom,
        Some(_) => ScrollOutcome::Swallow,
        None => ScrollOutcome::Forward,
    }
}

impl PointerMemory {
    /// Takes a scroll over the given context. A trackpad that moves the
    /// viewport is remembered.
    pub fn scroll(
        &mut self,
        config: &Config,
        modifiers: &Modifiers,
        source: AxisSource,
        here: BindingContext,
        now: u64,
    ) -> (r: ScrollOutcome)
        ensures
            r == scroll_outcome(
                *config,
                *modifiers,
                source,
                scroll_context(old(self).last_scroll_pan, now, here),
            ),
            final(self).last_scroll_pan == if r is Pan && source is Finger {
                Some(now)
            } else {
                old(self).last_scroll_pan
            },
            final(self).pending_middle_click == old(self).pending_middle_click,
    {
        let recent = match self.last_scroll_pan {
            Some(t) => now < t || now - t < PAN_STICKINESS_MS,
            None => false,
        };
        let context = if recent {
            BindingContext::OnCanvas
        } else {
            here
        };
        match config.mouse_scroll_lookup_ctx(modifiers, source, context) {
            Some(MouseAction::PanViewport) => {
                if let AxisSource::Finger = source {
                    self.last_scroll_pan = Some(now);
                }
                ScrollOutcome::Pan
            },
            Some(MouseAction::Zoom) => ScrollOutcome::Zoom,
            Some(_) => ScrollOutcome::Swallow,
            None => ScrollOutcome::Forward,
        }
    }
}

/// While the viewport is being scrolled, what is under the pointer does not
/// matter.
pub proof fn scrolling_goes_on(
    config: Config,
    modifiers: Modifiers,
    source: AxisSource,
    last: u64,
    now: u64,
    here: BindingContext,
    there: BindingContext,
)
    requires
        now - last < PAN_STICKINESS_MS,
    ensures
        scroll_outcome(config, modifiers, source, scroll_context(Some(last), now, here))
            == scroll_outcome(config, modifiers, source, scroll_context(Some(last), now, there)),
{
}

/// What a client is told of one axis of a scroll.
#[derive(Clone, Copy, Debug, PartialEq, Eq, Structural)]
pub enum AxisPart {
    /// The amount and its direction.
    Value,
    /// The fingers have left the trackpad.
    Stop,
    Nothing,
}

/// What a client is told of one axis of a scroll.
pub fn axis_part(has_amount: bool, source: AxisSource) -> (r: AxisPart)
    ensures
        r == if has_amount {
            AxisPart::Value
        } else if source is Finger {
            AxisPart::Stop
        } else {
            AxisPart::Nothing
        },
{
    if has_amount {
        return AxisPart::Value;
    }
    match source {
        AxisSource::Finger => AxisPart::Stop,
        _ => AxisPart::Nothing,
    }
}

} // verus!
