//! Presses, scrolling, keys and window decorations.

use crate::config::types::{
    Action, BindingContext, Modifiers, MouseAction, BTN_LEFT, BTN_MIDDLE, BTN_RIGHT,
};
use crate::config::{AxisSource, Config};
use crate::decorations::DecorationHit;
use crate::geometry::{Point, ResizeEdge, Size};
use crate::keyboard::KeyOutcome;
use crate::pointer::{
    PendingMiddleClick,
    PointerMemory,
    PressEnv,
    PressOutcome,
    Refocus,
    WindowUnder,
};
use vstd::prelude::*;

verus! {

use crate::config::scroll_trigger;
use crate::config::types::MouseTrigger;
use crate::decorations::{border_edge, close_button, on_close_button, on_title_bar};
use crate::keyboard::{key_outcome, repeat_interval};
use crate::pointer::{
    button_action,
    clicked,
    context_at,
    focused_first,
    fullscreen_press_outcome,
    press_outcome,
    scroll_action,
    scroll_context,
    scroll_outcome,
    scroll_routed,
};

/// The codes of the mouse buttons.
pub proof fn buttons_have_their_codes()
    ensures
        BTN_LEFT == 0x110,
        BTN_RIGHT == 0x111,
        BTN_MIDDLE == 0x112,
{
}

/// The pointer is on a window where there is one that takes the focus, or a
/// layer on the canvas; else it is on the canvas.
pub proof fn context_is_what_lies_under(window: Option<WindowUnder>, canvas_layer: bool)
    ensures
        canvas_layer ==> context_at(window, canvas_layer) == BindingContext::OnWindow,
        window matches Some(w) ==> !w.no_focus ==> context_at(window, canvas_layer)
            == BindingContext::OnWindow,
        window matches Some(w) ==> w.no_focus && !canvas_layer ==> context_at(window, canvas_layer)
            == BindingContext::OnCanvas,
        window is None && !canvas_layer ==> context_at(window, canvas_layer)
            == BindingContext::OnCanvas,
{
}

/// A middle press that nothing is bound to is held back while there is time to
/// wait, the click before it is let go, and any press ends the scroll; other
/// buttons pass.
pub proof fn middle_presses_are_held_back(
    m: PointerMemory,
    button: u32,
    time: u32,
    bound: bool,
    timer: bool,
)
    ensures
        ({
            let (after, r) = m.buffered(button, true, time, bound, timer);
            &&& after.last_scroll_pan is None
            &&& button == 0x112 && !bound ==> r.held == timer && r.flush == m.pending_middle_click
            &&& button == 0x112 && !bound && timer ==> after.pending_middle_click == Some(
                PendingMiddleClick { press_time: time, release_time: None },
            )
            &&& button == 0x112 && !bound && !timer ==> after.pending_middle_click is None
            &&& button != 0x112 || bound ==> !r.held && r.flush is None && after.pending_middle_click
                == m.pending_middle_click
        }),
        ({
            let (after, r) = m.buffered(button, false, time, bound, timer);
            &&& after.last_scroll_pan == m.last_scroll_pan
            &&& r.flush is None
            &&& button == 0x112 && m.pending_middle_click is Some ==> r.held
                && after.pending_middle_click == Some(
                PendingMiddleClick {
                    press_time: m.pending_middle_click->0.press_time,
                    release_time: Some(time),
                },
            )
            &&& button != 0x112 || m.pending_middle_click is None ==> !r.held && after == m
        }),
{
}

/// A press on a fullscreen window goes to it, unless something is bound to the
/// press: then fullscreen is left, and what is bound is done, but for the
/// fullscreen switch, which has been done by then.
pub proof fn bound_presses_leave_fullscreen(config: Config, modifiers: Modifiers, button: u32)
    ensures
        ({
            let bound = button_action(config, modifiers, button, BindingContext::OnWindow);
            let r = fullscreen_press_outcome(config, modifiers, button);
            &&& r is Forward <==> bound is None
            &&& r is Leave <==> bound == Some(MouseAction::Action(Action::ToggleFullscreen))
        }),
{
}

/// A press over a layer of the screen goes there and changes nothing.
pub proof fn layers_get_their_presses(
    config: Config,
    modifiers: Modifiers,
    button: u32,
    env: PressEnv,
    r: PressOutcome,
)
    requires
        r@ == press_outcome(config, modifiers, button, env),
        env.over_layer,
    ensures
        r == PressOutcome::Forward(Refocus::Nothing),
        focused_first(env, button) is None,
{
}

/// A left press on a decoration does what that part is for: the button closes,
/// the bar moves, the border resizes by its edge. Decorations of widgets can
/// only be closed.
pub proof fn decorations_do_their_part(
    config: Config,
    modifiers: Modifiers,
    env: PressEnv,
    w: WindowUnder,
    hit: DecorationHit,
    edge: ResizeEdge,
    r: PressOutcome,
)
    requires
        r@ == press_outcome(config, modifiers, 0x110, env),
        !env.over_layer,
        env.decoration == Some((w, hit)),
        w.has_surface,
    ensures
        hit == DecorationHit::CloseButton ==> r == PressOutcome::Close(w.id),
        hit == DecorationHit::TitleBar && !w.widget ==> r == (PressOutcome::Move {
            window: w.id,
            cluster: false,
        }),
        hit == DecorationHit::ResizeBorder(edge) && !w.widget ==> r == (PressOutcome::Resize {
            window: w.id,
            edge: Some(edge),
            cluster: false,
        }),
        hit == DecorationHit::CloseButton || !w.widget ==> focused_first(env, 0x110) is None,
        hit != DecorationHit::CloseButton && w.widget ==> focused_first(env, 0x110) == Some(w.id),
{
}

/// A press does what is bound to it where the pointer is: it moves or resizes
/// the window there, with its cluster if so bound, pans, navigates or acts. A
/// widget is neither moved nor resized.
pub proof fn bound_presses_do_what_they_say(
    config: Config,
    modifiers: Modifiers,
    button: u32,
    env: PressEnv,
    w: WindowUnder,
    action: MouseAction,
    r: PressOutcome,
)
    requires
        r@ == press_outcome(config, modifiers, button, env),
        !env.over_layer,
        env.decoration is None,
        button_action(
            config,
            modifiers,
            button,
            context_at(env.window, env.canvas_layer),
        ) == Some(action),
    ensures
        env.window == Some(w) && w.has_surface && !w.widget && action is MoveWindow ==> r == (
        PressOutcome::Move { window: w.id, cluster: false }),
        env.window == Some(w) && w.has_surface && !w.widget && action is MoveSnappedWindows ==> r
            == (PressOutcome::Move { window: w.id, cluster: true }),
        env.window == Some(w) && !w.widget && action is ResizeWindow ==> r == (
        PressOutcome::Resize { window: w.id, edge: None, cluster: false }),
        env.window == Some(w) && !w.widget && action is ResizeWindowSnapped ==> r == (
        PressOutcome::Resize { window: w.id, edge: None, cluster: true }),
        action is PanViewport ==> r == (PressOutcome::Pan {
            from_empty_canvas: !env.canvas_layer && (env.window matches Some(v) ==> v.no_focus),
        }),
        action is CenterNearest ==> r is Navigate,
        action matches MouseAction::Action(a) ==> !(a is ToggleFullscreen) ==> (
        r matches PressOutcome::Act(b) && b@ == a@),
        action == MouseAction::Action(Action::ToggleFullscreen) && env.window == Some(w)
            && !w.no_focus ==> (r matches PressOutcome::FocusAndAct(v, b) && v == w.id && b
            is ToggleFullscreen),
        env.window == Some(w) && w.widget && (action is MoveWindow || action is MoveSnappedWindows
            || action is ResizeWindow || action is ResizeWindowSnapped) ==> r
            == PressOutcome::Forward(clicked(env)),
{
}

/// A press that nothing is bound to goes to what lies under the pointer, and
/// the window there is raised and focused; a widget is focused where it is, a
/// window that takes no focus is left alone.
pub proof fn unbound_presses_focus_what_they_hit(
    config: Config,
    modifiers: Modifiers,
    button: u32,
    env: PressEnv,
    w: WindowUnder,
    r: PressOutcome,
)
    requires
        r@ == press_outcome(config, modifiers, button, env),
        !env.over_layer,
        env.decoration is None,
        button_action(
            config,
            modifiers,
            button,
            context_at(env.window, env.canvas_layer),
        ) is None,
    ensures
        env.window == Some(w) && !w.no_focus && !w.widget ==> r == PressOutcome::Forward(
            Refocus::RaiseAndFocus(w.id),
        ),
        env.window == Some(w) && !w.no_focus && w.widget && !env.canvas_layer ==> r
            == PressOutcome::Forward(Refocus::FocusWindow(w.id)),
        env.window == Some(w) && !w.no_focus && w.widget && env.canvas_layer ==> r
            == PressOutcome::Forward(Refocus::FocusCanvasLayer),
        env.window == Some(w) && w.no_focus && !env.canvas_layer ==> r == PressOutcome::Forward(
            Refocus::Nothing,
        ),
        env.window is None && env.canvas_layer ==> r == PressOutcome::Forward(
            Refocus::FocusCanvasLayer,
        ),
        env.window is None && !env.canvas_layer && button != 0x110 ==> r == PressOutcome::Forward(
            Refocus::Nothing,
        ),
        env.window is None && !env.canvas_layer && button == 0x110 ==> r == (PressOutcome::Pan {
            from_empty_canvas: true,
        }),
{
}

/// Scrolling with fingers is trackpad scrolling, all other scrolling is the
/// wheel's.
pub proof fn fingers_scroll_as_the_trackpad(source: AxisSource)
    ensures
        scroll_trigger(AxisSource::Finger) == MouseTrigger::TrackpadScroll,
        source != AxisSource::Finger ==> scroll_trigger(source) == MouseTrigger::WheelScroll,
{
}

/// Scrolling over a layer of the screen goes there; over a fullscreen window it
/// goes there too, unless something is bound to it, which leaves fullscreen.
pub proof fn scrolling_is_routed(
    config: Config,
    modifiers: Modifiers,
    source: AxisSource,
    over_layer: bool,
    fullscreen: bool,
)
    ensures
        ({
            let r = scroll_routed(config, modifiers, source, over_layer, fullscreen);
            let bound = scroll_action(config, modifiers, source, BindingContext::OnWindow) is Some;
            &&& r is GoOn <==> !over_layer && !fullscreen
            &&& r is LeaveFullscreen <==> !over_layer && fullscreen && bound
        }),
{
}

/// Scrolling does what is bound to it: pans, zooms, or goes to the client where
/// nothing is.
pub proof fn scrolling_does_what_it_is_bound_to(
    config: Config,
    modifiers: Modifiers,
    source: AxisSource,
    context: BindingContext,
)
    ensures
        ({
            let bound = scroll_action(config, modifiers, source, context);
            let r = scroll_outcome(config, modifiers, source, context);
            &&& r is Pan <==> bound is Some && bound->0 is PanViewport
            &&& r is Zoom <==> bound is Some && bound->0 is Zoom
            &&& r is Forward <==> bound is None
        }),
{
}

/// For 150 milliseconds after a pan, scrolling stays on the canvas.
pub proof fn pans_stick_for_a_while(last: u64, now: u64, here: BindingContext)
    ensures
        scroll_context(None, now, here) == here,
        now < last + 150 ==> scroll_context(Some(last), now, here) == BindingContext::OnCanvas,
        now >= last + 150 ==> scroll_context(Some(last), now, here) == here,
{
}

/// A key does what is bound to it when it is pressed; letting go of the cycle
/// key ends the cycle, whatever else is going on.
pub proof fn keys_do_what_they_are_bound_to(
    config: Config,
    cycling: bool,
    modifiers: Modifiers,
    pressed: bool,
    sym: u32,
    r: KeyOutcome,
)
    requires
        r@ == key_outcome(config, cycling, modifiers, pressed, sym),
    ensures
        r is EndCycle <==> cycling && !config.cycle_modifier.held(modifiers),
        !(r is EndCycle) && pressed && config.key_action(modifiers, sym) is Some ==> (
        r matches KeyOutcome::Intercept(a) && a@ == config.key_action(modifiers, sym)->0@),
        !(r is EndCycle) && (!pressed || config.key_action(modifiers, sym) is None) ==> r is Forward,
{
}

/// A held key fires as often in a second as the rate says, to the millisecond.
pub proof fn repeats_come_at_their_rate(rate: i32)
    requires
        rate >= 1,
    ensures
        rate * repeat_interval(rate) <= 1000,
        1000 < rate * (repeat_interval(rate) + 1),
        repeat_interval(0) == 1000,
{
    let d = rate as int;
    let q = repeat_interval(rate);
    vstd::arithmetic::div_mod::lemma_fundamental_div_mod(1000, d);
    vstd::arithmetic::div_mod::lemma_mod_bound(1000, d);
    assert(d * (q + 1) == d * q + d) by (nonlinear_arith);
}

/// Actions that repeat while their key is held: zooming, nudging, panning,
/// cycling and launching without a cursor. The others fire once.
pub proof fn actions_that_repeat(a: Action)
    ensures
        a@.repeats() <==> a is ZoomIn || a is ZoomOut || a is NudgeWindow || a is PanViewport
            || a is CycleWindows || a is Spawn,
{
}

/// The close button is a square as high as the bar, eight pixels from the right
/// end of the window and as high above it as the bar.
pub proof fn close_button_is_in_the_corner(at: Point, width: i32, bar: i32)
    ensures
        ({
            let (x, y, side) = close_button(at, width, bar);
            &&& side == bar
            &&& x + side + 8 == at.x + width
            &&& y + side == at.y
        }),
{
}

/// The title bar lies on top of the window, from its left end to the close
/// button.
pub proof fn title_bar_ends_at_the_button(pos: (i64, i64), at: Point, width: i32, bar: i32)
    ensures
        on_title_bar(pos, at, width, bar) <==> 32_000 * at.x <= pos.0 && pos.0 < 32_000
            * close_button(at, width, bar).0 && 32_000 * (at.y - bar) <= pos.1 && pos.1 < 32_000
            * at.y,
        on_close_button(pos, at, width, bar) <==> 32_000 * close_button(at, width, bar).0 <= pos.0
            && pos.0 < 32_000 * (at.x + width - 8) && 32_000 * (at.y - bar) <= pos.1 && pos.1
            < 32_000 * at.y,
{
}

/// The border lies round the window and its bar, as wide as it is, and each
/// part of it is the edge that lies there.
pub proof fn border_lies_round_the_window(
    pos: (i64, i64),
    at: Point,
    size: Size,
    bar: i32,
    border: i32,
)
    requires
        size.w > 0,
        size.h > 0,
        bar >= 0,
        border >= 0,
    ensures
        ({
            let left = 32_000 * at.x;
            let right = 32_000 * (at.x + size.w);
            let top = 32_000 * (at.y - bar);
            let bottom = 32_000 * (at.y + size.h);
            let b = 32_000 * border;
            let around = left - b <= pos.0 && pos.0 < right + b && top - b <= pos.1 && pos.1 < bottom
                + b;
            let inside = left <= pos.0 && pos.0 < right && top <= pos.1 && pos.1 < bottom;
            let r = border_edge(pos, at, size, bar, border);
            &&& r is Some <==> around && !inside
            &&& r matches Some(e) ==> e.is_left() == (pos.0 < left) && e.is_right() == (pos.0 >= right)
                && e.is_top() == (pos.1 < top) && e.is_bottom() == (pos.1 >= bottom)
        }),
{
}

} // verus!
