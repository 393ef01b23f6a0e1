//! Windows that appear and go, layers, the lock and the start of the program.

use crate::config::types::{DecorationMode, WindowRule};
use crate::config::Config;
use crate::desk::{DeskView, ExecCursor};
use crate::geometry::{Point, Rect, Size};
use crate::grabs::CursorIcon;
use crate::layers::{CanvasLayer, PopupParent};
use crate::shell::{CursorImage, ShellView};
use vstd::prelude::*;

verus! {

use crate::config::first_rule;
use crate::desk::without;
use crate::layers::{layer_of, popup_area, seen_from, settled};
use crate::runtime::{argument, backend_for};
use crate::session::{covers, surface_of, uncovered};
use crate::shell::{
    appears_at,
    corner_of,
    cursor_for,
    forces_server_side,
    gets_decoration,
    half,
    history_after,
    keeps_unfocused,
    left_by,
    pins,
    placement,
    requested,
    rule_for,
    x11_gets_decoration,
};

/// Half of a number, short of a whole one, towards zero.
pub proof fn halves_make_a_whole(v: int)
    ensures
        v >= 0 ==> 0 <= v - 2 * half(v) <= 1,
        v <= 0 ==> -1 <= v - 2 * half(v) <= 0,
        half(-v) == -half(v),
{
}

/// Whether two positions are at most half a pixel apart, in half pixels.
pub open spec fn half_a_pixel(a: int, b: int) -> bool {
    -1 <= a - b <= 1
}

/// A window appears with its middle where the rule says, y upwards, or else in
/// the middle of what is in sight, to half a pixel.
pub proof fn windows_appear_by_their_middle(
    rule: Option<WindowRule>,
    size: Size,
    middle: Option<Point>,
    m: Point,
    p: (i32, i32),
)
    requires
        0 <= size.w <= 0x1000_0000,
        0 <= size.h <= 0x1000_0000,
        -0x1000_0000 <= m.x <= 0x1000_0000,
        -0x1000_0000 <= m.y <= 0x1000_0000,
        -0x1000_0000 <= p.0 <= 0x1000_0000,
        -0x1000_0000 <= p.1 <= 0x1000_0000,
    ensures
        ({
            let at = appears_at(rule, size, middle);
            &&& rule matches Some(r) ==> (r.position == Some(p) ==> half_a_pixel(
                2 * at.x + size.w,
                2 * p.0,
            ) && half_a_pixel(2 * at.y + size.h, -2 * p.1))
            &&& (rule matches Some(r) ==> r.position is None) && middle == Some(m) ==> half_a_pixel(
                2 * at.x + size.w,
                2 * m.x,
            ) && half_a_pixel(2 * at.y + size.h, 2 * m.y)
            &&& (rule matches Some(r) ==> r.position is None) && middle is None ==> at.x == 0 && at.y
                == 0
        }),
        half_a_pixel(2 * corner_of(p, size).x + size.w, 2 * p.0),
        half_a_pixel(2 * corner_of(p, size).y + size.h, -2 * p.1),
{
}

/// What a new window gets: pinned windows are not activated and lie below, and
/// the focus goes back where a window does not take it; a window with a place
/// of its own is gone to, if it takes the focus.
pub proof fn new_windows_get_their_due<V>(
    shell: ShellView,
    desk: DeskView<V>,
    rule: Option<WindowRule>,
    window: u64,
    size: Size,
    middle: Option<Point>,
)
    ensures
        ({
            let r = placement(shell, desk, rule, window, size, middle);
            &&& r.at == appears_at(rule, size, middle)
            &&& rule is None ==> r.activate && r.rule is None && !r.force_server_side
                && !r.lower_widgets && r.refocus is None && !r.navigate
            &&& rule matches Some(w) ==> r.activate == !w.widget && r.lower_widgets == w.widget
                && r.navigate == (w.position is Some && !w.widget && !w.no_focus) && r.force_server_side
                == (w.decoration == DecorationMode::Server || w.decoration == DecorationMode::Off)
            &&& rule matches Some(w) ==> (!w.widget && !w.no_focus ==> r.refocus is None)
            &&& rule matches Some(w) ==> ((w.widget || w.no_focus) && without(
                desk.focus_history,
                window,
            ).len() > 0 ==> r.refocus == Some(without(desk.focus_history, window)[0]))
            &&& rule matches Some(w) ==> (r.rule matches Some(kept) && kept.widget == w.widget
                && kept.no_focus == w.no_focus && kept.decoration == w.decoration && kept.blur
                == w.blur && kept.opacity == w.opacity)
            &&& r.decorate is Some ==> r.decorate == Some(size.w)
            &&& r.clear_exec_cursor <==> desk.exec_cursor is Some
        }),
        rule matches Some(w) ==> pins(rule) == w.widget && keeps_unfocused(rule) == (w.widget
            || w.no_focus),
        rule is None ==> !pins(rule) && !keeps_unfocused(rule),
        rule is None ==> history_after(desk.focus_history, rule, window) == desk.focus_history,
{
}

/// A window is decorated that asks for it or that a rule has decorated, once,
/// but never where a rule forbids it.
pub proof fn windows_are_decorated_once(
    shell: ShellView,
    rule: Option<WindowRule>,
    window: u64,
    wants: bool,
    width: i32,
)
    ensures
        shell.decorated.contains(window) ==> !gets_decoration(shell, rule, window)
            && !x11_gets_decoration(shell, rule, window, wants, width),
        rule matches Some(r) ==> (r.decoration == DecorationMode::Off ==> !gets_decoration(
            shell,
            rule,
            window,
        ) && !x11_gets_decoration(shell, rule, window, wants, width)),
        rule matches Some(r) ==> (r.decoration == DecorationMode::Server && !shell.decorated.contains(
            window,
        ) ==> gets_decoration(shell, rule, window) && (width > 0 ==> x11_gets_decoration(
            shell,
            rule,
            window,
            wants,
            width,
        ))),
        (rule matches Some(r) ==> r.decoration == DecorationMode::Client)
            && !shell.decorated.contains(window) ==> gets_decoration(shell, rule, window)
            == shell.pending_ssd.contains(window) && x11_gets_decoration(
            shell,
            rule,
            window,
            wants,
            width,
        ) == (wants && width > 0),
        forces_server_side(rule) <==> (rule matches Some(r) && (r.decoration
            == DecorationMode::Server || r.decoration == DecorationMode::Off)),
{
}

/// A window that goes leaves the history, ends the fullscreen it was in with the
/// view from before, and leaves a cycle on a window that is still there;
/// everything else stays.
pub proof fn gone_windows_are_forgotten<V>(desk: DeskView<V>, window: u64, cycle: bool)
    requires
        desk.focus_history.len() <= usize::MAX,
    ensures
        ({
            let (after, view) = left_by(desk, window, cycle);
            let filled = desk.fullscreen matches Some(fs) && fs.window == window;
            &&& after.focus_history == without(desk.focus_history, window)
            &&& filled ==> after.fullscreen is None && view == Some(desk.fullscreen->0.saved_view)
            &&& !filled ==> after.fullscreen == desk.fullscreen && view is None
            &&& !cycle ==> after.cycle_state == desk.cycle_state
            &&& cycle && desk.cycle_state is None ==> after.cycle_state is None
            &&& cycle && desk.cycle_state is Some && after.focus_history.len() == 0
                ==> after.cycle_state is None
            &&& cycle && desk.cycle_state is Some && after.focus_history.len() > 0 ==> (
            after.cycle_state matches Some(i) && i < after.focus_history.len() && i
                <= desk.cycle_state->0 && (desk.cycle_state->0 < after.focus_history.len() ==> i
                == desk.cycle_state->0))
            &&& after.home_return == desk.home_return && after.overview_return
                == desk.overview_return && after.exec_cursor == desk.exec_cursor
        }),
{
    without_is_no_longer(desk.focus_history, window);
}

proof fn without_is_no_longer(history: Seq<u64>, window: u64)
    ensures
        without(history, window).len() <= history.len(),
    decreases history.len(),
{
    if history.len() > 0 {
        without_is_no_longer(history.drop_last(), window);
    }
}

/// Forgetting a window forgets no other.
pub proof fn other_windows_are_not_forgotten(shell: ShellView, window: u64, other: u64)
    requires
        other != window,
    ensures
        shell.forgotten(window).pending_center.contains(other) == shell.pending_center.contains(
            other,
        ),
        shell.forgotten(window).pending_ssd.contains(other) == shell.pending_ssd.contains(other),
        shell.forgotten(window).decorated.contains(other) == shell.decorated.contains(other),
{
}

/// A request changes what it names and nothing else.
pub proof fn requests_change_what_they_name(
    geo: Rect,
    x: Option<i32>,
    y: Option<i32>,
    w: Option<u32>,
    h: Option<u32>,
)
    ensures
        ({
            let r = requested(geo, x, y, w, h);
            &&& x matches Some(v) ==> r.loc.x == v
            &&& y matches Some(v) ==> r.loc.y == v
            &&& w matches Some(v) ==> (v <= i32::MAX ==> r.size.w == v)
            &&& h matches Some(v) ==> (v <= i32::MAX ==> r.size.h == v)
            &&& x is None ==> r.loc.x == geo.loc.x
            &&& y is None ==> r.loc.y == geo.loc.y
            &&& w is None ==> r.size.w == geo.size.w
            &&& h is None ==> r.size.h == geo.size.h
        }),
{
}

/// A held cursor stays; else the client's cursor is shown, but that the default
/// one waits while a program is starting and its grace time is over.
pub proof fn cursors_wait_for_programs(
    current: CursorImage,
    image: CursorImage,
    exec: Option<ExecCursor>,
    now: u64,
)
    ensures
        cursor_for(current, image, true, exec, now) == current,
        exec is None ==> cursor_for(current, image, false, exec, now) == image,
        image != CursorImage::Named(CursorIcon::Default) ==> cursor_for(
            current,
            image,
            false,
            exec,
            now,
        ) == image,
        exec matches Some(e) ==> image == CursorImage::Named(CursorIcon::Default) ==> cursor_for(
            current,
            image,
            false,
            exec,
            now,
        ) == CursorImage::Named(
            if now >= e.show_at {
                CursorIcon::Wait
            } else {
                CursorIcon::Default
            },
        ),
{
}

/// The rule of a window is the first one for its name; a window without a name
/// has none.
pub proof fn rules_go_by_name(config: Config, id: Seq<char>)
    ensures
        rule_for(config, None) is None,
        rule_for(config, Some(id)) is Some <==> first_rule(
            config.window_rules@,
            id,
            config.window_rules@.len(),
        ) is Some,
        first_rule(config.window_rules@, id, config.window_rules@.len()) matches Some(k) ==> rule_for(
            config,
            Some(id),
        ) == Some(config.window_rules@[k]),
{
}

/// A layer is found by its surface, the first of several; where none has it,
/// none is found.
pub proof fn layers_go_by_surface(layers: Seq<CanvasLayer>, surface: u64, n: nat)
    requires
        n <= layers.len(),
    ensures
        match layer_of(layers, surface, n) {
            Some(k) => 0 <= k < n && layers[k].surface == surface && forall|j: int|
                0 <= j < k ==> (#[trigger] layers[j]).surface != surface,
            None => forall|j: int| 0 <= j < n ==> (#[trigger] layers[j]).surface != surface,
        },
    decreases n,
{
    if n > 0 {
        layers_go_by_surface(layers, surface, (n - 1) as nat);
    }
}

/// A layer on the canvas is placed by its middle as soon as it has a size, and
/// not before.
pub proof fn layers_are_placed_with_a_size(layer: CanvasLayer, size: Size)
    requires
        layer.position is None,
    ensures
        size.w <= 0 || size.h <= 0 ==> settled(layer, size) == layer,
        size.w > 0 && size.h > 0 ==> settled(layer, size).position == Some(
            corner_of(layer.rule_position, size),
        ) && settled(layer, size).surface == layer.surface,
{
}

/// What is seen from a place is shifted by it and keeps its size.
pub proof fn areas_are_seen_from_a_place(area: Rect, at: Point)
    requires
        -0x1000_0000 <= area.loc.x <= 0x1000_0000,
        -0x1000_0000 <= area.loc.y <= 0x1000_0000,
        -0x1000_0000 <= at.x <= 0x1000_0000,
        -0x1000_0000 <= at.y <= 0x1000_0000,
    ensures
        seen_from(area, at).loc.x + at.x == area.loc.x,
        seen_from(area, at).loc.y + at.y == area.loc.y,
        seen_from(area, at).size == area.size,
{
}

/// Popups are kept on what their parent is on: a window's and a layer's on the
/// output, a canvas layer's on what is in sight; counted from the parent and
/// from the popup that they come from.
pub proof fn popups_stay_where_their_parent_is(
    parent: PopupParent,
    at: Point,
    output: Rect,
    in_sight: Rect,
    nested: Point,
)
    requires
        -0x1000_0000 <= at.x <= 0x1000_0000,
        -0x1000_0000 <= at.y <= 0x1000_0000,
        -0x1000_0000 <= nested.x <= 0x1000_0000,
        -0x1000_0000 <= nested.y <= 0x1000_0000,
        -0x1000_0000 <= output.loc.x <= 0x1000_0000,
        -0x1000_0000 <= output.loc.y <= 0x1000_0000,
        -0x1000_0000 <= in_sight.loc.x <= 0x1000_0000,
        -0x1000_0000 <= in_sight.loc.y <= 0x1000_0000,
    ensures
        parent == PopupParent::Window(at) ==> (popup_area(parent, Some(output), in_sight, nested)
            matches Some(r) && r.size == output.size && r.loc.x + at.x + nested.x == output.loc.x
            && r.loc.y + at.y + nested.y == output.loc.y),
        parent == PopupParent::CanvasLayer(at) ==> (popup_area(
            parent,
            Some(output),
            in_sight,
            nested,
        ) matches Some(r) && r.size == in_sight.size && r.loc.x + at.x + nested.x == in_sight.loc.x
            && r.loc.y + at.y + nested.y == in_sight.loc.y),
        parent == PopupParent::Layer(at) ==> (popup_area(parent, Some(output), in_sight, nested)
            matches Some(r) && r.size == output.size && r.loc.x + at.x + nested.x == 0 && r.loc.y
            + at.y + nested.y == 0),
        popup_area(parent, None, in_sight, nested) is None <==> parent is Layer,
{
}

/// The lock surface of an output is the last one given to it, and a surface
/// covers where it was given to some output.
pub proof fn lock_surfaces_go_by_output(pairs: Seq<(u64, u64)>, output: u64, surface: u64)
    ensures
        surface_of(pairs.push((output, surface)), output) == Some(surface),
        covers(pairs.push((output, surface)), surface),
        surface_of(pairs, output) matches Some(s) ==> covers(pairs, s),
        surface_of(Seq::<(u64, u64)>::empty(), output) is None,
        !covers(Seq::<(u64, u64)>::empty(), surface),
    decreases pairs.len(),
{
    let more = pairs.push((output, surface));
    assert(more.last() == (output, surface));
    assert(more[pairs.len() as int].1 == surface);
    if pairs.len() > 0 {
        lock_surfaces_go_by_output(pairs.drop_last(), output, surface);
        let front = pairs.drop_last();
        assert(pairs[pairs.len() - 1] == pairs.last());
        if surface_of(front, output) matches Some(s) {
            let k = choose|k: int| 0 <= k < front.len() && (#[trigger] front[k]).1
                == surface_of(front, output)->0;
            assert(pairs[k] == front[k]);
        }
    }
}

/// An output that is gone has no lock surface, and the others keep theirs.
pub proof fn gone_outputs_have_no_lock_surface(pairs: Seq<(u64, u64)>, output: u64, other: u64)
    ensures
        surface_of(uncovered(pairs, output), output) is None,
        other != output ==> surface_of(uncovered(pairs, output), other) == surface_of(pairs, other),
    decreases pairs.len(),
{
    if pairs.len() > 0 {
        let front = pairs.drop_last();
        gone_outputs_have_no_lock_surface(front, output, other);
        if pairs.last().0 != output {
            let kept = uncovered(front, output);
            assert(kept.push(pairs.last()).drop_last() =~= kept);
        }
    }
}

/// An argument is found at its first place, and only where it is.
pub proof fn arguments_are_found_where_they_are(args: Seq<String>, text: Seq<char>)
    ensures
        match argument(args, text) {
            Some(k) => 0 <= k < args.len() && args[k]@ == text && forall|j: int|
                0 <= j < k ==> (#[trigger] args[j])@ != text,
            None => forall|j: int| 0 <= j < args.len() ==> (#[trigger] args[j])@ != text,
        },
    decreases args.len(),
{
    if args.len() > 0 {
        let front = args.drop_last();
        arguments_are_found_where_they_are(front, text);
        assert forall|j: int| 0 <= j < front.len() implies front[j] == args[j] by {}
        match argument(front, text) {
            Some(k) => {
                assert forall|j: int| 0 <= j < k implies (#[trigger] args[j])@ != text by {
                    assert(front[j]@ != text);
                }
            },
            None => {
                assert forall|j: int| 0 <= j < args.len() - 1 implies (#[trigger] args[j])@ != text by {
                    assert(front[j]@ != text);
                }
            },
        }
    }
}

/// The backend is the one that is asked for, udev only by its name; where none
/// is asked for, a window of another session is opened from within one, and
/// the hardware is taken otherwise.
pub proof fn backends_are_asked_for(args: Seq<String>, nested: bool, k: int)
    requires
        argument(args, "--backend"@) == Some(k),
    ensures
        k + 1 < args.len() ==> (backend_for(args, nested) is Udev <==> args[k + 1]@ == "udev"@),
        k + 1 == args.len() ==> (backend_for(args, nested) is Udev <==> !nested),
{
}

/// Without an argument the session decides.
pub proof fn sessions_decide_the_backend(args: Seq<String>)
    requires
        argument(args, "--backend"@) is None,
    ensures
        backend_for(args, true) is Winit,
        backend_for(args, false) is Udev,
{
}

} // verus!
