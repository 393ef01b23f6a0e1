//! Windows that are dragged and resized.

use crate::geometry::{Point, ResizeEdge, Size};
use crate::grabs::{CursorIcon, ResizeState, ResizeSurfaceGrab};
use vstd::prelude::*;

verus! {

use crate::grabs::{dragged_to, edge_cursor, grid_edge, is_drag, on_output, stretched};

/// A drag of whole pixels stretches a length by as many: at the high edge it
/// adds them, at the low edge it takes them away, and at neither it changes
/// nothing; but a length is never below one.
pub proof fn drags_stretch_by_as_much(initial: int, by: int, drag: int)
    requires
        1 <= initial <= 0x1000_0000,
        -0x1000_0000 <= by <= 0x1000_0000,
    ensures
        initial + by >= 1 ==> stretched(initial, false, true, 32_000 * by) == initial + by,
        initial + by < 1 ==> stretched(initial, false, true, 32_000 * by) == 1,
        initial - by >= 1 ==> stretched(initial, true, false, 32_000 * by) == initial - by,
        initial - by < 1 ==> stretched(initial, true, false, 32_000 * by) == 1,
        stretched(initial, false, false, drag) == initial,
{
}

/// Less than a whole pixel counts for nothing: a length changes by no more than
/// the drag, and by less than a pixel less.
pub proof fn fractions_of_a_pixel_do_not_stretch(initial: int, drag: int)
    requires
        0x1000_0000 <= initial <= 0x2000_0000,
        -32_000 * 0x1000_0000 < drag < 32_000 * 0x1000_0000,
    ensures
        drag >= 0 ==> drag - 32_000 < 32_000 * (stretched(initial, false, true, drag) - initial)
            <= drag,
        drag <= 0 ==> drag <= 32_000 * (stretched(initial, false, true, drag) - initial) < drag
            + 32_000,
        stretched(initial, true, false, drag) == stretched(initial, false, true, -drag),
{
}

/// The pointer takes the edges that it holds along: to the right it widens a
/// window that is held on the right and narrows one that is held on the left,
/// and downwards it heightens one that is held at the bottom and shortens one
/// that is held at the top.
pub proof fn held_edges_follow_the_pointer(grab: ResizeSurfaceGrab, dx: int, dy: int, to: (i64, i64))
    requires
        1 <= grab.initial_window_size.w <= 0x1000_0000,
        1 <= grab.initial_window_size.h <= 0x1000_0000,
        -0x1000_0000 <= dx <= 0x1000_0000,
        -0x1000_0000 <= dy <= 0x1000_0000,
        to.0 == grab.start.0 + 32_000 * dx,
        to.1 == grab.start.1 + 32_000 * dy,
    ensures
        ({
            let size = grab.size_at(to);
            let (w, h) = (grab.initial_window_size.w, grab.initial_window_size.h);
            &&& grab.edges == ResizeEdge::Right && w + dx >= 1 ==> size.w == w + dx && size.h == h
            &&& grab.edges == ResizeEdge::Left && w - dx >= 1 ==> size.w == w - dx && size.h == h
            &&& grab.edges == ResizeEdge::Bottom && h + dy >= 1 ==> size.w == w && size.h == h + dy
            &&& grab.edges == ResizeEdge::Top && h - dy >= 1 ==> size.w == w && size.h == h - dy
            &&& grab.edges == ResizeEdge::TopLeft && w - dx >= 1 && h - dy >= 1 ==> size.w == w - dx
                && size.h == h - dy
            &&& grab.edges == ResizeEdge::TopRight && w + dx >= 1 && h - dy >= 1 ==> size.w == w + dx
                && size.h == h - dy
            &&& grab.edges == ResizeEdge::BottomLeft && w - dx >= 1 && h + dy >= 1 ==> size.w == w
                - dx && size.h == h + dy
            &&& grab.edges == ResizeEdge::BottomRight && w + dx >= 1 && h + dy >= 1 ==> size.w == w
                + dx && size.h == h + dy
            &&& grab.edges == ResizeEdge::Empty ==> size.w == w && size.h == h
        }),
{
    drags_stretch_by_as_much(grab.initial_window_size.w as int, dx, 0);
    drags_stretch_by_as_much(grab.initial_window_size.h as int, dy, 0);
}

/// While a window is resized, and for the commit after, it is put so that the
/// edges that are not held stay; a window that is not resized is not moved.
pub proof fn resizes_keep_the_other_edges(
    state: ResizeState,
    edges: ResizeEdge,
    at: Point,
    initial: Size,
    current: Size,
)
    requires
        -0x1000_0000 <= at.x <= 0x1000_0000,
        -0x1000_0000 <= at.y <= 0x1000_0000,
        0 <= initial.w <= 0x1000_0000,
        0 <= initial.h <= 0x1000_0000,
        0 <= current.w <= 0x1000_0000,
        0 <= current.h <= 0x1000_0000,
    ensures
        state is Idle ==> state.committed(current).0 is None,
        state == (ResizeState::Resizing {
            edges,
            initial_window_location: at,
            initial_window_size: initial,
        }) || state == (ResizeState::WaitingForLastCommit {
            edges,
            initial_window_location: at,
            initial_window_size: initial,
        }) ==> (state.committed(current).0 matches Some(to) && {
            &&& edges.is_left() ==> to.x + current.w == at.x + initial.w
            &&& !edges.is_left() ==> to.x == at.x
            &&& edges.is_top() ==> to.y + current.h == at.y + initial.h
            &&& !edges.is_top() ==> to.y == at.y
        }),
        state is Resizing ==> state.committed(current).1 == state,
        state is WaitingForLastCommit || state is Idle ==> state.committed(current).1 is Idle,
{
}

/// A window is taken by the edges of the third that the position is in: the
/// left third by the left edge, the lower third by the bottom, and so on; in
/// the middle it is taken by the lower right corner.
pub proof fn windows_are_taken_by_their_thirds(pos: (i64, i64), at: Point, size: Size)
    requires
        size.w > 0,
        size.h > 0,
    ensures
        ({
            let e = grid_edge(pos, at, size);
            let x = pos.0 - 32_000 * at.x;
            let y = pos.1 - 32_000 * at.y;
            let left = 3 * x < 32_000 * size.w;
            let right = 3 * x > 64_000 * size.w;
            let top = 3 * y < 32_000 * size.h;
            let bottom = 3 * y > 64_000 * size.h;
            if left || right || top || bottom {
                e.is_left() == left && e.is_right() == right && e.is_top() == top && e.is_bottom()
                    == bottom
            } else {
                e == ResizeEdge::BottomRight
            }
        }),
{
}

/// A position is held on an output by moving it no more than it has to.
pub proof fn positions_are_held_on_the_output(v: int, length: int, other: int)
    requires
        length >= 1,
        0 <= other <= 32_000 * (length - 1),
    ensures
        0 <= on_output(v, length) <= 32_000 * (length - 1),
        0 <= v <= 32_000 * (length - 1) ==> on_output(v, length) == v,
        v < 0 ==> on_output(v, length) <= other,
        v > 32_000 * (length - 1) ==> on_output(v, length) >= other,
{
}

/// A dragged window moves with the pointer, by whole pixels.
pub proof fn dragged_windows_follow_the_pointer(start: Point, dx: int, dy: int)
    requires
        -0x1000_0000 <= start.x <= 0x1000_0000,
        -0x1000_0000 <= start.y <= 0x1000_0000,
        -0x1000_0000 <= dx <= 0x1000_0000,
        -0x1000_0000 <= dy <= 0x1000_0000,
    ensures
        dragged_to(start, (32_000 * dx, 32_000 * dy)).x == start.x + dx,
        dragged_to(start, (32_000 * dx, 32_000 * dy)).y == start.y + dy,
{
}

/// The cursor over an edge points where the edge lies.
pub proof fn cursors_point_at_their_edge(e: ResizeEdge)
    ensures
        edge_cursor(e) == CursorIcon::NResize <==> e.is_top() && !e.is_left() && !e.is_right(),
        edge_cursor(e) == CursorIcon::SResize <==> e.is_bottom() && !e.is_left() && !e.is_right(),
        edge_cursor(e) == CursorIcon::WResize <==> e.is_left() && !e.is_top() && !e.is_bottom(),
        edge_cursor(e) == CursorIcon::EResize <==> e.is_right() && !e.is_top() && !e.is_bottom(),
        edge_cursor(e) == CursorIcon::NwResize <==> e.is_top() && e.is_left(),
        edge_cursor(e) == CursorIcon::NeResize <==> e.is_top() && e.is_right(),
        edge_cursor(e) == CursorIcon::SwResize <==> e.is_bottom() && e.is_left(),
        edge_cursor(e) == CursorIcon::SeResize <==> e.is_bottom() && e.is_right(),
        edge_cursor(e) == CursorIcon::Default <==> e is Empty,
{
}

/// A press is a drag once it is five pixels from where it began, as the crow
/// flies, and no click from then on.
pub proof fn drags_begin_at_five_pixels(start: (i64, i64), now: (i64, i64))
    ensures
        now.1 == start.1 ==> (is_drag(start, now) <==> now.0 - start.0 >= 160_000 || start.0 - now.0
            >= 160_000),
        now.0 == start.0 ==> (is_drag(start, now) <==> now.1 - start.1 >= 160_000 || start.1 - now.1
            >= 160_000),
        is_drag(start, now) <==> (now.0 - start.0) * (now.0 - start.0) + (now.1 - start.1) * (now.1
            - start.1) >= 160_000 * 160_000,
{
    let dx = now.0 - start.0;
    let dy = now.1 - start.1;
    assert(dx * dx >= 160_000 * 160_000 <==> dx >= 160_000 || -dx >= 160_000) by (nonlinear_arith);
    assert(dy * dy >= 160_000 * 160_000 <==> dy >= 160_000 || -dy >= 160_000) by (nonlinear_arith);
    assert(dx == 0 ==> dx * dx == 0) by (nonlinear_arith);
    assert(dy == 0 ==> dy * dy == 0) by (nonlinear_arith);
}

} // verus!
