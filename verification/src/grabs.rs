//! Pointer drags: moving and resizing windows, and panning the canvas.

use crate::geometry::{pick_edge, Point, ResizeEdge, Size};
use crate::units::{pixels, saturate_i32, trunc_to_pixels};
use vstd::prelude::*;

verus! {

use crate::geometry::edge_of;
use crate::units::{clamp_i32, from_pixels, in_range, trunc_pixels, UNITS_PER_PIXEL};

/// How far a resize has come. A window keeps it between commits.
#[derive(Clone, Copy, Debug, PartialEq, Eq, Structural)]
pub enum ResizeState {
    Idle,
    Resizing { edges: ResizeEdge, initial_window_location: Point, initial_window_size: Size },
    WaitingForLastCommit {
        edges: ResizeEdge,
        initial_window_location: Point,
        initial_window_size: Size,
    },
}

impl Default for ResizeState {
    fn default() -> (r: ResizeState)
        ensures
            r == ResizeState::Idle,
    {
        ResizeState::Idle
    }
}

/// Whether the edges include the top one.
pub fn has_top(edges: ResizeEdge) -> (r: bool)
    ensures
        r == edges.is_top(),
{
    match edges {
        ResizeEdge::Top | ResizeEdge::TopLeft | ResizeEdge::TopRight => true,
        _ => false,
    }
}

/// Whether the edges include the bottom one.
pub fn has_bottom(edges: ResizeEdge) -> (r: bool)
    ensures
        r == edges.is_bottom(),
{
    match edges {
        ResizeEdge::Bottom | ResizeEdge::BottomLeft | ResizeEdge::BottomRight => true,
        _ => false,
    }
}

/// Whether the edges include the left one.
pub fn has_left(edges: ResizeEdge) -> (r: bool)
    ensures
        r == edges.is_left(),
{
    match edges {
        ResizeEdge::Left | ResizeEdge::TopLeft | ResizeEdge::BottomLeft => true,
        _ => false,
    }
}

/// Whether the edges include the right one.
pub fn has_right(edges: ResizeEdge) -> (r: bool)
    ensures
        r == edges.is_right(),
{
    match edges {
        ResizeEdge::Right | ResizeEdge::TopRight | ResizeEdge::BottomRight => true,
        _ => false,
    }
}

/// Each edge is one bit of the mask.
pub proof fn edges_are_bits(e: ResizeEdge)
    ensures
        e.is_top() <==> e.bits() & 1 != 0,
        e.is_bottom() <==> e.bits() & 2 != 0,
        e.is_left() <==> e.bits() & 4 != 0,
        e.is_right() <==> e.bits() & 8 != 0,
{
    let b = e.bits();
    assert(b == 0 || b == 1 || b == 2 || b == 4 || b == 5 || b == 6 || b == 8 || b == 9 || b == 10);
    assert(0u32 & 1 == 0 && 1u32 & 1 == 1 && 2u32 & 1 == 0 && 4u32 & 1 == 0 && 5u32 & 1 == 1 && 6u32
        & 1 == 0 && 8u32 & 1 == 0 && 9u32 & 1 == 1 && 10u32 & 1 == 0) by (bit_vector);
    assert(0u32 & 2 == 0 && 1u32 & 2 == 0 && 2u32 & 2 == 2 && 4u32 & 2 == 0 && 5u32 & 2 == 0 && 6u32
        & 2 == 2 && 8u32 & 2 == 0 && 9u32 & 2 == 0 && 10u32 & 2 == 2) by (bit_vector);
    assert(0u32 & 4 == 0 && 1u32 & 4 == 0 && 2u32 & 4 == 0 && 4u32 & 4 == 4 && 5u32 & 4 == 4 && 6u32
        & 4 == 4 && 8u32 & 4 == 0 && 9u32 & 4 == 0 && 10u32 & 4 == 0) by (bit_vector);
    assert(0u32 & 8 == 0 && 1u32 & 8 == 0 && 2u32 & 8 == 0 && 4u32 & 8 == 0 && 5u32 & 8 == 0 && 6u32
        & 8 == 0 && 8u32 & 8 == 8 && 9u32 & 8 == 8 && 10u32 & 8 == 8) by (bit_vector);
}

/// A length that a drag has changed, never below one pixel. A length stays at
/// the end of the range where the drag would leave it.
pub open spec fn stretched(initial: int, low_edge: bool, high_edge: bool, drag: int) -> int {
    let by = clamp_i32(trunc_pixels(drag));
    let v = if low_edge {
        clamp_i32(initial - by)
    } else if high_edge {
        clamp_i32(initial + by)
    } else {
        initial
    };
    if v < 1 {
        1
    } else {
        v
    }
}

fn stretch(initial: i32, low_edge: bool, high_edge: bool, drag: i64) -> (r: i32)
    requires
        drag > i64::MIN,
    ensures
        r == stretched(initial as int, low_edge, high_edge, drag as int),
{
    let by: i32 = trunc_to_pixels(drag);
    let v: i32 = if low_edge {
        saturate_i32(initial as i64 - by as i64)
    } else if high_edge {
        saturate_i32(initial as i64 + by as i64)
    } else {
        initial
    };
    if v < 1 {
        1
    } else {
        v
    }
}

/// The size of a window whose edges were dragged by a canvas distance.
pub fn resized(edges: ResizeEdge, initial: Size, drag: (i64, i64)) -> (r: Size)
    requires
        drag.0 > i64::MIN,
        drag.1 > i64::MIN,
    ensures
        r.w == stretched(initial.w as int, edges.is_left(), edges.is_right(), drag.0 as int),
        r.h == stretched(initial.h as int, edges.is_top(), edges.is_bottom(), drag.1 as int),
        r.w >= 1,
        r.h >= 1,
{
    Size {
        w: stretch(initial.w, has_left(edges), has_right(edges), drag.0),
        h: stretch(initial.h, has_top(edges), has_bottom(edges), drag.1),
    }
}

/// Where a window goes when it commits a size in the middle of a resize: edges
/// that are not dragged stay where they were.
pub open spec fn anchored(edges: ResizeEdge, at: Point, initial: Size, current: Size) -> Point {
    Point {
        x: if edges.is_left() {
            clamp_i32(at.x + (initial.w - current.w)) as i32
        } else {
            at.x
        },
        y: if edges.is_top() {
            clamp_i32(at.y + (initial.h - current.h)) as i32
        } else {
            at.y
        },
    }
}

impl ResizeState {
    /// Where a commit moves the window, and the state after it. Nothing moves
    /// while there is no resize, and the last commit ends the resize.
    pub open spec fn committed(self, current: Size) -> (Option<Point>, ResizeState) {
        match self {
            ResizeState::Idle => (None, self),
            ResizeState::Resizing { edges, initial_window_location, initial_window_size } => (
                Some(anchored(edges, initial_window_location, initial_window_size, current)),
                self,
            ),
            ResizeState::WaitingForLastCommit {
                edges,
                initial_window_location,
                initial_window_size,
            } => (
                Some(anchored(edges, initial_window_location, initial_window_size, current)),
                ResizeState::Idle,
            ),
        }
    }

    /// Starts a resize.
    pub fn begin(edges: ResizeEdge, location: Point, size: Size) -> (r: ResizeState)
        ensures
            r == (ResizeState::Resizing {
                edges,
                initial_window_location: location,
                initial_window_size: size,
            }),
    {
        ResizeState::Resizing {
            edges,
            initial_window_location: location,
            initial_window_size: size,
        }
    }

    /// Ends the drag: one more commit is waited for.
    pub fn release(&mut self)
        ensures
            *final(self) == match *old(self) {
                ResizeState::Resizing { edges, initial_window_location, initial_window_size } => (
                ResizeState::WaitingForLastCommit {
                    edges,
                    initial_window_location,
                    initial_window_size,
                }),
                other => other,
            },
    {
        if let ResizeState::Resizing { edges, initial_window_location, initial_window_size } = *self {
            *self =
            ResizeState::WaitingForLastCommit {
                edges,
                initial_window_location,
                initial_window_size,
            };
        }
    }

    /// Takes a commit of the window at its current size.
    pub fn commit(&mut self, current: Size) -> (r: Option<Point>)
        ensures
            (r, *final(self)) == old(self).committed(current),
    {
        let (edges, at, initial) = match *self {
            ResizeState::Idle => {
                return None;
            },
            ResizeState::Resizing { edges, initial_window_location, initial_window_size } => (
                edges,
                initial_window_location,
                initial_window_size,
            ),
            ResizeState::WaitingForLastCommit {
                edges,
                initial_window_location,
                initial_window_size,
            } => {
                *self = ResizeState::Idle;
                (edges, initial_window_location, initial_window_size)
            },
        };
        let mut to = at;
        if has_top(edges) {
            to.y = saturate_i32(at.y as i64 + (initial.h as i64 - current.h as i64));
        }
        if has_left(edges) {
            to.x = saturate_i32(at.x as i64 + (initial.w as i64 - current.w as i64));
        }
        Some(to)
    }
}

/// Whatever size a resized window commits, the edges that are not dragged stay
/// where they were.
pub proof fn still_edges_stay(edges: ResizeEdge, at: Point, initial: Size, current: Size)
    requires
        i32::MIN <= at.x + (initial.w - current.w) <= i32::MAX,
        i32::MIN <= at.y + (initial.h - current.h) <= i32::MAX,
    ensures
        ({
            let to = anchored(edges, at, initial, current);
            &&& edges.is_left() ==> to.x + current.w == at.x + initial.w
            &&& !edges.is_left() ==> to.x == at.x
            &&& edges.is_top() ==> to.y + current.h == at.y + initial.h
            &&& !edges.is_top() ==> to.y == at.y
        }),
{
}

/// A resize ends with the first commit after the drag was released, and moves
/// nothing after that.
pub proof fn resize_ends(edges: ResizeEdge, at: Point, initial: Size, current: Size, later: Size)
    ensures
        ({
            let waiting = ResizeState::WaitingForLastCommit {
                edges,
                initial_window_location: at,
                initial_window_size: initial,
            };
            &&& waiting.committed(current).1 == ResizeState::Idle
            &&& waiting.committed(current).1.committed(later) == (
                None::<Point>,
                ResizeState::Idle,
            )
        }),
{
}

/// The third of a window that a position is in, as a corner or an edge. The
/// middle counts as the bottom right corner.
pub open spec fn grid_edge(pos: (i64, i64), window_loc: Point, window_size: Size) -> ResizeEdge {
    let x = 3 * (pos.0 - from_pixels(window_loc.x as int));
    let y = 3 * (pos.1 - from_pixels(window_loc.y as int));
    let w = from_pixels(window_size.w as int);
    let h = from_pixels(window_size.h as int);
    match edge_of(x < w, x > 2 * w, y < h, y > 2 * h) {
        Some(e) => e,
        None => ResizeEdge::BottomRight,
    }
}

/// The edges that a resize from this position drags, by a grid of three by
/// three over the window.
pub fn edges_from_position(pos: (i64, i64), window_loc: Point, window_size: Size) -> (r: ResizeEdge)
    requires
        in_range(pos.0),
        in_range(pos.1),
    ensures
        r == grid_edge(pos, window_loc, window_size),
{
    let x: i64 = 3 * (pos.0 - pixels(window_loc.x));
    let y: i64 = 3 * (pos.1 - pixels(window_loc.y));
    let w: i64 = pixels(window_size.w);
    let h: i64 = pixels(window_size.h);
    match pick_edge(x < w, x > 2 * w, y < h, y > 2 * h) {
        Some(e) => e,
        None => ResizeEdge::BottomRight,
    }
}

/// A screen coordinate on an output of this length, at its border where it
/// would leave it.
pub open spec fn on_output(v: int, length: int) -> int {
    if v < 0 {
        0
    } else if v > from_pixels(length - 1) {
        from_pixels(length - 1)
    } else {
        v
    }
}

/// A screen coordinate that stays on an output of this length.
pub fn keep_on_output(v: i64, length: i32) -> (r: i64)
    requires
        length >= 1,
    ensures
        r == on_output(v as int, length as int),
{
    let end: i64 = pixels(length - 1);
    if v < 0 {
        0
    } else if v > end {
        end
    } else {
        v
    }
}

/// A window that is being resized by the pointer.
#[derive(Clone, Copy, Debug)]
pub struct ResizeSurfaceGrab {
    /// Where the pointer was at the start, on the canvas in units.
    pub start: (i64, i64),
    pub edges: ResizeEdge,
    pub initial_window_location: Point,
    pub initial_window_size: Size,
    /// The size that was asked for last.
    pub last_window_size: Size,
}

impl ResizeSurfaceGrab {
    /// Starts to resize a window.
    pub fn new(start: (i64, i64), edges: ResizeEdge, location: Point, size: Size) -> (r:
        ResizeSurfaceGrab)
        ensures
            r == (ResizeSurfaceGrab {
                start,
                edges,
                initial_window_location: location,
                initial_window_size: size,
                last_window_size: size,
            }),
    {
        ResizeSurfaceGrab {
            start,
            edges,
            initial_window_location: location,
            initial_window_size: size,
            last_window_size: size,
        }
    }

    /// The size of the window when the pointer is at a place.
    pub open spec fn size_at(self, pointer: (i64, i64)) -> Size {
        Size {
            w: stretched(
                self.initial_window_size.w as int,
                self.edges.is_left(),
                self.edges.is_right(),
                pointer.0 - self.start.0,
            ) as i32,
            h: stretched(
                self.initial_window_size.h as int,
                self.edges.is_top(),
                self.edges.is_bottom(),
                pointer.1 - self.start.1,
            ) as i32,
        }
    }

    /// Follows the pointer, which is kept on the output. Returns the size to
    /// ask for, if it has changed.
    pub fn motion(&mut self, pointer: (i64, i64)) -> (r: Option<Size>)
        requires
            in_range(old(self).start.0),
            in_range(old(self).start.1),
            in_range(pointer.0),
            in_range(pointer.1),
        ensures
            ({
                let size = old(self).size_at(pointer);
                &&& r == if size != old(self).last_window_size {
                    Some(size)
                } else {
                    None
                }
                &&& *final(self) == (ResizeSurfaceGrab { last_window_size: size, ..*old(self) })
            }),
    {
        let drag: (i64, i64) = (pointer.0 - self.start.0, pointer.1 - self.start.1);
        let size = resized(self.edges, self.initial_window_size, drag);
        if size.w != self.last_window_size.w || size.h != self.last_window_size.h {
            self.last_window_size = size;
            Some(size)
        } else {
            None
        }
    }

    /// What commits of the window are held to once the button is up.
    pub fn released(&self) -> (r: ResizeState)
        ensures
            r == (ResizeState::WaitingForLastCommit {
                edges: self.edges,
                initial_window_location: self.initial_window_location,
                initial_window_size: self.initial_window_size,
            }),
    {
        ResizeState::WaitingForLastCommit {
            edges: self.edges,
            initial_window_location: self.initial_window_location,
            initial_window_size: self.initial_window_size,
        }
    }
}

/// A window that is being moved by the pointer.
#[derive(Clone, Copy, Debug)]
pub struct MoveSurfaceGrab {
    /// Where the pointer was at the start, on the canvas in units.
    pub start: (i64, i64),
    pub initial_window_location: Point,
}

impl MoveSurfaceGrab {
    /// Starts to move a window.
    pub fn new(start: (i64, i64), location: Point) -> (r: MoveSurfaceGrab)
        ensures
            r == (MoveSurfaceGrab { start, initial_window_location: location }),
    {
        MoveSurfaceGrab { start, initial_window_location: location }
    }

    /// Where the window goes when the pointer is at a place.
    pub fn motion(&self, pointer: (i64, i64)) -> (r: Point)
        requires
            in_range(self.start.0),
            in_range(self.start.1),
            in_range(pointer.0),
            in_range(pointer.1),
        ensures
            r == dragged_to(
                self.initial_window_location,
                (pointer.0 - self.start.0, pointer.1 - self.start.1),
            ),
    {
        moved(
            self.initial_window_location,
            (pointer.0 - self.start.0, pointer.1 - self.start.1),
        )
    }
}

/// A window that is dragged back to where the pointer was is back where it
/// was, and so is its size.
pub proof fn dragging_back_returns(grab: ResizeSurfaceGrab, location: Point)
    requires
        grab.initial_window_size.w >= 1,
        grab.initial_window_size.h >= 1,
    ensures
        grab.size_at(grab.start) == grab.initial_window_size,
        dragged_to(location, (0, 0)) == location,
{
}

/// Cursors of a resize.
#[derive(Clone, Copy, Debug, PartialEq, Eq, Structural)]
pub enum CursorIcon {
    Default,
    Wait,
    NResize,
    SResize,
    WResize,
    EResize,
    NwResize,
    NeResize,
    SwResize,
    SeResize,
}

/// The cursor that points the way of the edges.
pub open spec fn edge_cursor(edges: ResizeEdge) -> CursorIcon {
    match edges {
        ResizeEdge::Top => CursorIcon::NResize,
        ResizeEdge::Bottom => CursorIcon::SResize,
        ResizeEdge::Left => CursorIcon::WResize,
        ResizeEdge::Right => CursorIcon::EResize,
        ResizeEdge::TopLeft => CursorIcon::NwResize,
        ResizeEdge::TopRight => CursorIcon::NeResize,
        ResizeEdge::BottomLeft => CursorIcon::SwResize,
        ResizeEdge::BottomRight => CursorIcon::SeResize,
        ResizeEdge::Empty => CursorIcon::Default,
    }
}

/// The cursor for a resize at these edges.
pub fn resize_cursor(edges: ResizeEdge) -> (r: CursorIcon)
    ensures
        r == edge_cursor(edges),
{
    match edges {
        ResizeEdge::Top => CursorIcon::NResize,
        ResizeEdge::Bottom => CursorIcon::SResize,
        ResizeEdge::Left => CursorIcon::WResize,
        ResizeEdge::Right => CursorIcon::EResize,
        ResizeEdge::TopLeft => CursorIcon::NwResize,
        ResizeEdge::TopRight => CursorIcon::NeResize,
        ResizeEdge::BottomLeft => CursorIcon::SwResize,
        ResizeEdge::BottomRight => CursorIcon::SeResize,
        ResizeEdge::Empty => CursorIcon::Default,
    }
}

/// Where a dragged window goes: its place at the start, moved by whole pixels.
pub open spec fn dragged_to(start: Point, drag: (int, int)) -> Point {
    Point {
        x: clamp_i32(start.x + clamp_i32(trunc_pixels(drag.0))) as i32,
        y: clamp_i32(start.y + clamp_i32(trunc_pixels(drag.1))) as i32,
    }
}

/// Where a dragged window goes.
pub fn moved(start: Point, drag: (i64, i64)) -> (r: Point)
    requires
        drag.0 > i64::MIN,
        drag.1 > i64::MIN,
    ensures
        r == dragged_to(start, (drag.0 as int, drag.1 as int)),
{
    Point {
        x: saturate_i32(start.x as i64 + trunc_to_pixels(drag.0) as i64),
        y: saturate_i32(start.y as i64 + trunc_to_pixels(drag.1) as i64),
    }
}

/// Distance in pixels from which a press counts as a drag.
pub const CLICK_THRESHOLD: i64 = 5;

/// Whether two screen positions are far enough apart for a drag.
pub open spec fn is_drag(start: (i64, i64), now: (i64, i64)) -> bool {
    let dx = now.0 - start.0;
    let dy = now.1 - start.1;
    let threshold = CLICK_THRESHOLD * UNITS_PER_PIXEL;
    dx * dx + dy * dy >= threshold * threshold
}

/// A drag on the canvas. Until it has gone far enough it may still be a click.
#[derive(Clone, Copy, Debug)]
pub struct PanGrab {
    /// Screen positions in units.
    pub last_screen_pos: (i64, i64),
    pub start_screen_pos: (i64, i64),
    /// Whether it started on the empty canvas.
    pub from_empty_canvas: bool,
    pub dragged: bool,
}

impl PanGrab {
    pub open spec fn wf(self) -> bool {
        &&& in_range(self.last_screen_pos.0) && in_range(self.last_screen_pos.1)
        &&& in_range(self.start_screen_pos.0) && in_range(self.start_screen_pos.1)
    }

    /// Starts a drag.
    pub fn new(screen_pos: (i64, i64), from_empty_canvas: bool) -> (r: PanGrab)
        ensures
            r == (PanGrab {
                last_screen_pos: screen_pos,
                start_screen_pos: screen_pos,
                from_empty_canvas,
                dragged: false,
            }),
    {
        PanGrab {
            last_screen_pos: screen_pos,
            start_screen_pos: screen_pos,
            from_empty_canvas,
            dragged: false,
        }
    }

    /// Follows the pointer to a screen position. Returns how far the camera
    /// moves: against the pointer.
    pub fn motion(&mut self, screen_pos: (i64, i64)) -> (r: (i64, i64))
        requires
            old(self).wf(),
            in_range(screen_pos.0),
            in_range(screen_pos.1),
        ensures
            r.0 == old(self).last_screen_pos.0 - screen_pos.0,
            r.1 == old(self).last_screen_pos.1 - screen_pos.1,
            *final(self) == (PanGrab {
                last_screen_pos: screen_pos,
                start_screen_pos: old(self).start_screen_pos,
                from_empty_canvas: old(self).from_empty_canvas,
                dragged: old(self).dragged || is_drag(old(self).start_screen_pos, screen_pos),
            }),
            final(self).wf(),
    {
        let camera: (i64, i64) = (
            self.last_screen_pos.0 - screen_pos.0,
            self.last_screen_pos.1 - screen_pos.1,
        );
        self.last_screen_pos = screen_pos;
        if !self.dragged {
            let dx: i128 = screen_pos.0 as i128 - self.start_screen_pos.0 as i128;
            let dy: i128 = screen_pos.1 as i128 - self.start_screen_pos.1 as i128;
            proof {
                let lim = 0x2000_0000_0000_0000int;
                assert(0 <= dx * dx <= lim * lim) by (nonlinear_arith)
                    requires
                        -lim <= dx <= lim,
                ;
                assert(0 <= dy * dy <= lim * lim) by (nonlinear_arith)
                    requires
                        -lim <= dy <= lim,
                ;
                assert(lim * lim == 0x0400_0000_0000_0000_0000_0000_0000_0000) by (nonlinear_arith)
                    requires
                        lim == 0x2000_0000_0000_0000,
                ;
                assert(CLICK_THRESHOLD * UNITS_PER_PIXEL == 160_000);
                assert((CLICK_THRESHOLD * UNITS_PER_PIXEL) * (CLICK_THRESHOLD * UNITS_PER_PIXEL)
                    == 25_600_000_000) by (nonlinear_arith)
                    requires
                        CLICK_THRESHOLD * UNITS_PER_PIXEL == 160_000,
                ;
            }
            if dx * dx + dy * dy >= 25_600_000_000 {
                self.dragged = true;
            }
        }
        camera
    }

    /// Whether releasing the button takes the focus away: a click on the empty
    /// canvas does, a drag does not.
    pub fn unfocuses(&self) -> (r: bool)
        ensures
            r == (self.from_empty_canvas && !self.dragged),
    {
        self.from_empty_canvas && !self.dragged
    }
}

} // verus!
