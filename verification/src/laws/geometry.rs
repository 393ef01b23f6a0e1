//! Numbers, rectangles, turned outputs and edges.

use crate::config::types::Transform;
use crate::geometry::{Rect, ResizeEdge, Size};
use vstd::prelude::*;

verus! {

use crate::geometry::edge_of;
use crate::units::{
    ceil_pixels,
    clamp_i32,
    floor_pixels,
    from_pixels,
    magnitude,
    trunc_pixels,
};

/// The magnitude of a number is the number or its negative, whichever is not
/// below zero.
pub proof fn magnitude_drops_the_sign(v: int, w: int)
    ensures
        magnitude(v) >= 0,
        magnitude(v) == v || magnitude(v) == -v,
        magnitude(v) == magnitude(w) <==> v == w || v == -w,
{
}

/// Holding a number in the `i32` range changes it no more than it has to, and
/// keeps the order.
pub proof fn clamping_goes_no_farther(v: int, w: int, inside: int)
    requires
        -0x8000_0000 <= inside <= 0x7fff_ffff,
    ensures
        -0x8000_0000 <= clamp_i32(v) <= 0x7fff_ffff,
        clamp_i32(inside) == inside,
        magnitude(v - clamp_i32(v)) <= magnitude(v - inside),
        v <= w ==> clamp_i32(v) <= clamp_i32(w),
{
}

/// A pixel is 32000 units, and the three ways to round to pixels differ in
/// where they put a fraction: down, up, or towards zero.
pub proof fn pixels_are_rounded(p: int, v: int)
    ensures
        from_pixels(p) == 32_000 * p,
        32_000 * floor_pixels(v) <= v < 32_000 * floor_pixels(v) + 32_000,
        32_000 * ceil_pixels(v) - 32_000 < v <= 32_000 * ceil_pixels(v),
        magnitude(32_000 * trunc_pixels(v)) <= magnitude(v),
        magnitude(v - 32_000 * trunc_pixels(v)) < 32_000,
        trunc_pixels(-v) == -trunc_pixels(v),
{
}

/// Whether a rectangle ends inside the `i32` range.
pub open spec fn ends_in_range(r: Rect) -> bool {
    r.loc.x + r.size.w <= i32::MAX && r.loc.y + r.size.h <= i32::MAX && r.size.w >= 0 && r.size.h
        >= 0
}

/// A rectangle holds the points from its corner on, as many as it is wide and
/// high.
pub proof fn rectangles_hold_their_points(r: Rect, x: int, y: int)
    requires
        ends_in_range(r),
    ensures
        r.holds(x, y) <==> r.loc.x <= x && x < r.loc.x + r.size.w && r.loc.y <= y && y < r.loc.y
            + r.size.h,
{
}

/// Two rectangles that are not empty meet exactly where they have a point in
/// common, and it does not matter which of them is asked.
pub proof fn rectangles_meet_at_points(a: Rect, b: Rect)
    requires
        ends_in_range(a),
        ends_in_range(b),
        a.size.w > 0,
        a.size.h > 0,
        b.size.w > 0,
        b.size.h > 0,
    ensures
        a.meets(b) == b.meets(a),
        a.meets(b) <==> exists|x: int, y: int| #[trigger] a.holds(x, y) && b.holds(x, y),
        a.meets(b) ==> a.shared(b) == b.shared(a),
        a.meets(b) ==> ends_in_range(a.shared(b)),
        a.meets(b) ==> a.shared(b).size.w > 0 && a.shared(b).size.h > 0,
        a.shared(a) == a,
{
    let x = if a.loc.x >= b.loc.x {
        a.loc.x as int
    } else {
        b.loc.x as int
    };
    let y = if a.loc.y >= b.loc.y {
        a.loc.y as int
    } else {
        b.loc.y as int
    };
    if a.meets(b) {
        assert(a.holds(x, y) && b.holds(x, y));
    }
}

/// Whether a rectangle lies within an area.
pub open spec fn lies_within(r: Rect, area: Size) -> bool {
    &&& 0 <= r.loc.x && 0 <= r.loc.y && 0 <= r.size.w && 0 <= r.size.h
    &&& r.loc.x + r.size.w <= area.w
    &&& r.loc.y + r.size.h <= area.h
}

/// Whether `to` is where a turn puts `from`.
pub open spec fn turns_into(t: Transform, from: Rect, area: Size, to: Rect) -> bool {
    (to.loc.x as int, to.loc.y as int) == t.placed(from, area) && to.size == t.turned(from.size)
}

/// A quarter turn carries what lies at the top left corner to the top right
/// corner, and the sides trade places.
pub proof fn quarter_turns_go_clockwise(area: Size, from: Rect, to: Rect)
    requires
        lies_within(from, area),
        turns_into(Transform::Rotated90, from, area, to),
    ensures
        Transform::Rotated90.turned(area) == (Size { w: area.h, h: area.w }),
        to.size == (Size { w: from.size.h, h: from.size.w }),
        from.loc.y == 0 ==> to.loc.x + to.size.w == area.h,
        from.loc.x == 0 ==> to.loc.y == 0,
        lies_within(to, Size { w: area.h, h: area.w }),
{
}

/// Two quarter turns are a half turn, and three are the last one.
pub proof fn quarter_turns_add_up(area: Size, from: Rect, once: Rect, twice: Rect, thrice: Rect, all: Rect)
    requires
        lies_within(from, area),
        turns_into(Transform::Rotated90, from, area, once),
        turns_into(Transform::Rotated90, once, Size { w: area.h, h: area.w }, twice),
        turns_into(Transform::Rotated90, twice, area, thrice),
        turns_into(Transform::Rotated90, thrice, Size { w: area.h, h: area.w }, all),
    ensures
        turns_into(Transform::Rotated180, from, area, twice),
        turns_into(Transform::Rotated270, from, area, thrice),
        turns_into(Transform::Normal, from, area, all),
        all == from,
{
}

/// A flip trades left and right and nothing else. A flipped turn is the flip,
/// then the turn.
pub proof fn flips_trade_left_and_right(area: Size, from: Rect, flipped: Rect, turned: Rect, back: Rect)
    requires
        lies_within(from, area),
        turns_into(Transform::Flipped, from, area, flipped),
        turns_into(Transform::Flipped, flipped, area, back),
    ensures
        flipped.size == from.size,
        flipped.loc.y == from.loc.y,
        flipped.loc.x == area.w - (from.loc.x + from.size.w),
        back == from,
        turns_into(Transform::Rotated90, flipped, area, turned) <==> turns_into(
            Transform::Flipped90,
            from,
            area,
            turned,
        ),
        turns_into(Transform::Rotated180, flipped, area, turned) <==> turns_into(
            Transform::Flipped180,
            from,
            area,
            turned,
        ),
        turns_into(Transform::Rotated270, flipped, area, turned) <==> turns_into(
            Transform::Flipped270,
            from,
            area,
            turned,
        ),
{
}

/// The inverse of a turn is the turn that comes after it to a full one. Flips
/// keep the size of what they flip, and quarter turns trade the sides.
pub proof fn inverses_complete_the_turn(size: Size)
    ensures
        Transform::Normal.undoing() == Transform::Normal,
        Transform::Rotated90.undoing() == Transform::Rotated270,
        Transform::Rotated180.undoing() == Transform::Rotated180,
        Transform::Rotated270.undoing() == Transform::Rotated90,
        Transform::Normal.turned(size) == size,
        Transform::Rotated180.turned(size) == size,
        Transform::Flipped.turned(size) == size,
        Transform::Flipped180.turned(size) == size,
        Transform::Rotated270.turned(size) == (Size { w: size.h, h: size.w }),
        Transform::Flipped90.turned(size) == (Size { w: size.h, h: size.w }),
        Transform::Flipped270.turned(size) == (Size { w: size.h, h: size.w }),
{
}

/// The edges that are asked for are the edges that come back, wherever no two
/// opposite ones are asked for. There is none where none is asked for.
pub proof fn edges_are_the_ones_asked_for(left: bool, right: bool, top: bool, bottom: bool)
    requires
        !(left && right),
        !(top && bottom),
    ensures
        edge_of(left, right, top, bottom) is None <==> !left && !right && !top && !bottom,
        edge_of(left, right, top, bottom) matches Some(e) ==> e.is_left() == left && e.is_right()
            == right && e.is_top() == top && e.is_bottom() == bottom,
{
}

/// Each name of an edge says where it lies.
pub proof fn edges_lie_where_they_say(e: ResizeEdge)
    ensures
        e == ResizeEdge::Left ==> e.is_left() && !e.is_right() && !e.is_top() && !e.is_bottom(),
        e == ResizeEdge::Right ==> !e.is_left() && e.is_right() && !e.is_top() && !e.is_bottom(),
        e == ResizeEdge::Top ==> !e.is_left() && !e.is_right() && e.is_top() && !e.is_bottom(),
        e == ResizeEdge::Bottom ==> !e.is_left() && !e.is_right() && !e.is_top() && e.is_bottom(),
        e == ResizeEdge::TopLeft ==> e.is_left() && !e.is_right() && e.is_top() && !e.is_bottom(),
        e == ResizeEdge::TopRight ==> !e.is_left() && e.is_right() && e.is_top() && !e.is_bottom(),
        e == ResizeEdge::BottomLeft ==> e.is_left() && !e.is_right() && !e.is_top()
            && e.is_bottom(),
        e == ResizeEdge::BottomRight ==> !e.is_left() && e.is_right() && !e.is_top()
            && e.is_bottom(),
        e == ResizeEdge::Empty ==> !e.is_left() && !e.is_right() && !e.is_top() && !e.is_bottom(),
{
}

/// The number of an edge is one for the top, two for the bottom, four for the
/// left and eight for the right, added up.
pub proof fn edges_are_numbered_by_their_sides(e: ResizeEdge)
    ensures
        e.bits() == (if e.is_top() {
            1int
        } else {
            0
        }) + (if e.is_bottom() {
            2int
        } else {
            0
        }) + (if e.is_left() {
            4int
        } else {
            0
        }) + (if e.is_right() {
            8int
        } else {
            0
        }),
{
}

/// A rectangle inside an area stays inside it, wherever the area is turned to,
/// and its distances from the edges are those it had.
pub proof fn turned_rectangles_stay_inside(t: Transform, rect: Rect, area: Size)
    requires
        0 <= rect.loc.x,
        0 <= rect.loc.y,
        rect.loc.x + rect.size.w <= area.w,
        rect.loc.y + rect.size.h <= area.h,
    ensures
        ({
            let (x, y) = t.placed(rect, area);
            let size = t.turned(rect.size);
            let all = t.turned(area);
            &&& 0 <= x && x + size.w <= all.w
            &&& 0 <= y && y + size.h <= all.h
        }),
{
}

} // verus!
