//! Positions on the canvas and the way from window to window.

use crate::canvas::{CanvasPos, NavWindow, ScreenPos};
use crate::config::types::Direction;
use crate::desk::NavTarget;
use vstd::prelude::*;

verus! {

use crate::canvas::{
    anchor_targets,
    are_bounds,
    centering,
    closest_on,
    eligible,
    in_cone,
    is_closest_window,
    is_nearest,
    on_canvas,
    on_screen,
    origin_within,
    squared_distance,
    targets,
    window_targets,
};
use crate::units::magnitude;

/// The camera is at the top left corner of the screen, and what is seen moves
/// as far on the canvas as on the screen.
pub proof fn camera_is_the_corner(corner: ScreenPos, a: ScreenPos, camera: CanvasPos)
    requires
        corner.x == 0,
        corner.y == 0,
    ensures
        on_canvas(corner, camera) == (camera.x as int, camera.y as int),
        on_screen(camera, camera) == (0int, 0int),
        on_canvas(a, camera).0 - on_canvas(corner, camera).0 == a.x,
        on_canvas(a, camera).1 - on_canvas(corner, camera).1 == a.y,
{
}

/// A centered window has the same margin on both sides.
pub proof fn centering_leaves_equal_margins(at: int, length: int, viewport: int)
    ensures
        ({
            let camera = centering(at, length, viewport);
            32_000 * at - camera == (camera + 32_000 * viewport) - 32_000 * (at + length)
        }),
{
}

/// The origin is in sight where it lies between the two ends of the screen, and
/// at home it is in the middle.
pub proof fn origin_is_in_sight(camera: int, viewport: int)
    ensures
        origin_within(camera, viewport) <==> camera <= 0 && 0 <= camera + 32_000 * viewport,
        0 - centering(0, 0, viewport) == (centering(0, 0, viewport) + 32_000 * viewport) - 0,
{
}

/// Whether something `dx` to the right and `dy` below lies ahead: within half a
/// right angle of the direction.
pub open spec fn lies_ahead(dir: Direction, dx: int, dy: int) -> bool {
    match dir {
        Direction::Right => dx > 0 && -dx <= dy && dy <= dx,
        Direction::Left => dx < 0 && dx <= dy && dy <= -dx,
        Direction::Down => dy > 0 && -dy <= dx && dx <= dy,
        Direction::Up => dy < 0 && dy <= dx && dx <= -dy,
        Direction::DownRight => dx >= 0 && dy >= 0 && dx + dy > 0,
        Direction::DownLeft => dx <= 0 && dy >= 0 && dy - dx > 0,
        Direction::UpRight => dx >= 0 && dy <= 0 && dx - dy > 0,
        Direction::UpLeft => dx <= 0 && dy <= 0 && dx + dy < 0,
    }
}

/// The names of the directions: right is where x grows, down is where y grows.
pub proof fn directions_head_where_they_say(dir: Direction)
    ensures
        dir.heading().0 > 0 <==> dir is Right || dir is UpRight || dir is DownRight,
        dir.heading().0 < 0 <==> dir is Left || dir is UpLeft || dir is DownLeft,
        dir.heading().1 > 0 <==> dir is Down || dir is DownLeft || dir is DownRight,
        dir.heading().1 < 0 <==> dir is Up || dir is UpLeft || dir is UpRight,
        -1 <= dir.heading().0 <= 1,
        -1 <= dir.heading().1 <= 1,
        dir.is_diagonal() <==> dir is UpLeft || dir is UpRight || dir is DownLeft || dir is DownRight,
{
}

/// The cone of a direction holds what lies ahead.
pub proof fn cones_hold_what_lies_ahead(dir: Direction, dx: int, dy: int)
    ensures
        in_cone(dx, dy, dir.heading()) == lies_ahead(dir, dx, dy),
{
}

/// The distance that decides is the Euclidean one: it does not change when x
/// and y trade places or when the two ends do, it is zero only between equal
/// positions, and along each axis it is the square of the way.
pub proof fn distance_is_euclidean(a: CanvasPos, b: CanvasPos)
    ensures
        squared_distance(a, b) == squared_distance(b, a),
        squared_distance(a, b) == squared_distance(
            CanvasPos { x: a.y, y: a.x },
            CanvasPos { x: b.y, y: b.x },
        ),
        squared_distance(a, b) >= 0,
        squared_distance(a, b) == 0 <==> a == b,
        a.y == b.y ==> squared_distance(a, b) == (b.x - a.x) * (b.x - a.x),
        a.x == b.x ==> squared_distance(a, b) == (b.y - a.y) * (b.y - a.y),
{
    let dx = b.x - a.x;
    let dy = b.y - a.y;
    assert((-dx) * (-dx) == dx * dx) by (nonlinear_arith);
    assert((-dy) * (-dy) == dy * dy) by (nonlinear_arith);
    assert(dx * dx >= 0) by (nonlinear_arith);
    assert(dy * dy >= 0) by (nonlinear_arith);
    assert(dx != 0 ==> dx * dx > 0) by (nonlinear_arith);
    assert(dy != 0 ==> dy * dy > 0) by (nonlinear_arith);
    assert(dx == 0 ==> dx * dx == 0) by (nonlinear_arith);
    assert(dy == 0 ==> dy * dy == 0) by (nonlinear_arith);
    assert(squared_distance(b, a) == (-dx) * (-dx) + (-dy) * (-dy));
}

/// What is found in a direction lies ahead and is not left out, and nothing
/// else that lies ahead is closer, as the crow flies; of several as close it is
/// the first.
pub proof fn nothing_ahead_is_closer(
    origin: CanvasPos,
    dir: Direction,
    items: Seq<(u64, CanvasPos)>,
    skip: Option<u64>,
    k: int,
    j: int,
)
    requires
        is_nearest(origin, dir, items, skip, items.len() as int, k),
        0 <= j < items.len(),
        skip != Some(items[j].0),
        lies_ahead(dir, items[j].1.x - origin.x, items[j].1.y - origin.y),
    ensures
        0 <= k < items.len(),
        skip != Some(items[k].0),
        lies_ahead(dir, items[k].1.x - origin.x, items[k].1.y - origin.y),
        ({
            let (dx, dy) = (items[k].1.x - origin.x, items[k].1.y - origin.y);
            let (ex, ey) = (items[j].1.x - origin.x, items[j].1.y - origin.y);
            &&& dx * dx + dy * dy <= ex * ex + ey * ey
            &&& j < k ==> dx * dx + dy * dy < ex * ex + ey * ey
        }),
{
    cones_hold_what_lies_ahead(dir, items[k].1.x - origin.x, items[k].1.y - origin.y);
    cones_hold_what_lies_ahead(dir, items[j].1.x - origin.x, items[j].1.y - origin.y);
    assert(eligible(origin, dir, items[j], skip));
}

/// What lies ahead and is not left out can be found, and nothing else can.
pub proof fn only_what_lies_ahead_is_found(
    origin: CanvasPos,
    dir: Direction,
    item: (u64, CanvasPos),
    skip: Option<u64>,
)
    ensures
        eligible(origin, dir, item, skip) <==> lies_ahead(
            dir,
            item.1.x - origin.x,
            item.1.y - origin.y,
        ) && skip != Some(item.0),
{
    cones_hold_what_lies_ahead(dir, item.1.x - origin.x, item.1.y - origin.y);
}

/// The middle of a window is as far from its left edge as from its right one,
/// and as far from its top as from its bottom.
pub proof fn middle_is_halfway(w: NavWindow)
    ensures
        w.middle().x - 32_000 * w.location.x == 32_000 * (w.location.x + w.size.w) - w.middle().x,
        w.middle().y - 32_000 * w.location.y == 32_000 * (w.location.y + w.size.h) - w.middle().y,
{
}

/// Whether a position lies on a window, edges included.
pub open spec fn lies_on(w: NavWindow, at: CanvasPos) -> bool {
    &&& 32_000 * w.location.x <= at.x && at.x <= 32_000 * (w.location.x + w.size.w)
    &&& 32_000 * w.location.y <= at.y && at.y <= 32_000 * (w.location.y + w.size.h)
}

proof fn closer_along_an_axis(a: int, b: int)
    requires
        magnitude(a) <= magnitude(b),
    ensures
        a * a <= b * b,
{
    assert(a * a == magnitude(a) * magnitude(a)) by (nonlinear_arith)
        requires
            magnitude(a) == a || magnitude(a) == -a,
    ;
    assert(b * b == magnitude(b) * magnitude(b)) by (nonlinear_arith)
        requires
            magnitude(b) == b || magnitude(b) == -b,
    ;
    assert(magnitude(a) * magnitude(a) <= magnitude(b) * magnitude(b)) by (nonlinear_arith)
        requires
            0 <= magnitude(a) <= magnitude(b),
    ;
}

/// A window is gone to by the point of it that is closest, as the crow flies;
/// from within, by its middle.
pub proof fn windows_are_gone_to_by_their_closest_point(w: NavWindow, origin: CanvasPos, at: CanvasPos)
    requires
        origin.wf(),
        w.size.w >= 0,
        w.size.h >= 0,
        lies_on(w, at),
    ensures
        lies_on(w, origin) ==> w.point_towards(origin) == w.middle(),
        !lies_on(w, origin) ==> lies_on(w, w.point_towards(origin)),
        !lies_on(w, origin) ==> {
            let p = w.point_towards(origin);
            let (dx, dy) = (p.x - origin.x, p.y - origin.y);
            let (ex, ey) = (at.x - origin.x, at.y - origin.y);
            dx * dx + dy * dy <= ex * ex + ey * ey
        },
{
    let p = w.point_towards(origin);
    if !lies_on(w, origin) {
        let x = closest_on(w.location.x as int, w.size.w as int, origin.x as int);
        let y = closest_on(w.location.y as int, w.size.h as int, origin.y as int);
        assert(p.x == x && p.y == y);
        closer_along_an_axis(p.x - origin.x, at.x - origin.x);
        closer_along_an_axis(p.y - origin.y, at.y - origin.y);
    }
}

/// The window that is closest to a position is one that can be gone to, and the
/// middle of no other such window is closer, as the crow flies.
pub proof fn no_middle_is_closer(center: CanvasPos, windows: Seq<NavWindow>, k: int, j: int)
    requires
        is_closest_window(center, windows, windows.len() as int, k),
        0 <= j < windows.len(),
        !windows[j].widget,
        !windows[j].no_focus,
    ensures
        0 <= k < windows.len(),
        !windows[k].widget,
        !windows[k].no_focus,
        ({
            let (a, b) = (windows[k].middle(), windows[j].middle());
            let (dx, dy) = (a.x - center.x, a.y - center.y);
            let (ex, ey) = (b.x - center.x, b.y - center.y);
            &&& dx * dx + dy * dy <= ex * ex + ey * ey
            &&& j < k ==> dx * dx + dy * dy < ex * ex + ey * ey
        }),
{
    assert(windows[j].reachable());
}

/// Widgets and windows that take no focus cannot be gone to; all others can.
pub proof fn reachable_windows_take_focus(w: NavWindow)
    ensures
        w.reachable() <==> !w.widget && !w.no_focus,
{
}

/// Every window that can be gone to and is not left out is among the targets,
/// by its closest point, and so is every anchor, where it is.
pub proof fn every_target_is_listed(
    origin: CanvasPos,
    windows: Seq<NavWindow>,
    anchors: Seq<(i64, i64)>,
    skip: Option<u64>,
    k: int,
    a: int,
)
    requires
        0 <= k < windows.len(),
        0 <= a < anchors.len(),
    ensures
        !windows[k].widget && !windows[k].no_focus && skip != Some(windows[k].id) ==> targets(
            origin,
            windows,
            anchors,
            skip,
        ).contains((NavTarget::Window(windows[k].id), windows[k].point_towards(origin))),
        targets(origin, windows, anchors, skip).contains(
            (
                NavTarget::Anchor(anchors[a].0, anchors[a].1),
                CanvasPos { x: anchors[a].0, y: anchors[a].1 },
            ),
        ),
{
    let of_windows = window_targets(origin, windows, skip, windows.len());
    let of_anchors = anchor_targets(anchors, anchors.len());
    let all = targets(origin, windows, anchors, skip);
    if windows[k].reachable() && skip != Some(windows[k].id) {
        let i = window_is_listed(origin, windows, skip, windows.len(), k);
        assert(all[i] == of_windows[i]);
    }
    anchors_are_listed(anchors, anchors.len());
    assert(all[of_windows.len() + a] == of_anchors[a]);
}

proof fn window_is_listed(
    origin: CanvasPos,
    windows: Seq<NavWindow>,
    skip: Option<u64>,
    n: nat,
    k: int,
) -> (i: int)
    requires
        0 <= k < n <= windows.len(),
        windows[k].reachable(),
        skip != Some(windows[k].id),
    ensures
        0 <= i < window_targets(origin, windows, skip, n).len(),
        window_targets(origin, windows, skip, n)[i] == (
            NavTarget::Window(windows[k].id),
            windows[k].point_towards(origin),
        ),
    decreases n,
{
    if k == n - 1 {
        window_targets(origin, windows, skip, (n - 1) as nat).len() as int
    } else {
        window_is_listed(origin, windows, skip, (n - 1) as nat, k)
    }
}

proof fn anchors_are_listed(anchors: Seq<(i64, i64)>, n: nat)
    requires
        n <= anchors.len(),
    ensures
        anchor_targets(anchors, n).len() == n,
        forall|a: int|
            0 <= a < n ==> #[trigger] anchor_targets(anchors, n)[a] == (
                NavTarget::Anchor(anchors[a].0, anchors[a].1),
                CanvasPos { x: anchors[a].0, y: anchors[a].1 },
            ),
    decreases n,
{
    if n > 0 {
        anchors_are_listed(anchors, (n - 1) as nat);
    }
}

/// The bounds of the windows hold every window that can be gone to, whole, and
/// no smaller ones do.
pub proof fn bounds_hold_all_and_no_more(
    windows: Seq<NavWindow>,
    b: (int, int, int, int),
    other: (int, int, int, int),
    k: int,
)
    requires
        are_bounds(windows, windows.len() as int, b.0, b.1, b.2, b.3),
        forall|i: int|
            0 <= i < windows.len() && !(#[trigger] windows[i]).widget && !windows[i].no_focus
                ==> other.0 <= windows[i].location.x && other.1 <= windows[i].location.y
                && windows[i].location.x + windows[i].size.w <= other.2 && windows[i].location.y
                + windows[i].size.h <= other.3,
        0 <= k < windows.len(),
        !windows[k].widget,
        !windows[k].no_focus,
    ensures
        b.0 <= windows[k].location.x,
        b.1 <= windows[k].location.y,
        windows[k].location.x + windows[k].size.w <= b.2,
        windows[k].location.y + windows[k].size.h <= b.3,
        other.0 <= b.0,
        other.1 <= b.1,
        b.2 <= other.2,
        b.3 <= other.3,
{
    assert(windows[k].reachable());
}

/// The box around the windows holds every window that can be gone to, as far as
/// a box can reach, and begins where one of them does.
pub proof fn the_box_holds_every_window(windows: Seq<NavWindow>, b: crate::geometry::Rect, k: int)
    requires
        crate::canvas::is_bbox(windows, b),
        0 <= k < windows.len(),
        !windows[k].widget,
        !windows[k].no_focus,
    ensures
        b.loc.x <= windows[k].location.x,
        b.loc.y <= windows[k].location.y,
        b.size.w < i32::MAX ==> windows[k].location.x + windows[k].size.w <= b.loc.x + b.size.w,
        b.size.h < i32::MAX ==> windows[k].location.y + windows[k].size.h <= b.loc.y + b.size.h,
        exists|i: int|
            0 <= i < windows.len() && (#[trigger] windows[i]).location.x == b.loc.x
                && !windows[i].widget && !windows[i].no_focus,
        exists|i: int|
            0 <= i < windows.len() && (#[trigger] windows[i]).location.y == b.loc.y
                && !windows[i].widget && !windows[i].no_focus,
        i32::MIN < b.size.w < i32::MAX ==> exists|i: int|
            0 <= i < windows.len() && (#[trigger] windows[i]).location.x + windows[i].size.w
                == b.loc.x + b.size.w,
        i32::MIN < b.size.h < i32::MAX ==> exists|i: int|
            0 <= i < windows.len() && (#[trigger] windows[i]).location.y + windows[i].size.h
                == b.loc.y + b.size.h,
{
    assert(windows[k].reachable());
}

/// Targets keep their points when they are numbered.
pub proof fn numbers_are_places(list: Seq<(crate::desk::NavTarget, CanvasPos)>, k: int)
    requires
        0 <= k < list.len() <= u64::MAX,
    ensures
        crate::canvas::numbered(list).len() == list.len(),
        crate::canvas::numbered(list)[k].0 == k,
        crate::canvas::numbered(list)[k].1 == list[k].1,
{
}

} // verus!
