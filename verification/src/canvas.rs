//! The infinite canvas: positions on it and on the screen, and the way from
//! one window to the next.
//!
//! Coordinates are in units. Positions on the screen are taken at zoom one.

use crate::config::types::Direction;
use crate::desk::NavTarget;
use crate::geometry::{Point, Rect, Size};
use crate::units::{pixels, saturate_i32};
use vstd::prelude::*;

verus! {

use crate::units::{clamp_i32, from_pixels, in_range, magnitude};

/// A position on an output, counted from its top left corner.
#[derive(Clone, Copy, Debug, PartialEq, Eq, Structural)]
pub struct ScreenPos {
    pub x: i64,
    pub y: i64,
}

/// A position on the canvas.
#[derive(Clone, Copy, Debug, PartialEq, Eq, Structural)]
pub struct CanvasPos {
    pub x: i64,
    pub y: i64,
}

impl ScreenPos {
    pub open spec fn wf(self) -> bool {
        in_range(self.x) && in_range(self.y)
    }
}

impl CanvasPos {
    pub open spec fn wf(self) -> bool {
        in_range(self.x) && in_range(self.y)
    }
}

/// The canvas position under a screen position.
pub open spec fn on_canvas(screen: ScreenPos, camera: CanvasPos) -> (int, int) {
    (screen.x + camera.x, screen.y + camera.y)
}

/// The screen position above a canvas position.
pub open spec fn on_screen(canvas: CanvasPos, camera: CanvasPos) -> (int, int) {
    (canvas.x - camera.x, canvas.y - camera.y)
}

/// The canvas position under a screen position.
pub fn screen_to_canvas(screen: ScreenPos, camera: CanvasPos) -> (r: CanvasPos)
    requires
        screen.wf(),
        camera.wf(),
    ensures
        (r.x as int, r.y as int) == on_canvas(screen, camera),
{
    CanvasPos { x: screen.x + camera.x, y: screen.y + camera.y }
}

/// The screen position above a canvas position.
pub fn canvas_to_screen(canvas: CanvasPos, camera: CanvasPos) -> (r: ScreenPos)
    requires
        canvas.wf(),
        camera.wf(),
    ensures
        (r.x as int, r.y as int) == on_screen(canvas, camera),
{
    ScreenPos { x: canvas.x - camera.x, y: canvas.y - camera.y }
}

/// A position that is taken to the canvas and back, or to the screen and back,
/// is where it was.
pub proof fn there_and_back(screen: ScreenPos, canvas: CanvasPos, camera: CanvasPos)
    ensures
        forall|c: CanvasPos|
            (c.x as int, c.y as int) == on_canvas(screen, camera) ==> #[trigger] on_screen(c, camera)
                == (screen.x as int, screen.y as int),
        forall|s: ScreenPos|
            (s.x as int, s.y as int) == on_screen(canvas, camera) ==> #[trigger] on_canvas(s, camera)
                == (canvas.x as int, canvas.y as int),
{
}

/// Twice the middle of a length that starts at a position, both in pixels.
pub open spec fn twice_middle(at: int, length: int) -> int {
    2 * at + length
}

/// Units in half a pixel.
pub const HALF_PIXEL: i64 = 16_000;

/// A camera coordinate for which a window's middle is the viewport's middle.
pub open spec fn centering(at: int, length: int, viewport: int) -> int {
    (twice_middle(at, length) - viewport) * HALF_PIXEL
}

fn center_axis(at: i32, length: i32, viewport: i32) -> (r: i64)
    ensures
        r == centering(at as int, length as int, viewport as int),
        in_range(r),
{
    (2 * at as i64 + length as i64 - viewport as i64) * HALF_PIXEL
}

/// The camera that puts the middle of a window into the middle of the viewport.
pub fn camera_to_center_window(window_loc: Point, window_size: Size, viewport_size: Size) -> (r:
    CanvasPos)
    ensures
        r.x == centering(window_loc.x as int, window_size.w as int, viewport_size.w as int),
        r.y == centering(window_loc.y as int, window_size.h as int, viewport_size.h as int),
        r.wf(),
{
    CanvasPos {
        x: center_axis(window_loc.x, window_size.w, viewport_size.w),
        y: center_axis(window_loc.y, window_size.h, viewport_size.h),
    }
}

/// A centered window has the same middle as the viewport.
pub proof fn centered_window_is_in_the_middle(at: int, length: int, viewport: int)
    ensures
        2 * centering(at, length, viewport) + from_pixels(viewport) == twice_middle(
            from_pixels(at),
            from_pixels(length),
        ),
{
}

/// Whether the origin lies between two edges that are `length` pixels apart.
pub open spec fn origin_within(camera: int, length: int) -> bool {
    camera <= 0 <= camera + from_pixels(length)
}

/// Whether the origin of the canvas is in sight.
pub fn is_origin_visible(camera: CanvasPos, viewport_size: Size) -> (r: bool)
    requires
        camera.wf(),
    ensures
        r == (origin_within(camera.x as int, viewport_size.w as int) && origin_within(
            camera.y as int,
            viewport_size.h as int,
        )),
{
    camera.x <= 0 && 0 <= camera.x + pixels(viewport_size.w) && camera.y <= 0 && 0 <= camera.y
        + pixels(viewport_size.h)
}

/// The camera that puts the origin of the canvas into the middle of the
/// viewport.
pub fn home_camera(viewport_size: Size) -> (r: CanvasPos)
    ensures
        r.x == centering(0, 0, viewport_size.w as int),
        r.y == centering(0, 0, viewport_size.h as int),
        r.wf(),
{
    CanvasPos { x: center_axis(0, 0, viewport_size.w), y: center_axis(0, 0, viewport_size.h) }
}

/// From home the origin is in sight.
pub proof fn home_shows_the_origin(viewport: int)
    requires
        viewport >= 0,
    ensures
        origin_within(centering(0, 0, viewport), viewport),
{
}

/// Whether an offset lies within 45 degrees of a heading.
pub open spec fn in_cone(dx: int, dy: int, heading: (int, int)) -> bool {
    let dot = dx * heading.0 + dy * heading.1;
    let cross = dx * heading.1 - dy * heading.0;
    dot > 0 && magnitude(cross) <= dot
}

/// The squared distance between two positions.
pub open spec fn squared_distance(from: CanvasPos, to: CanvasPos) -> int {
    (to.x - from.x) * (to.x - from.x) + (to.y - from.y) * (to.y - from.y)
}

/// Whether an item may be gone to: it is not the one to skip, and lies in the
/// direction.
pub open spec fn eligible(
    origin: CanvasPos,
    dir: Direction,
    item: (u64, CanvasPos),
    skip: Option<u64>,
) -> bool {
    &&& skip != Some(item.0)
    &&& in_cone(item.1.x - origin.x, item.1.y - origin.y, dir.heading())
}

/// Whether the item at a place is the first of the nearest eligible ones among
/// the first `n`.
pub open spec fn is_nearest(
    origin: CanvasPos,
    dir: Direction,
    items: Seq<(u64, CanvasPos)>,
    skip: Option<u64>,
    n: int,
    k: int,
) -> bool {
    &&& 0 <= k < n
    &&& eligible(origin, dir, items[k], skip)
    &&& forall|j: int|
        0 <= j < n && #[trigger] eligible(origin, dir, items[j], skip) ==> squared_distance(
            origin,
            items[k].1,
        ) <= squared_distance(origin, items[j].1)
    &&& forall|j: int|
        0 <= j < k && #[trigger] eligible(origin, dir, items[j], skip) ==> squared_distance(
            origin,
            items[k].1,
        ) < squared_distance(origin, items[j].1)
}

/// There is at most one first nearest item.
pub proof fn nearest_is_unique(
    origin: CanvasPos,
    dir: Direction,
    items: Seq<(u64, CanvasPos)>,
    skip: Option<u64>,
    n: int,
    a: int,
    b: int,
)
    requires
        is_nearest(origin, dir, items, skip, n, a),
        is_nearest(origin, dir, items, skip, n, b),
    ensures
        a == b,
{
    assert(eligible(origin, dir, items[a], skip));
    assert(eligible(origin, dir, items[b], skip));
}

fn bounded_difference(a: i64, b: i64) -> (r: i128)
    requires
        in_range(a),
        in_range(b),
    ensures
        r == a - b,
        -0x2000_0000_0000_0000 <= r <= 0x2000_0000_0000_0000,
{
    a as i128 - b as i128
}

fn square(v: i128) -> (r: i128)
    requires
        -0x2000_0000_0000_0000 <= v <= 0x2000_0000_0000_0000,
    ensures
        r == v * v,
        0 <= r <= 0x0400_0000_0000_0000_0000_0000_0000_0000,
{
    proof {
        let lim = 0x2000_0000_0000_0000int;
        assert(0 <= v * v <= lim * lim) by (nonlinear_arith)
            requires
                -lim <= v <= lim,
        ;
        assert(lim * lim == 0x0400_0000_0000_0000_0000_0000_0000_0000) by (nonlinear_arith)
            requires
                lim == 0x2000_0000_0000_0000,
        ;
    }
    v * v
}

fn is_in_cone(dx: i128, dy: i128, dir: Direction) -> (r: bool)
    requires
        -0x2000_0000_0000_0000 <= dx <= 0x2000_0000_0000_0000,
        -0x2000_0000_0000_0000 <= dy <= 0x2000_0000_0000_0000,
    ensures
        r == in_cone(dx as int, dy as int, dir.heading()),
{
    let (dot, cross): (i128, i128) = match dir {
        Direction::Up => (-dy, -dx),
        Direction::Down => (dy, dx),
        Direction::Left => (-dx, dy),
        Direction::Right => (dx, -dy),
        Direction::UpLeft => (-dx - dy, dy - dx),
        Direction::UpRight => (dx - dy, -dx - dy),
        Direction::DownLeft => (dy - dx, dx + dy),
        Direction::DownRight => (dx + dy, dx - dy),
    };
    dot > 0 && cross <= dot && -cross <= dot
}

/// The nearest item in a direction: the first of those with the least distance
/// from the origin within 45 degrees of it.
pub fn find_nearest(
    origin: CanvasPos,
    dir: &Direction,
    items: &[(u64, CanvasPos)],
    skip: Option<u64>,
) -> (r: Option<u64>)
    requires
        origin.wf(),
        forall|k: int| 0 <= k < items@.len() ==> (#[trigger] items@[k]).1.wf(),
    ensures
        match r {
            Some(w) => exists|k: int|
                #[trigger] is_nearest(origin, *dir, items@, skip, items@.len() as int, k)
                    && items@[k].0 == w,
            None => forall|k: int|
                0 <= k < items@.len() ==> !#[trigger] eligible(origin, *dir, items@[k], skip),
        },
{
    let mut best: Option<usize> = None;
    let mut best_distance: i128 = 0;
    let mut i: usize = 0;
    while i < items.len()
        invariant
            i <= items@.len(),
            origin.wf(),
            forall|k: int| 0 <= k < items@.len() ==> (#[trigger] items@[k]).1.wf(),
            match best {
                Some(k) => is_nearest(origin, *dir, items@, skip, i as int, k as int)
                    && best_distance == squared_distance(origin, items@[k as int].1),
                None => forall|k: int|
                    0 <= k < i ==> !#[trigger] eligible(origin, *dir, items@[k], skip),
            },
        decreases items.len() - i,
    {
        let (item, center) = items[i];
        assert(items@[i as int].1.wf());
        let skipped = match skip {
            Some(s) => s == item,
            None => false,
        };
        let dx: i128 = bounded_difference(center.x, origin.x);
        let dy: i128 = bounded_difference(center.y, origin.y);
        if !skipped && is_in_cone(dx, dy, *dir) {
            assert(eligible(origin, *dir, items@[i as int], skip));
            let d: i128 = square(dx) + square(dy);
            let closer = match best {
                Some(_) => d < best_distance,
                None => true,
            };
            if closer {
                best = Some(i);
                best_distance = d;
            }
        }
        i += 1;
    }
    match best {
        Some(k) => {
            assert(is_nearest(origin, *dir, items@, skip, items@.len() as int, k as int));
            Some(items[k].0)
        },
        None => None,
    }
}

/// A window that may be gone to.
#[derive(Clone, Copy, Debug, PartialEq, Eq, Structural)]
pub struct NavWindow {
    pub id: u64,
    pub location: Point,
    pub size: Size,
    /// Whether its rule pins it.
    pub widget: bool,
    /// Whether its rule keeps the focus away from it.
    pub no_focus: bool,
}

impl NavWindow {
    /// Whether its rule lets it be gone to.
    pub open spec fn reachable(self) -> bool {
        !self.widget && !self.no_focus
    }

    /// The middle of the window.
    pub open spec fn middle(self) -> CanvasPos {
        CanvasPos {
            x: (twice_middle(self.location.x as int, self.size.w as int) * HALF_PIXEL) as i64,
            y: (twice_middle(self.location.y as int, self.size.h as int) * HALF_PIXEL) as i64,
        }
    }

    /// The point of the window that is closest to a position, and the middle of
    /// a window that holds the position.
    pub open spec fn point_towards(self, origin: CanvasPos) -> CanvasPos {
        let point = CanvasPos {
            x: closest_on(self.location.x as int, self.size.w as int, origin.x as int) as i64,
            y: closest_on(self.location.y as int, self.size.h as int, origin.y as int) as i64,
        };
        if point == origin {
            self.middle()
        } else {
            point
        }
    }

    fn center(&self) -> (r: CanvasPos)
        ensures
            r == self.middle(),
            r.wf(),
    {
        CanvasPos {
            x: center_axis(self.location.x, self.size.w, 0),
            y: center_axis(self.location.y, self.size.h, 0),
        }
    }

    fn nearest_point(&self, origin: CanvasPos) -> (r: CanvasPos)
        requires
            origin.wf(),
        ensures
            r == self.point_towards(origin),
            r.wf(),
    {
        let x: i64 = hold_on(self.location.x, self.size.w, origin.x);
        let y: i64 = hold_on(self.location.y, self.size.h, origin.y);
        if x == origin.x && y == origin.y {
            self.center()
        } else {
            CanvasPos { x, y }
        }
    }
}

/// The coordinate closest to another one, on a length that starts at a place,
/// both in pixels. A length below zero is held at its far end.
pub open spec fn closest_on(at: int, length: int, v: int) -> int {
    let low = from_pixels(at);
    let high = from_pixels(at + length);
    let raised = if v < low {
        low
    } else {
        v
    };
    if raised > high {
        high
    } else {
        raised
    }
}

fn hold_on(at: i32, length: i32, v: i64) -> (r: i64)
    requires
        in_range(v),
    ensures
        r == closest_on(at as int, length as int, v as int),
        in_range(r),
{
    let low: i64 = pixels(at);
    let high: i64 = low + pixels(length);
    let raised: i64 = if v < low {
        low
    } else {
        v
    };
    if raised > high {
        high
    } else {
        raised
    }
}

/// No coordinate on the length is closer, and one on it is itself.
pub proof fn closest_coordinate_is_closest(at: int, length: int, v: int, other: int)
    requires
        length >= 0,
        from_pixels(at) <= other <= from_pixels(at + length),
    ensures
        from_pixels(at) <= closest_on(at, length, v) <= from_pixels(at + length),
        magnitude(closest_on(at, length, v) - v) <= magnitude(other - v),
        closest_on(at, length, other) == other,
{
}

/// Whether the window at a place is the first of those closest to a position
/// among the first `n`.
pub open spec fn is_closest_window(center: CanvasPos, windows: Seq<NavWindow>, n: int, k: int) -> bool {
    &&& 0 <= k < n
    &&& windows[k].reachable()
    &&& forall|j: int|
        0 <= j < n && (#[trigger] windows[j]).reachable() ==> squared_distance(
            center,
            windows[k].middle(),
        ) <= squared_distance(center, windows[j].middle())
    &&& forall|j: int|
        0 <= j < k && (#[trigger] windows[j]).reachable() ==> squared_distance(
            center,
            windows[k].middle(),
        ) < squared_distance(center, windows[j].middle())
}

/// The window whose middle is closest to a position: the first of those with
/// the least distance that their rules let be gone to.
pub fn closest_window(center: CanvasPos, windows: &[NavWindow]) -> (r: Option<u64>)
    requires
        center.wf(),
    ensures
        match r {
            Some(w) => exists|k: int|
                #[trigger] is_closest_window(center, windows@, windows@.len() as int, k)
                    && windows@[k].id == w,
            None => forall|k: int| 0 <= k < windows@.len() ==> !(#[trigger] windows@[k]).reachable(),
        },
{
    let mut best: Option<usize> = None;
    let mut best_distance: i128 = 0;
    let mut i: usize = 0;
    while i < windows.len()
        invariant
            i <= windows@.len(),
            center.wf(),
            match best {
                Some(k) => is_closest_window(center, windows@, i as int, k as int)
                    && best_distance == squared_distance(center, windows@[k as int].middle()),
                None => forall|k: int| 0 <= k < i ==> !(#[trigger] windows@[k]).reachable(),
            },
        decreases windows.len() - i,
    {
        let w = windows[i];
        if !w.widget && !w.no_focus {
            let at = w.center();
            let d: i128 = square(bounded_difference(at.x, center.x)) + square(
                bounded_difference(at.y, center.y),
            );
            let closer = match best {
                Some(_) => d < best_distance,
                None => true,
            };
            if closer {
                best = Some(i);
                best_distance = d;
            }
        }
        i += 1;
    }
    match best {
        Some(k) => {
            assert(is_closest_window(center, windows@, windows@.len() as int, k as int));
            Some(windows[k].id)
        },
        None => None,
    }
}

/// Where a search in a direction starts, and the window that it leaves out:
/// from the middle of the window in focus where at least half of it is in
/// sight, and from the middle of the screen otherwise.
pub fn nav_origin(focused: Option<NavWindow>, in_sight: bool, center: CanvasPos) -> (r: (
    CanvasPos,
    Option<u64>,
))
    requires
        center.wf(),
    ensures
        r == match focused {
            Some(w) if in_sight => (w.middle(), Some(w.id)),
            _ => (center, None),
        },
        r.0.wf(),
{
    match focused {
        Some(w) => if in_sight {
            (w.center(), Some(w.id))
        } else {
            (center, None)
        },
        None => (center, None),
    }
}

/// Whether four edges are those of the smallest box around the windows among
/// the first `n` that can be gone to: none sticks out, and each edge is that of
/// one of them.
pub open spec fn are_bounds(
    windows: Seq<NavWindow>,
    n: int,
    left: int,
    top: int,
    right: int,
    bottom: int,
) -> bool {
    &&& forall|k: int|
        0 <= k < n && (#[trigger] windows[k]).reachable() ==> {
            &&& left <= windows[k].location.x
            &&& top <= windows[k].location.y
            &&& windows[k].location.x + windows[k].size.w <= right
            &&& windows[k].location.y + windows[k].size.h <= bottom
        }
    &&& exists|k: int|
        0 <= k < n && (#[trigger] windows[k]).reachable() && windows[k].location.x == left
    &&& exists|k: int|
        0 <= k < n && (#[trigger] windows[k]).reachable() && windows[k].location.y == top
    &&& exists|k: int|
        0 <= k < n && (#[trigger] windows[k]).reachable() && windows[k].location.x
            + windows[k].size.w == right
    &&& exists|k: int|
        0 <= k < n && (#[trigger] windows[k]).reachable() && windows[k].location.y
            + windows[k].size.h == bottom
}

/// Windows have one smallest box around them.
pub proof fn bounds_are_unique(
    windows: Seq<NavWindow>,
    n: int,
    a: (int, int, int, int),
    b: (int, int, int, int),
)
    requires
        are_bounds(windows, n, a.0, a.1, a.2, a.3),
        are_bounds(windows, n, b.0, b.1, b.2, b.3),
    ensures
        a == b,
{
}

/// Whether a rectangle is the smallest box around all windows that can be gone
/// to. A side that is too long to be counted is as long as can be.
pub open spec fn is_bbox(windows: Seq<NavWindow>, b: Rect) -> bool {
    exists|right: int, bottom: int|
        {
            &&& #[trigger] are_bounds(
                windows,
                windows.len() as int,
                b.loc.x as int,
                b.loc.y as int,
                right,
                bottom,
            )
            &&& b.size.w == clamp_i32(right - b.loc.x)
            &&& b.size.h == clamp_i32(bottom - b.loc.y)
        }
}

/// The box around all windows that can be gone to.
pub fn all_windows_bbox(windows: &[NavWindow]) -> (r: Option<Rect>)
    ensures
        match r {
            Some(b) => is_bbox(windows@, b),
            None => forall|k: int| 0 <= k < windows@.len() ==> !(#[trigger] windows@[k]).reachable(),
        },
{
    let mut found = false;
    let mut left: i32 = 0;
    let mut top: i32 = 0;
    let mut right: i64 = 0;
    let mut bottom: i64 = 0;
    let mut i: usize = 0;
    while i < windows.len()
        invariant
            i <= windows@.len(),
            !found ==> forall|k: int| 0 <= k < i ==> !(#[trigger] windows@[k]).reachable(),
            found ==> are_bounds(
                windows@,
                i as int,
                left as int,
                top as int,
                right as int,
                bottom as int,
            ),
            -0x1_0000_0000 <= right <= 0x1_0000_0000,
            -0x1_0000_0000 <= bottom <= 0x1_0000_0000,
        decreases windows.len() - i,
    {
        let w = windows[i];
        if !w.widget && !w.no_focus {
            let x: i64 = w.location.x as i64 + w.size.w as i64;
            let y: i64 = w.location.y as i64 + w.size.h as i64;
            let ghost before = (left, top, right, bottom);
            if !found || w.location.x < left {
                left = w.location.x;
            }
            if !found || w.location.y < top {
                top = w.location.y;
            }
            if !found || x > right {
                right = x;
            }
            if !found || y > bottom {
                bottom = y;
            }
            proof {
                assert(windows@[i as int].reachable());
                if found {
                    let (l, t, r, b) = before;
                    let kl = choose|k: int|
                        0 <= k < i && (#[trigger] windows@[k]).reachable()
                            && windows@[k].location.x == l;
                    let kt = choose|k: int|
                        0 <= k < i && (#[trigger] windows@[k]).reachable()
                            && windows@[k].location.y == t;
                    let kr = choose|k: int|
                        0 <= k < i && (#[trigger] windows@[k]).reachable()
                            && windows@[k].location.x + windows@[k].size.w == r;
                    let kb = choose|k: int|
                        0 <= k < i && (#[trigger] windows@[k]).reachable()
                            && windows@[k].location.y + windows@[k].size.h == b;
                    assert(windows@[kl].reachable() && windows@[kt].reachable());
                    assert(windows@[kr].reachable() && windows@[kb].reachable());
                }
            }
            found = true;
        }
        i += 1;
    }
    if !found {
        return None;
    }
    let w: i32 = saturate_i32(right - left as i64);
    let h: i32 = saturate_i32(bottom - top as i64);
    let bbox = Rect { loc: Point { x: left, y: top }, size: Size { w, h } };
    assert(are_bounds(
        windows@,
        windows@.len() as int,
        bbox.loc.x as int,
        bbox.loc.y as int,
        right as int,
        bottom as int,
    ));
    Some(bbox)
}

/// The windows among the first `n` that a direction may lead to, each with the
/// point that counts. The one to skip is left out.
pub open spec fn window_targets(
    origin: CanvasPos,
    windows: Seq<NavWindow>,
    skip: Option<u64>,
    n: nat,
) -> Seq<(NavTarget, CanvasPos)>
    decreases n,
{
    if n == 0 {
        seq![]
    } else {
        let before = window_targets(origin, windows, skip, (n - 1) as nat);
        let w = windows[n - 1];
        if w.reachable() && skip != Some(w.id) {
            before.push((NavTarget::Window(w.id), w.point_towards(origin)))
        } else {
            before
        }
    }
}

/// The anchors among the first `n` as targets.
pub open spec fn anchor_targets(anchors: Seq<(i64, i64)>, n: nat) -> Seq<(NavTarget, CanvasPos)>
    decreases n,
{
    if n == 0 {
        seq![]
    } else {
        let a = anchors[n - 1];
        anchor_targets(anchors, (n - 1) as nat).push(
            (NavTarget::Anchor(a.0, a.1), CanvasPos { x: a.0, y: a.1 }),
        )
    }
}

/// Everything that a direction may lead to: windows first, then anchors.
pub open spec fn targets(
    origin: CanvasPos,
    windows: Seq<NavWindow>,
    anchors: Seq<(i64, i64)>,
    skip: Option<u64>,
) -> Seq<(NavTarget, CanvasPos)> {
    window_targets(origin, windows, skip, windows.len()) + anchor_targets(anchors, anchors.len())
}

/// The points of targets, numbered.
pub open spec fn numbered(list: Seq<(NavTarget, CanvasPos)>) -> Seq<(u64, CanvasPos)> {
    Seq::new(list.len(), |k: int| (k as u64, list[k].1))
}

fn list_targets(
    origin: CanvasPos,
    windows: &[NavWindow],
    anchors: &[(i64, i64)],
    skip: Option<u64>,
) -> (r: Vec<(NavTarget, CanvasPos)>)
    requires
        origin.wf(),
        forall|k: int|
            0 <= k < anchors@.len() ==> in_range((#[trigger] anchors@[k]).0) && in_range(
                anchors@[k].1,
            ),
    ensures
        r@ == targets(origin, windows@, anchors@, skip),
        forall|k: int| 0 <= k < r@.len() ==> (#[trigger] r@[k]).1.wf(),
{
    let mut list: Vec<(NavTarget, CanvasPos)> = Vec::new();
    let mut i: usize = 0;
    while i < windows.len()
        invariant
            i <= windows@.len(),
            origin.wf(),
            list@ == window_targets(origin, windows@, skip, i as nat),
            forall|k: int| 0 <= k < list@.len() ==> (#[trigger] list@[k]).1.wf(),
        decreases windows.len() - i,
    {
        let w = windows[i];
        let skipped = match skip {
            Some(s) => s == w.id,
            None => false,
        };
        if !w.widget && !w.no_focus && !skipped {
            list.push((NavTarget::Window(w.id), w.nearest_point(origin)));
        }
        i += 1;
    }
    let ghost first = list@;
    let mut j: usize = 0;
    assert(first + anchor_targets(anchors@, 0) =~= first);
    while j < anchors.len()
        invariant
            j <= anchors@.len(),
            forall|k: int|
                0 <= k < anchors@.len() ==> in_range((#[trigger] anchors@[k]).0) && in_range(
                    anchors@[k].1,
                ),
            list@ == first + anchor_targets(anchors@, j as nat),
            forall|k: int| 0 <= k < list@.len() ==> (#[trigger] list@[k]).1.wf(),
        decreases anchors.len() - j,
    {
        let a = anchors[j];
        assert(in_range(anchors@[j as int].0));
        let ghost before = anchor_targets(anchors@, j as nat);
        let target = (NavTarget::Anchor(a.0, a.1), CanvasPos { x: a.0, y: a.1 });
        list.push(target);
        j += 1;
        assert(list@ =~= first + before.push(target));
    }
    list
}

/// Where a direction leads: the nearest of all windows and anchors, windows
/// first where several are as near. `skip` is the window that it starts from.
pub fn nav_target(
    origin: CanvasPos,
    dir: &Direction,
    windows: &[NavWindow],
    anchors: &[(i64, i64)],
    skip: Option<u64>,
) -> (r: Option<NavTarget>)
    requires
        origin.wf(),
        forall|k: int|
            0 <= k < anchors@.len() ==> in_range((#[trigger] anchors@[k]).0) && in_range(
                anchors@[k].1,
            ),
    ensures
        ({
            let all = targets(origin, windows@, anchors@, skip);
            let points = numbered(all);
            match r {
                Some(t) => exists|k: int|
                    #[trigger] is_nearest(origin, *dir, points, None, all.len() as int, k)
                        && all[k].0 == t,
                None => forall|k: int|
                    0 <= k < all.len() ==> !#[trigger] eligible(origin, *dir, points[k], None),
            }
        }),
{
    let list = list_targets(origin, windows, anchors, skip);
    let ghost all = list@;
    let mut points: Vec<(u64, CanvasPos)> = Vec::new();
    let mut i: usize = 0;
    while i < list.len()
        invariant
            i <= list@.len(),
            list@ == all,
            points@ == numbered(all).take(i as int),
        decreases list.len() - i,
    {
        points.push((i as u64, list[i].1));
        i += 1;
        assert(points@ =~= numbered(all).take(i as int));
    }
    assert(points@ =~= numbered(all));
    match find_nearest(origin, dir, points.as_slice(), None) {
        Some(k) => {
            let ghost at = choose|j: int|
                #[trigger] is_nearest(origin, *dir, points@, None, points@.len() as int, j)
                    && points@[j].0 == k;
            assert(points@[at].0 == at as u64);
            assert(k == at);
            Some(list[k as usize].0)
        },
        None => None,
    }
}

/// No direction leads to a window that its rule pins or keeps the focus away
/// from, nor to the one that it starts from.
pub proof fn unreachable_windows_are_not_gone_to(
    origin: CanvasPos,
    windows: Seq<NavWindow>,
    skip: Option<u64>,
    n: nat,
    k: int,
)
    requires
        n <= windows.len(),
        0 <= k < window_targets(origin, windows, skip, n).len(),
    ensures
        ({
            let target = window_targets(origin, windows, skip, n)[k].0;
            exists|j: int|
                0 <= j < windows.len() && (#[trigger] windows[j]).reachable() && skip != Some(
                    windows[j].id,
                ) && target == NavTarget::Window(windows[j].id)
        }),
    decreases n,
{
    let before = window_targets(origin, windows, skip, (n - 1) as nat);
    if k < before.len() {
        unreachable_windows_are_not_gone_to(origin, windows, skip, (n - 1) as nat, k);
    } else {
        let w = windows[n - 1];
        assert(w.reachable());
    }
}

/// The drift of the viewport after a scroll. Velocities are worked out
/// elsewhere, so their type is left open.
#[derive(Debug)]
pub struct MomentumState<V> {
    pub velocity: V,
    /// The frame of the last scroll, which has moved the viewport already.
    pub last_scroll_frame: u64,
}

impl<V: Copy> MomentumState<V> {
    /// At rest.
    pub fn new(rest: V) -> (r: MomentumState<V>)
        ensures
            r == (MomentumState { velocity: rest, last_scroll_frame: 0 }),
    {
        MomentumState { velocity: rest, last_scroll_frame: 0 }
    }

    /// Takes a scroll in a frame, with the velocity that it results in.
    pub fn accumulate(&mut self, velocity: V, frame: u64)
        ensures
            *final(self) == (MomentumState { velocity, last_scroll_frame: frame }),
    {
        self.velocity = velocity;
        self.last_scroll_frame = frame;
    }

    /// Takes the next frame. Returns how far the viewport moves, if it does: not
    /// in a frame in which it was scrolled, and not when it has become slow.
    /// `slow` says whether the velocity is below the least one, `slowed` is the
    /// next one, and `rest` is none at all.
    pub fn tick(&mut self, current_frame: u64, slow: bool, slowed: V, rest: V) -> (r: Option<V>)
        ensures
            r == if old(self).last_scroll_frame == current_frame || slow {
                None
            } else {
                Some(old(self).velocity)
            },
            final(self).last_scroll_frame == old(self).last_scroll_frame,
            final(self).velocity == if old(self).last_scroll_frame == current_frame {
                old(self).velocity
            } else if slow {
                rest
            } else {
                slowed
            },
    {
        if self.last_scroll_frame == current_frame {
            return None;
        }
        if slow {
            self.velocity = rest;
            return None;
        }
        let moved = self.velocity;
        self.velocity = slowed;
        Some(moved)
    }

    /// Stops the drift.
    pub fn stop(&mut self, rest: V)
        ensures
            *final(self) == (MomentumState { velocity: rest, ..*old(self) }),
    {
        self.velocity = rest;
    }
}

} // verus!
