//! Edge snapping for window moves and resizes.
//!
//! All positions and lengths are in canvas units (see [`crate::units`]).

use crate::units::{distance, pixels, trunc_to_pixels};
use vstd::prelude::*;

verus! {

use crate::units::{clamp_i32, from_pixels, in_range, magnitude, trunc_pixels, COORD_LIMIT};

/// Bounding rectangle of a window in canvas coordinates.
#[derive(Clone, Copy, Debug, PartialEq, Eq, Structural)]
pub struct SnapRect {
    pub x_low: i64,
    pub x_high: i64,
    pub y_low: i64,
    pub y_high: i64,
}

impl SnapRect {
    /// Every edge is a coordinate that callers may hand in.
    pub open spec fn wf(self) -> bool {
        &&& in_range(self.x_low)
        &&& in_range(self.x_high)
        &&& in_range(self.y_low)
        &&& in_range(self.y_high)
    }
}

/// Parameters of the snap search along one axis of a moved window.
#[derive(Clone, Copy, Debug)]
pub struct SnapParams<'a> {
    /// Length of the moved window along the axis.
    pub extent: i64,
    /// Extent of the moved window across the axis.
    pub perp_low: i64,
    pub perp_high: i64,
    /// Whether the axis is the horizontal one.
    pub horizontal: bool,
    /// The windows to snap to.
    pub others: &'a [SnapRect],
    /// Distance kept between opposite edges.
    pub gap: i64,
    /// Candidates at this distance or farther are ignored.
    pub threshold: i64,
    /// Travel that breaks an engaged snap.
    pub break_force: i64,
    /// Whether equal edges align as well.
    pub same_edge: bool,
}

/// Parameters of the snap search for one edge of a resized window.
#[derive(Clone, Copy, Debug)]
pub struct EdgeSnapParams<'a> {
    /// Extent of the resized window across the axis.
    pub perp_low: i64,
    pub perp_high: i64,
    /// Whether the edge moves horizontally.
    pub horizontal: bool,
    /// Whether equal edges align as well.
    pub same_edge: bool,
    /// The windows to snap to.
    pub others: &'a [SnapRect],
    /// Distance kept between opposite edges.
    pub gap: i64,
    /// Candidates at this distance or farther are ignored.
    pub threshold: i64,
    /// Travel that breaks an engaged snap.
    pub break_force: i64,
    /// Whether the edge is the right or the bottom one.
    pub high_edge: bool,
}

/// An engaged snap on one axis: where the window is held, and where it was
/// when the snap engaged.
#[derive(Clone, Copy, Debug, PartialEq, Eq, Structural)]
pub struct AxisSnap {
    pub snapped_pos: i64,
    pub natural_at_engage: i64,
}

/// Snap state of both axes, with the coordinates on which a broken snap stays
/// disabled.
#[derive(Clone, Copy, Debug, PartialEq, Eq, Structural)]
pub struct SnapState {
    pub x: Option<AxisSnap>,
    pub y: Option<AxisSnap>,
    pub cooldown_x: Option<i64>,
    pub cooldown_y: Option<i64>,
}

/// A position that a snap can produce.
pub open spec fn in_snap_range(v: i64) -> bool {
    -3 * COORD_LIMIT <= v <= 3 * COORD_LIMIT
}

impl AxisSnap {
    pub open spec fn wf(self) -> bool {
        in_snap_range(self.snapped_pos) && in_range(self.natural_at_engage)
    }
}

pub open spec fn axis_wf(snap: Option<AxisSnap>, cooldown: Option<i64>) -> bool {
    &&& snap matches Some(s) ==> s.wf()
    &&& cooldown matches Some(c) ==> in_snap_range(c)
}

impl SnapState {
    pub open spec fn wf(self) -> bool {
        axis_wf(self.x, self.cooldown_x) && axis_wf(self.y, self.cooldown_y)
    }
}

impl Default for SnapState {
    /// Nothing engaged, nothing cooling down.
    fn default() -> (r: SnapState)
        ensures
            r == (SnapState { x: None, y: None, cooldown_x: None, cooldown_y: None }),
    {
        SnapState { x: None, y: None, cooldown_x: None, cooldown_y: None }
    }
}

impl<'a> SnapParams<'a> {
    pub open spec fn wf(self) -> bool {
        &&& in_range(self.extent)
        &&& in_range(self.gap)
        &&& rects_wf(self.others@)
    }
}

impl<'a> EdgeSnapParams<'a> {
    pub open spec fn wf(self) -> bool {
        &&& in_range(self.gap)
        &&& rects_wf(self.others@)
    }
}

pub open spec fn rects_wf(rects: Seq<SnapRect>) -> bool {
    forall|i: int| 0 <= i < rects.len() ==> (#[trigger] rects[i]).wf()
}

/// The edges of `r` along the axis, then across it.
pub open spec fn along(r: SnapRect, horizontal: bool) -> (int, int, int, int) {
    if horizontal {
        (r.x_low as int, r.x_high as int, r.y_low as int, r.y_high as int)
    } else {
        (r.y_low as int, r.y_high as int, r.x_low as int, r.x_high as int)
    }
}

/// Whether two open intervals share no point.
pub open spec fn apart(a_low: int, a_high: int, b_low: int, b_high: int) -> bool {
    a_high <= b_low || b_high <= a_low
}

/// The places that `other` offers to a moved window, each as the position the
/// window would take and the distance of the edge that would snap.
pub open spec fn move_offers(natural: int, p: SnapParams, other: SnapRect) -> Seq<(int, int)> {
    let (low, high, perp_low, perp_high) = along(other, p.horizontal);
    if apart(p.perp_low as int, p.perp_high as int, perp_low, perp_high) {
        seq![]
    } else {
        let opposite = seq![
            (low - p.gap - p.extent, magnitude(natural + p.extent - low)),
            (high + p.gap, magnitude(natural - high)),
        ];
        if p.same_edge {
            opposite + seq![
                (low, magnitude(natural - low)),
                (high - p.extent, magnitude(natural + p.extent - high)),
            ]
        } else {
            opposite
        }
    }
}

/// The places that `other` offers to a resized edge, each as the position the
/// edge would take and its distance.
pub open spec fn edge_offers(natural: int, p: EdgeSnapParams, other: SnapRect) -> Seq<(int, int)> {
    let (low, high, perp_low, perp_high) = along(other, p.horizontal);
    let (far, with_gap, near) = if p.high_edge {
        (low, low - p.gap, high)
    } else {
        (high, high + p.gap, low)
    };
    if apart(p.perp_low as int, p.perp_high as int, perp_low, perp_high) {
        seq![]
    } else if p.same_edge {
        seq![(with_gap, magnitude(natural - far)), (near, magnitude(natural - near))]
    } else {
        seq![(with_gap, magnitude(natural - far))]
    }
}

/// Everything that the first `n` windows offer to a moved window, in order.
pub open spec fn move_candidates(natural: int, p: SnapParams, n: nat) -> Seq<(int, int)>
    decreases n,
{
    if n == 0 {
        seq![]
    } else {
        move_candidates(natural, p, (n - 1) as nat) + move_offers(natural, p, p.others@[n - 1])
    }
}

/// Everything that the first `n` windows offer to a resized edge, in order.
pub open spec fn edge_candidates(natural: int, p: EdgeSnapParams, n: nat) -> Seq<(int, int)>
    decreases n,
{
    if n == 0 {
        seq![]
    } else {
        edge_candidates(natural, p, (n - 1) as nat) + edge_offers(natural, p, p.others@[n - 1])
    }
}

/// The candidate that is kept when `c` comes after `best`.
pub open spec fn better(best: Option<(int, int)>, c: (int, int), threshold: int) -> Option<(int, int)> {
    if c.1 < threshold && (best matches Some(b) ==> c.1 < b.1) {
        Some(c)
    } else {
        best
    }
}

/// The closest candidate below the threshold, the earliest of several.
pub open spec fn nearest(candidates: Seq<(int, int)>, threshold: int) -> Option<(int, int)>
    decreases candidates.len(),
{
    if candidates.len() == 0 {
        None
    } else {
        better(nearest(candidates.drop_last(), threshold), candidates.last(), threshold)
    }
}

/// The search result as mathematical integers.
pub open spec fn widen(r: Option<(i64, i64)>) -> Option<(int, int)> {
    match r {
        Some((pos, dist)) => Some((pos as int, dist as int)),
        None => None,
    }
}

/// Whether `r` is the first of the closest candidates below the threshold.
pub open spec fn first_closest(
    candidates: Seq<(int, int)>,
    threshold: int,
    r: Option<(int, int)>,
) -> bool {
    match r {
        None => forall|i: int| 0 <= i < candidates.len() ==> (#[trigger] candidates[i]).1 >= threshold,
        Some(best) => {
            &&& best.1 < threshold
            &&& exists|k: int| #![trigger candidates[k]]
                0 <= k < candidates.len() && candidates[k] == best && (forall|i: int|
                    0 <= i < k ==> (#[trigger] candidates[i]).1 > best.1)
            &&& forall|i: int| 0 <= i < candidates.len() ==> (#[trigger] candidates[i]).1 >= best.1
        },
    }
}

/// The search finds a candidate exactly where one lies below the threshold; it
/// is never farther than another, and earlier than every other as close.
pub proof fn nearest_is_first_closest(candidates: Seq<(int, int)>, threshold: int)
    ensures
        first_closest(candidates, threshold, nearest(candidates, threshold)),
    decreases candidates.len(),
{
    if candidates.len() > 0 {
        let front = candidates.drop_last();
        nearest_is_first_closest(front, threshold);
        let before = nearest(front, threshold);
        let last = candidates.len() - 1;
        assert forall|i: int| 0 <= i < last implies front[i] == candidates[i] by {}
        match before {
            Some(b) => {
                let k = choose|k: int| #![trigger front[k]]
                    0 <= k < front.len() && front[k] == b && (forall|i: int|
                        0 <= i < k ==> (#[trigger] front[i]).1 > b.1);
                assert(candidates[k] == b);
                assert forall|i: int| 0 <= i < k implies (#[trigger] candidates[i]).1 > b.1 by {
                    assert(front[i] == candidates[i]);
                }
                assert forall|i: int| 0 <= i < last implies (#[trigger] candidates[i]).1 >= b.1 by {
                    assert(front[i] == candidates[i]);
                }
            },
            None => {
                assert forall|i: int| 0 <= i < last implies (#[trigger] candidates[i]).1 >= threshold by {
                    assert(front[i] == candidates[i]);
                }
            },
        }
        assert(candidates[last] == candidates.last());
    }
}

proof fn nearest_append(a: Seq<(int, int)>, c: (int, int), threshold: int)
    ensures
        nearest(a.push(c), threshold) == better(nearest(a, threshold), c, threshold),
{
    assert(a.push(c).drop_last() =~= a);
}

/// Keeps the closer of the best candidate so far and a new one.
fn try_candidate(best: &mut Option<(i64, i64)>, snap_pos: i64, dist: i64, threshold: i64)
    ensures
        widen(*final(best)) == better(
            widen(*old(best)),
            (snap_pos as int, dist as int),
            threshold as int,
        ),
{
    let closer = match *best {
        Some((_, bd)) => dist < bd,
        None => true,
    };
    if dist < threshold && closer {
        *best = Some((snap_pos, dist));
    }
}

/// The closest snap position along one axis for a moved window whose low edge
/// would naturally be at `natural_edge_low`, with the distance of the edge
/// that snaps. Windows that do not overlap across the axis are ignored.
pub fn find_snap_candidate(natural_edge_low: i64, p: &SnapParams<'_>) -> (r: Option<(i64, i64)>)
    requires
        p.wf(),
        in_range(natural_edge_low),
    ensures
        widen(r) == nearest(
            move_candidates(natural_edge_low as int, *p, p.others@.len()),
            p.threshold as int,
        ),
        r matches Some((pos, _)) ==> in_snap_range(pos),
{
    let natural_edge_high: i64 = natural_edge_low + p.extent;
    let mut best: Option<(i64, i64)> = None;
    let mut i: usize = 0;
    while i < p.others.len()
        invariant
            i <= p.others.len(),
            p.wf(),
            in_range(natural_edge_low),
            natural_edge_high == natural_edge_low + p.extent,
            widen(best) == nearest(
                move_candidates(natural_edge_low as int, *p, i as nat),
                p.threshold as int,
            ),
            best matches Some((pos, _)) ==> in_snap_range(pos),
        decreases p.others.len() - i,
    {
        let other = p.others[i];
        assert(p.others@[i as int].wf());
        let (low, high, perp_low, perp_high) = if p.horizontal {
            (other.x_low, other.x_high, other.y_low, other.y_high)
        } else {
            (other.y_low, other.y_high, other.x_low, other.x_high)
        };
        let ghost before = move_candidates(natural_edge_low as int, *p, i as nat);
        let ghost offers = move_offers(natural_edge_low as int, *p, other);
        let ghost t = p.threshold as int;
        assert(move_candidates(natural_edge_low as int, *p, (i + 1) as nat) == before + offers);
        if !(p.perp_high <= perp_low || perp_high <= p.perp_low) {
            try_candidate(
                &mut best,
                low - p.gap - p.extent,
                distance(natural_edge_high, low),
                p.threshold,
            );
            try_candidate(&mut best, high + p.gap, distance(natural_edge_low, high), p.threshold);
            proof {
                nearest_append(before, offers[0], t);
                nearest_append(before.push(offers[0]), offers[1], t);
            }
            if p.same_edge {
                try_candidate(&mut best, low, distance(natural_edge_low, low), p.threshold);
                try_candidate(
                    &mut best,
                    high - p.extent,
                    distance(natural_edge_high, high),
                    p.threshold,
                );
                proof {
                    let two = before.push(offers[0]).push(offers[1]);
                    nearest_append(two, offers[2], t);
                    nearest_append(two.push(offers[2]), offers[3], t);
                    assert(two.push(offers[2]).push(offers[3]) =~= before + offers);
                }
            } else {
                assert(before.push(offers[0]).push(offers[1]) =~= before + offers);
            }
        } else {
            assert(before + offers =~= before);
        }
        i += 1;
    }
    best
}

/// The closest snap position for one edge of a resized window, with its
/// distance. Windows that do not overlap across the axis are ignored.
pub fn find_edge_snap(natural_edge: i64, p: &EdgeSnapParams<'_>) -> (r: Option<(i64, i64)>)
    requires
        p.wf(),
        in_range(natural_edge),
    ensures
        widen(r) == nearest(
            edge_candidates(natural_edge as int, *p, p.others@.len()),
            p.threshold as int,
        ),
        r matches Some((pos, _)) ==> in_snap_range(pos),
{
    let mut best: Option<(i64, i64)> = None;
    let mut i: usize = 0;
    while i < p.others.len()
        invariant
            i <= p.others.len(),
            p.wf(),
            in_range(natural_edge),
            widen(best) == nearest(
                edge_candidates(natural_edge as int, *p, i as nat),
                p.threshold as int,
            ),
            best matches Some((pos, _)) ==> in_snap_range(pos),
        decreases p.others.len() - i,
    {
        let other = p.others[i];
        assert(p.others@[i as int].wf());
        let (low, high, perp_low, perp_high) = if p.horizontal {
            (other.x_low, other.x_high, other.y_low, other.y_high)
        } else {
            (other.y_low, other.y_high, other.x_low, other.x_high)
        };
        let ghost before = edge_candidates(natural_edge as int, *p, i as nat);
        let ghost offers = edge_offers(natural_edge as int, *p, other);
        let ghost t = p.threshold as int;
        assert(edge_candidates(natural_edge as int, *p, (i + 1) as nat) == before + offers);
        if !(p.perp_high <= perp_low || perp_high <= p.perp_low) {
            let (far, with_gap, near) = if p.high_edge {
                (low, low - p.gap, high)
            } else {
                (high, high + p.gap, low)
            };
            try_candidate(&mut best, with_gap, distance(natural_edge, far), p.threshold);
            proof {
                nearest_append(before, offers[0], t);
            }
            if p.same_edge {
                try_candidate(&mut best, near, distance(natural_edge, near), p.threshold);
                proof {
                    nearest_append(before.push(offers[0]), offers[1], t);
                    assert(before.push(offers[0]).push(offers[1]) =~= before + offers);
                }
            } else {
                assert(before.push(offers[0]) =~= before + offers);
            }
        } else {
            assert(before + offers =~= before);
        }
        i += 1;
    }
    best
}

/// Whether an engaged snap lets go at `natural`: the window has gone back past
/// the place where the snap engaged, or past the snap itself, by the break
/// force.
pub open spec fn breaks(s: AxisSnap, natural: int, break_force: int) -> bool {
    if s.snapped_pos > s.natural_at_engage {
        s.natural_at_engage - natural >= break_force || natural - s.snapped_pos >= break_force
    } else {
        natural - s.natural_at_engage >= break_force || s.snapped_pos - natural >= break_force
    }
}

/// The cooldown that is left at `natural`: it ends once the window is farther
/// than the threshold from the coordinate.
pub open spec fn cooled(cooldown: Option<i64>, natural: int, threshold: int) -> Option<i64> {
    match cooldown {
        Some(c) => if magnitude(natural - c) > threshold {
            None
        } else {
            cooldown
        },
        None => None,
    }
}

/// One axis after a motion to `natural`, where the search found `found`: the
/// snap, the cooldown and the position.
pub open spec fn axis_step(
    snap: Option<AxisSnap>,
    cooldown: Option<i64>,
    natural: i64,
    threshold: int,
    break_force: int,
    found: Option<(int, int)>,
) -> (Option<AxisSnap>, Option<i64>, int) {
    match snap {
        Some(s) => if breaks(s, natural as int, break_force) {
            (None, Some(s.snapped_pos), natural as int)
        } else {
            (snap, cooldown, s.snapped_pos as int)
        },
        None => {
            let left = cooled(cooldown, natural as int, threshold);
            match (left, found) {
                (None, Some((pos, _))) => (
                    Some(AxisSnap { snapped_pos: pos as i64, natural_at_engage: natural }),
                    left,
                    pos,
                ),
                _ => (None, left, natural as int),
            }
        },
    }
}

/// What [`update_axis`] does, over the windows in `p`.
pub open spec fn move_step(
    snap: Option<AxisSnap>,
    cooldown: Option<i64>,
    natural: i64,
    p: SnapParams,
) -> (Option<AxisSnap>, Option<i64>, int) {
    axis_step(
        snap,
        cooldown,
        natural,
        p.threshold as int,
        p.break_force as int,
        nearest(move_candidates(natural as int, p, p.others@.len()), p.threshold as int),
    )
}

/// What [`update_edge`] does, over the windows in `p`.
pub open spec fn edge_step(
    snap: Option<AxisSnap>,
    cooldown: Option<i64>,
    natural: i64,
    p: EdgeSnapParams,
) -> (Option<AxisSnap>, Option<i64>, int) {
    axis_step(
        snap,
        cooldown,
        natural,
        p.threshold as int,
        p.break_force as int,
        nearest(edge_candidates(natural as int, p, p.others@.len()), p.threshold as int),
    )
}

fn breaks_at(s: AxisSnap, natural: i64, break_force: i64) -> (r: bool)
    requires
        s.wf(),
        in_range(natural),
    ensures
        r == breaks(s, natural as int, break_force as int),
{
    if s.snapped_pos > s.natural_at_engage {
        s.natural_at_engage - natural >= break_force || natural - s.snapped_pos >= break_force
    } else {
        natural - s.natural_at_engage >= break_force || s.snapped_pos - natural >= break_force
    }
}

fn cooldown_left(cooldown: Option<i64>, natural: i64, threshold: i64) -> (r: Option<i64>)
    requires
        cooldown matches Some(c) ==> in_snap_range(c),
        in_range(natural),
    ensures
        r == cooled(cooldown, natural as int, threshold as int),
{
    match cooldown {
        Some(c) => if distance(natural, c) > threshold {
            None
        } else {
            cooldown
        },
        None => None,
    }
}

/// Moves one axis to `natural_pos` and returns the position it takes: the held
/// position while a snap is engaged, a newly found one, or the natural one.
pub fn update_axis(
    snap: &mut Option<AxisSnap>,
    cooldown: &mut Option<i64>,
    natural_pos: i64,
    p: &SnapParams<'_>,
) -> (r: i64)
    requires
        p.wf(),
        in_range(natural_pos),
        axis_wf(*old(snap), *old(cooldown)),
    ensures
        (*final(snap), *final(cooldown), r as int) == move_step(
            *old(snap),
            *old(cooldown),
            natural_pos,
            *p,
        ),
        axis_wf(*final(snap), *final(cooldown)),
        in_snap_range(r),
{
    if let Some(s) = *snap {
        if breaks_at(s, natural_pos, p.break_force) {
            *cooldown = Some(s.snapped_pos);
            *snap = None;
            natural_pos
        } else {
            s.snapped_pos
        }
    } else {
        *cooldown = cooldown_left(*cooldown, natural_pos, p.threshold);
        if cooldown.is_none() {
            if let Some((snapped_pos, _)) = find_snap_candidate(natural_pos, p) {
                *snap = Some(AxisSnap { snapped_pos, natural_at_engage: natural_pos });
                return snapped_pos;
            }
        }
        natural_pos
    }
}

/// Moves one resized edge to `natural_edge` and returns the position it takes.
pub fn update_edge(
    snap: &mut Option<AxisSnap>,
    cooldown: &mut Option<i64>,
    natural_edge: i64,
    p: &EdgeSnapParams<'_>,
) -> (r: i64)
    requires
        p.wf(),
        in_range(natural_edge),
        axis_wf(*old(snap), *old(cooldown)),
    ensures
        (*final(snap), *final(cooldown), r as int) == edge_step(
            *old(snap),
            *old(cooldown),
            natural_edge,
            *p,
        ),
        axis_wf(*final(snap), *final(cooldown)),
        in_snap_range(r),
{
    if let Some(s) = *snap {
        if breaks_at(s, natural_edge, p.break_force) {
            *cooldown = Some(s.snapped_pos);
            *snap = None;
            natural_edge
        } else {
            s.snapped_pos
        }
    } else {
        *cooldown = cooldown_left(*cooldown, natural_edge, p.threshold);
        if cooldown.is_none() {
            if let Some((snapped_pos, _)) = find_edge_snap(natural_edge, p) {
                *snap = Some(AxisSnap { snapped_pos, natural_at_engage: natural_edge });
                return snapped_pos;
            }
        }
        natural_edge
    }
}

/// Bits of a resize edge mask: top, bottom, left, right.
pub open spec fn mask_top(mask: u32) -> bool {
    mask & 1 != 0
}

pub open spec fn mask_bottom(mask: u32) -> bool {
    mask & 2 != 0
}

pub open spec fn mask_left(mask: u32) -> bool {
    mask & 4 != 0
}

pub open spec fn mask_right(mask: u32) -> bool {
    mask & 8 != 0
}

/// What a resize is measured against: the window at the start of the drag, its
/// title bar, and the search parameters.
#[derive(Clone, Copy, Debug)]
pub struct ResizeFrame<'a> {
    /// Which edges are dragged: top 1, bottom 2, left 4, right 8.
    pub edges_mask: u32,
    /// Position at the start of the drag, in pixels.
    pub initial_location: (i32, i32),
    /// Size at the start of the drag, in pixels.
    pub initial_size: (i32, i32),
    /// Height of the title bar above the window, in pixels.
    pub self_bar: i32,
    /// The windows to snap to.
    pub others: &'a [SnapRect],
    /// Distance kept between opposite edges.
    pub gap: i64,
    /// Distance on the canvas at which snapping starts.
    pub snap_distance: i64,
    /// Travel on the canvas that breaks a snap.
    pub snap_break_force: i64,
    /// Whether equal edges align as well.
    pub same_edge: bool,
}

impl<'a> ResizeFrame<'a> {
    pub open spec fn wf(self) -> bool {
        in_range(self.gap) && rects_wf(self.others@)
    }

    pub open spec fn left(self) -> int {
        from_pixels(self.initial_location.0 as int)
    }

    pub open spec fn right(self) -> int {
        self.left() + from_pixels(self.initial_size.0 as int)
    }

    pub open spec fn top(self) -> int {
        from_pixels(self.initial_location.1 as int)
    }

    pub open spec fn bottom(self) -> int {
        self.top() + from_pixels(self.initial_size.1 as int)
    }

    pub open spec fn bar(self) -> int {
        from_pixels(self.self_bar as int)
    }

    /// Search parameters of one edge.
    pub open spec fn edge(self, perp: (int, int), horizontal: bool, high_edge: bool) -> EdgeSnapParams<'a> {
        EdgeSnapParams {
            perp_low: perp.0 as i64,
            perp_high: perp.1 as i64,
            horizontal,
            same_edge: self.same_edge,
            others: self.others,
            gap: self.gap,
            threshold: self.snap_distance,
            break_force: self.snap_break_force,
            high_edge,
        }
    }

    /// The rows that the window covers at height `h`. A held vertical snap
    /// counts in place of the edge that is dragged.
    pub open spec fn rows(self, y: Option<AxisSnap>, h: int) -> (int, int) {
        let top = if mask_top(self.edges_mask) {
            match y {
                Some(s) => s.snapped_pos as int,
                None => self.bottom() - from_pixels(h) - self.bar(),
            }
        } else {
            self.top() - self.bar()
        };
        let bottom = if mask_bottom(self.edges_mask) {
            match y {
                Some(s) => s.snapped_pos as int,
                None => self.top() + from_pixels(h),
            }
        } else {
            self.bottom()
        };
        (top, bottom)
    }

    /// The columns that the window covers at width `w`.
    pub open spec fn columns(self, w: int) -> (int, int) {
        if mask_left(self.edges_mask) {
            (self.right() - from_pixels(w), self.right())
        } else if mask_right(self.edges_mask) {
            (self.left(), self.left() + from_pixels(w))
        } else {
            (self.left(), self.right())
        }
    }

    /// Snap, cooldown and width after the horizontal edge was moved so that
    /// the width would be `w`.
    pub open spec fn width_step(
        self,
        snap: Option<AxisSnap>,
        cooldown: Option<i64>,
        w: int,
        rows: (int, int),
    ) -> (Option<AxisSnap>, Option<i64>, int) {
        if mask_right(self.edges_mask) {
            let natural = (self.left() + from_pixels(w)) as i64;
            let (s, c, pos) = edge_step(snap, cooldown, natural, self.edge(rows, true, true));
            (s, c, clamp_i32(trunc_pixels(pos - self.left())))
        } else if mask_left(self.edges_mask) {
            let natural = (self.right() - from_pixels(w)) as i64;
            let (s, c, pos) = edge_step(snap, cooldown, natural, self.edge(rows, true, false));
            (s, c, clamp_i32(trunc_pixels(self.right() - pos)))
        } else {
            (snap, cooldown, w)
        }
    }

    /// Snap, cooldown and height after the vertical edge was moved so that
    /// the height would be `h`.
    pub open spec fn height_step(
        self,
        snap: Option<AxisSnap>,
        cooldown: Option<i64>,
        h: int,
        columns: (int, int),
    ) -> (Option<AxisSnap>, Option<i64>, int) {
        if mask_bottom(self.edges_mask) {
            let natural = (self.top() + from_pixels(h)) as i64;
            let (s, c, pos) = edge_step(snap, cooldown, natural, self.edge(columns, false, true));
            (s, c, clamp_i32(trunc_pixels(pos - self.top())))
        } else if mask_top(self.edges_mask) {
            let natural = (self.bottom() - from_pixels(h) - self.bar()) as i64;
            let (s, c, pos) = edge_step(snap, cooldown, natural, self.edge(columns, false, false));
            (s, c, clamp_i32(trunc_pixels(self.bottom() - pos - self.bar())))
        } else {
            (snap, cooldown, h)
        }
    }

    /// State, width and height after a drag that would make the window `w`
    /// wide and `h` high.
    pub open spec fn resized(self, snap: SnapState, w: int, h: int) -> (SnapState, int, int) {
        let (x, cooldown_x, w1) = self.width_step(snap.x, snap.cooldown_x, w, self.rows(snap.y, h));
        let (y, cooldown_y, h1) = self.height_step(snap.y, snap.cooldown_y, h, self.columns(w1));
        (
            SnapState { x, y, cooldown_x, cooldown_y },
            if w1 < 1 {
                1
            } else {
                w1
            },
            if h1 < 1 {
                1
            } else {
                h1
            },
        )
    }
}

/// Applies edge snapping to a running resize: takes the size that the pointer
/// asks for and leaves the size that the window gets, never below one pixel.
///
/// `snap_distance` and `snap_break_force` are distances on the canvas; the
/// distances on the screen are these times the zoom.
pub fn snap_resize_edges(
    snap: &mut SnapState,
    edges_mask: u32,
    initial_location: (i32, i32),
    initial_size: (i32, i32),
    self_bar: i32,
    new_w: &mut i32,
    new_h: &mut i32,
    others: &[SnapRect],
    gap: i64,
    snap_distance: i64,
    snap_break_force: i64,
    same_edge: bool,
)
    requires
        in_range(gap),
        rects_wf(others@),
        old(snap).wf(),
    ensures
        (*final(snap), *final(new_w) as int, *final(new_h) as int) == (ResizeFrame {
            edges_mask,
            initial_location,
            initial_size,
            self_bar,
            others,
            gap,
            snap_distance,
            snap_break_force,
            same_edge,
        }).resized(*old(snap), *old(new_w) as int, *old(new_h) as int),
        final(snap).wf(),
        *final(new_w) >= 1,
        *final(new_h) >= 1,
{
    let frame = ResizeFrame {
        edges_mask,
        initial_location,
        initial_size,
        self_bar,
        others,
        gap,
        snap_distance,
        snap_break_force,
        same_edge,
    };
    let mask: u32 = edges_mask;
    let has_top = mask & 1 != 0;
    let has_bottom = mask & 2 != 0;
    let has_left = mask & 4 != 0;
    let has_right = mask & 8 != 0;
    let left: i64 = pixels(frame.initial_location.0);
    let top: i64 = pixels(frame.initial_location.1);
    let right: i64 = left + pixels(frame.initial_size.0);
    let bottom: i64 = top + pixels(frame.initial_size.1);
    let bar: i64 = pixels(frame.self_bar);

    let visual_top: i64 = if has_top {
        match snap.y {
            Some(s) => s.snapped_pos,
            None => bottom - pixels(*new_h) - bar,
        }
    } else {
        top - bar
    };
    let visual_bottom: i64 = if has_bottom {
        match snap.y {
            Some(s) => s.snapped_pos,
            None => top + pixels(*new_h),
        }
    } else {
        bottom
    };
    let horizontal = EdgeSnapParams {
        perp_low: visual_top,
        perp_high: visual_bottom,
        horizontal: true,
        same_edge: frame.same_edge,
        others: frame.others,
        gap: frame.gap,
        threshold: frame.snap_distance,
        break_force: frame.snap_break_force,
        high_edge: has_right,
    };
    if has_right {
        let natural: i64 = left + pixels(*new_w);
        let pos: i64 = update_edge(&mut snap.x, &mut snap.cooldown_x, natural, &horizontal);
        *new_w = trunc_to_pixels(pos - left);
    } else if has_left {
        let natural: i64 = right - pixels(*new_w);
        let pos: i64 = update_edge(&mut snap.x, &mut snap.cooldown_x, natural, &horizontal);
        *new_w = trunc_to_pixels(right - pos);
    }

    let (column_low, column_high): (i64, i64) = if has_left {
        (right - pixels(*new_w), right)
    } else if has_right {
        (left, left + pixels(*new_w))
    } else {
        (left, right)
    };
    let vertical = EdgeSnapParams {
        perp_low: column_low,
        perp_high: column_high,
        horizontal: false,
        same_edge: frame.same_edge,
        others: frame.others,
        gap: frame.gap,
        threshold: frame.snap_distance,
        break_force: frame.snap_break_force,
        high_edge: has_bottom,
    };
    if has_bottom {
        let natural: i64 = top + pixels(*new_h);
        let pos: i64 = update_edge(&mut snap.y, &mut snap.cooldown_y, natural, &vertical);
        *new_h = trunc_to_pixels(pos - top);
    } else if has_top {
        let natural: i64 = bottom - pixels(*new_h) - bar;
        let pos: i64 = update_edge(&mut snap.y, &mut snap.cooldown_y, natural, &vertical);
        *new_h = trunc_to_pixels(bottom - pos - bar);
    }
    if *new_w < 1 {
        *new_w = 1;
    }
    if *new_h < 1 {
        *new_h = 1;
    }
}

/// An engaged snap holds its position until the pointer has travelled the
/// break force, and nothing else changes meanwhile.
pub proof fn engaged_snap_holds(
    s: AxisSnap,
    cooldown: Option<i64>,
    natural: i64,
    threshold: int,
    break_force: int,
    found: Option<(int, int)>,
)
    requires
        !breaks(s, natural as int, break_force),
    ensures
        axis_step(Some(s), cooldown, natural, threshold, break_force, found) == (
            Some(s),
            cooldown,
            s.snapped_pos as int,
        ),
{
}

/// A snap that has just broken does not engage again at the same coordinate:
/// as long as the window stays within the threshold of it, it moves freely.
pub proof fn broken_snap_stays_open(
    s: AxisSnap,
    before: Option<i64>,
    at_break: i64,
    natural: i64,
    threshold: int,
    break_force: int,
    found: Option<(int, int)>,
)
    requires
        breaks(s, at_break as int, break_force),
        magnitude(natural - s.snapped_pos) <= threshold,
    ensures
        ({
            let (snap, cooldown, pos) = axis_step(
                Some(s),
                before,
                at_break,
                threshold,
                break_force,
                found,
            );
            &&& pos == at_break
            &&& axis_step(snap, cooldown, natural, threshold, break_force, found) == (
                None::<AxisSnap>,
                Some(s.snapped_pos),
                natural as int,
            )
        }),
{
}

/// Without windows to snap to, and with nothing engaged, a window moves freely.
pub proof fn nothing_to_snap_to(snap: Option<AxisSnap>, cooldown: Option<i64>, natural: i64, p: SnapParams)
    requires
        p.others@.len() == 0,
        snap is None,
    ensures
        move_step(snap, cooldown, natural, p).0 is None,
        move_step(snap, cooldown, natural, p).2 == natural,
{
    assert(move_candidates(natural as int, p, 0) =~= seq![]);
}

/// A newly engaged snap is less than the threshold away from the edge that
/// snapped.
pub proof fn snap_engages_within_threshold(natural: int, p: SnapParams)
    ensures
        nearest(move_candidates(natural, p, p.others@.len()), p.threshold as int) matches Some(c)
            ==> c.1 < p.threshold,
{
    nearest_is_first_closest(move_candidates(natural, p, p.others@.len()), p.threshold as int);
}

} // verus!
