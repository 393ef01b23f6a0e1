//! Snapping to the edges of other windows.

use crate::snap::{AxisSnap, EdgeSnapParams, ResizeFrame, SnapParams, SnapRect, SnapState};
use vstd::prelude::*;

verus! {

use crate::snap::{
    axis_step,
    breaks,
    edge_candidates,
    edge_offers,
    edge_step,
    mask_bottom,
    mask_left,
    mask_right,
    mask_top,
    move_candidates,
    move_offers,
    move_step,
    nearest,
    nearest_is_first_closest,
};
use crate::units::magnitude;

/// Whether `b` is `a` with x and y exchanged.
pub open spec fn exchanged(a: SnapRect, b: SnapRect) -> bool {
    a.x_low == b.y_low && a.x_high == b.y_high && a.y_low == b.x_low && a.y_high == b.x_high
}

/// Whether the rectangles of `b` are those of `a` with x and y exchanged.
pub open spec fn all_exchanged(a: Seq<SnapRect>, b: Seq<SnapRect>) -> bool {
    a.len() == b.len() && forall|i: int|
        0 <= i < a.len() ==> exchanged(#[trigger] a[i], #[trigger] b[i])
}

/// A moved window snaps alike on both axes: with x and y exchanged everywhere,
/// the same positions are offered at the same distances.
pub proof fn moves_snap_alike_on_both_axes(natural: int, p: SnapParams, q: SnapParams, n: nat)
    requires
        p.horizontal != q.horizontal,
        all_exchanged(p.others@, q.others@),
        p.extent == q.extent,
        p.perp_low == q.perp_low,
        p.perp_high == q.perp_high,
        p.gap == q.gap,
        p.same_edge == q.same_edge,
        n <= p.others@.len(),
    ensures
        move_candidates(natural, p, n) == move_candidates(natural, q, n),
        nearest(move_candidates(natural, p, n), p.threshold as int) == nearest(
            move_candidates(natural, q, n),
            p.threshold as int,
        ),
    decreases n,
{
    if n > 0 {
        moves_snap_alike_on_both_axes(natural, p, q, (n - 1) as nat);
        assert(exchanged(p.others@[n - 1], q.others@[n - 1]));
    }
}

/// A resized edge snaps alike on both axes.
pub proof fn edges_snap_alike_on_both_axes(natural: int, p: EdgeSnapParams, q: EdgeSnapParams, n: nat)
    requires
        p.horizontal != q.horizontal,
        all_exchanged(p.others@, q.others@),
        p.perp_low == q.perp_low,
        p.perp_high == q.perp_high,
        p.gap == q.gap,
        p.same_edge == q.same_edge,
        p.high_edge == q.high_edge,
        n <= p.others@.len(),
    ensures
        edge_candidates(natural, p, n) == edge_candidates(natural, q, n),
    decreases n,
{
    if n > 0 {
        edges_snap_alike_on_both_axes(natural, p, q, (n - 1) as nat);
        assert(exchanged(p.others@[n - 1], q.others@[n - 1]));
    }
}

/// Whether a window lies beside the stretch from `low` to `high` across the
/// axis.
pub open spec fn lies_beside(r: SnapRect, horizontal: bool, low: i64, high: i64) -> bool {
    if horizontal {
        r.y_low < high && low < r.y_high
    } else {
        r.x_low < high && low < r.x_high
    }
}

/// Where a window begins along the axis.
pub open spec fn begins(r: SnapRect, horizontal: bool) -> int {
    if horizontal {
        r.x_low as int
    } else {
        r.y_low as int
    }
}

/// Where a window ends along the axis.
pub open spec fn ends(r: SnapRect, horizontal: bool) -> int {
    if horizontal {
        r.x_high as int
    } else {
        r.y_high as int
    }
}

/// Whether a moved window at `pos` sits at an edge of `r`, having come `dist`
/// with the edge that snaps: before it or behind it at the gap, or, where equal
/// edges align, at the same beginning or end.
pub open spec fn sits_at(natural: int, p: SnapParams, r: SnapRect, pos: int, dist: int) -> bool {
    let begin = begins(r, p.horizontal);
    let end = ends(r, p.horizontal);
    ||| pos + p.extent + p.gap == begin && dist == magnitude(begin - (natural + p.extent))
    ||| pos == end + p.gap && dist == magnitude(end - natural)
    ||| p.same_edge && pos == begin && dist == magnitude(begin - natural)
    ||| p.same_edge && pos + p.extent == end && dist == magnitude(end - (natural + p.extent))
}

proof fn candidates_sit_at_edges(natural: int, p: SnapParams, n: nat, i: int) -> (k: int)
    requires
        n <= p.others@.len(),
        0 <= i < move_candidates(natural, p, n).len(),
    ensures
        0 <= k < n,
        lies_beside(p.others@[k], p.horizontal, p.perp_low, p.perp_high),
        sits_at(
            natural,
            p,
            p.others@[k],
            move_candidates(natural, p, n)[i].0,
            move_candidates(natural, p, n)[i].1,
        ),
    decreases n,
{
    let before = move_candidates(natural, p, (n - 1) as nat);
    if i < before.len() {
        assert(move_candidates(natural, p, n)[i] == before[i]);
        candidates_sit_at_edges(natural, p, (n - 1) as nat, i)
    } else {
        let offers = move_offers(natural, p, p.others@[n - 1]);
        assert(move_candidates(natural, p, n)[i] == offers[i - before.len()]);
        n - 1
    }
}

proof fn edges_are_candidates(natural: int, p: SnapParams, n: nat, k: int, pos: int, dist: int) -> (i:
    int)
    requires
        0 <= k < n <= p.others@.len(),
        lies_beside(p.others@[k], p.horizontal, p.perp_low, p.perp_high),
        sits_at(natural, p, p.others@[k], pos, dist),
    ensures
        0 <= i < move_candidates(natural, p, n).len(),
        move_candidates(natural, p, n)[i] == (pos, dist),
    decreases n,
{
    let before = move_candidates(natural, p, (n - 1) as nat);
    if k < n - 1 {
        let i = edges_are_candidates(natural, p, (n - 1) as nat, k, pos, dist);
        assert(move_candidates(natural, p, n)[i] == before[i]);
        i
    } else {
        let r = p.others@[k];
        let begin = begins(r, p.horizontal);
        let end = ends(r, p.horizontal);
        let offers = move_offers(natural, p, r);
        let at: int = if pos + p.extent + p.gap == begin && dist == magnitude(
            begin - (natural + p.extent),
        ) {
            0
        } else if pos == end + p.gap && dist == magnitude(end - natural) {
            1
        } else if pos == begin && dist == magnitude(begin - natural) {
            2
        } else {
            3
        };
        assert(offers[at] == (pos, dist));
        assert(move_candidates(natural, p, n)[before.len() + at] == offers[at]);
        before.len() + at
    }
}

/// Where a moved window snaps, it sits at an edge of a window that it lies
/// beside, having come less than the threshold; and no other such place is
/// closer.
pub proof fn moved_windows_sit_at_edges(natural: int, p: SnapParams, pos: int, dist: int)
    requires
        nearest(move_candidates(natural, p, p.others@.len()), p.threshold as int) == Some(
            (pos, dist),
        ),
    ensures
        dist < p.threshold,
        exists|k: int| #![trigger p.others@[k]]
            0 <= k < p.others@.len() && lies_beside(
                p.others@[k],
                p.horizontal,
                p.perp_low,
                p.perp_high,
            ) && sits_at(natural, p, p.others@[k], pos, dist),
        forall|k: int, other: int, way: int|
            0 <= k < p.others@.len() && lies_beside(
                p.others@[k],
                p.horizontal,
                p.perp_low,
                p.perp_high,
            ) && #[trigger] sits_at(natural, p, p.others@[k], other, way) ==> dist <= way,
{
    let all = move_candidates(natural, p, p.others@.len());
    nearest_is_first_closest(all, p.threshold as int);
    let i = choose|i: int| #![trigger all[i]] 0 <= i < all.len() && all[i] == (pos, dist);
    let k = candidates_sit_at_edges(natural, p, p.others@.len(), i);
    assert(sits_at(natural, p, p.others@[k], pos, dist));
    assert forall|k: int, other: int, way: int|
        0 <= k < p.others@.len() && lies_beside(
            p.others@[k],
            p.horizontal,
            p.perp_low,
            p.perp_high,
        ) && #[trigger] sits_at(natural, p, p.others@[k], other, way) implies dist <= way by {
        let j = edges_are_candidates(natural, p, p.others@.len(), k, other, way);
        assert(all[j].1 >= dist);
    }
}

/// A moved window snaps wherever an edge of a window that it lies beside is
/// less than the threshold away.
pub proof fn near_edges_are_found(natural: int, p: SnapParams, k: int, pos: int, dist: int)
    requires
        0 <= k < p.others@.len(),
        lies_beside(p.others@[k], p.horizontal, p.perp_low, p.perp_high),
        sits_at(natural, p, p.others@[k], pos, dist),
        dist < p.threshold,
    ensures
        nearest(move_candidates(natural, p, p.others@.len()), p.threshold as int) is Some,
{
    let all = move_candidates(natural, p, p.others@.len());
    nearest_is_first_closest(all, p.threshold as int);
    let i = edges_are_candidates(natural, p, p.others@.len(), k, pos, dist);
    assert(all[i].1 < p.threshold);
}

/// Whether a dragged edge at `pos` meets an edge of `r`, having come `dist`: a
/// right or bottom edge the beginning of `r` at the gap, a left or top edge the
/// end of it; or, where equal edges align, the same edge of `r`.
pub open spec fn meets_edge(natural: int, p: EdgeSnapParams, r: SnapRect, pos: int, dist: int) -> bool {
    let begin = begins(r, p.horizontal);
    let end = ends(r, p.horizontal);
    if p.high_edge {
        ||| pos + p.gap == begin && dist == magnitude(begin - natural)
        ||| p.same_edge && pos == end && dist == magnitude(end - natural)
    } else {
        ||| pos - p.gap == end && dist == magnitude(end - natural)
        ||| p.same_edge && pos == begin && dist == magnitude(begin - natural)
    }
}

proof fn edge_candidates_meet_edges(natural: int, p: EdgeSnapParams, n: nat, i: int) -> (k: int)
    requires
        n <= p.others@.len(),
        0 <= i < edge_candidates(natural, p, n).len(),
    ensures
        0 <= k < n,
        lies_beside(p.others@[k], p.horizontal, p.perp_low, p.perp_high),
        meets_edge(
            natural,
            p,
            p.others@[k],
            edge_candidates(natural, p, n)[i].0,
            edge_candidates(natural, p, n)[i].1,
        ),
    decreases n,
{
    let before = edge_candidates(natural, p, (n - 1) as nat);
    if i < before.len() {
        assert(edge_candidates(natural, p, n)[i] == before[i]);
        edge_candidates_meet_edges(natural, p, (n - 1) as nat, i)
    } else {
        let offers = edge_offers(natural, p, p.others@[n - 1]);
        assert(edge_candidates(natural, p, n)[i] == offers[i - before.len()]);
        n - 1
    }
}

proof fn met_edges_are_candidates(
    natural: int,
    p: EdgeSnapParams,
    n: nat,
    k: int,
    pos: int,
    dist: int,
) -> (i: int)
    requires
        0 <= k < n <= p.others@.len(),
        lies_beside(p.others@[k], p.horizontal, p.perp_low, p.perp_high),
        meets_edge(natural, p, p.others@[k], pos, dist),
    ensures
        0 <= i < edge_candidates(natural, p, n).len(),
        edge_candidates(natural, p, n)[i] == (pos, dist),
    decreases n,
{
    let before = edge_candidates(natural, p, (n - 1) as nat);
    if k < n - 1 {
        let i = met_edges_are_candidates(natural, p, (n - 1) as nat, k, pos, dist);
        assert(edge_candidates(natural, p, n)[i] == before[i]);
        i
    } else {
        let offers = edge_offers(natural, p, p.others@[k]);
        let at: int = if offers[0] == (pos, dist) {
            0
        } else {
            1
        };
        assert(offers[at] == (pos, dist));
        assert(edge_candidates(natural, p, n)[before.len() + at] == offers[at]);
        before.len() + at
    }
}

/// Where a dragged edge snaps, it meets an edge of a window that it lies
/// beside, having come less than the threshold; and no other such place is
/// closer.
pub proof fn dragged_edges_meet_edges(natural: int, p: EdgeSnapParams, pos: int, dist: int)
    requires
        nearest(edge_candidates(natural, p, p.others@.len()), p.threshold as int) == Some(
            (pos, dist),
        ),
    ensures
        dist < p.threshold,
        exists|k: int| #![trigger p.others@[k]]
            0 <= k < p.others@.len() && lies_beside(
                p.others@[k],
                p.horizontal,
                p.perp_low,
                p.perp_high,
            ) && meets_edge(natural, p, p.others@[k], pos, dist),
        forall|k: int, other: int, way: int|
            0 <= k < p.others@.len() && lies_beside(
                p.others@[k],
                p.horizontal,
                p.perp_low,
                p.perp_high,
            ) && #[trigger] meets_edge(natural, p, p.others@[k], other, way) ==> dist <= way,
{
    let all = edge_candidates(natural, p, p.others@.len());
    nearest_is_first_closest(all, p.threshold as int);
    let i = choose|i: int| #![trigger all[i]] 0 <= i < all.len() && all[i] == (pos, dist);
    let k = edge_candidates_meet_edges(natural, p, p.others@.len(), i);
    assert(meets_edge(natural, p, p.others@[k], pos, dist));
    assert forall|k: int, other: int, way: int|
        0 <= k < p.others@.len() && lies_beside(
            p.others@[k],
            p.horizontal,
            p.perp_low,
            p.perp_high,
        ) && #[trigger] meets_edge(natural, p, p.others@[k], other, way) implies dist <= way by {
        let j = met_edges_are_candidates(natural, p, p.others@.len(), k, other, way);
        assert(all[j].1 >= dist);
    }
}

/// A dragged edge snaps wherever an edge that it can meet is less than the
/// threshold away.
pub proof fn near_edges_are_met(natural: int, p: EdgeSnapParams, k: int, pos: int, dist: int)
    requires
        0 <= k < p.others@.len(),
        lies_beside(p.others@[k], p.horizontal, p.perp_low, p.perp_high),
        meets_edge(natural, p, p.others@[k], pos, dist),
        dist < p.threshold,
    ensures
        nearest(edge_candidates(natural, p, p.others@.len()), p.threshold as int) is Some,
{
    let all = edge_candidates(natural, p, p.others@.len());
    nearest_is_first_closest(all, p.threshold as int);
    let i = met_edges_are_candidates(natural, p, p.others@.len(), k, pos, dist);
    assert(all[i].1 < p.threshold);
}

/// A snap lets go exactly when the window has left the stretch between the
/// place where the snap engaged and the place where it holds, by the break
/// force or more, at either end.
pub proof fn snaps_let_go_outside(s: AxisSnap, natural: int, force: int)
    ensures
        ({
            let low = if s.snapped_pos <= s.natural_at_engage {
                s.snapped_pos
            } else {
                s.natural_at_engage
            };
            let high = if s.snapped_pos <= s.natural_at_engage {
                s.natural_at_engage
            } else {
                s.snapped_pos
            };
            breaks(s, natural, force) <==> natural + force <= low || high + force <= natural
        }),
{
}

/// What becomes of one axis: a snap that holds keeps the window where it is
/// held, one that lets go frees it and blocks its own place, a free window goes
/// where something is found, and nothing is looked for near a blocked place.
pub proof fn snapping_holds_frees_and_blocks(
    s: AxisSnap,
    blocked: i64,
    natural: i64,
    threshold: int,
    force: int,
    pos: i64,
    dist: int,
)
    ensures
        axis_step(Some(s), None, natural, threshold, force, None).2 == (if natural + force <= s.snapped_pos
            && natural + force <= s.natural_at_engage || s.snapped_pos + force <= natural
            && s.natural_at_engage + force <= natural {
            natural
        } else {
            s.snapped_pos
        }),
        axis_step(Some(s), None, natural, threshold, force, None).0 is None ==> axis_step(
            Some(s),
            None,
            natural,
            threshold,
            force,
            None,
        ).1 == Some(s.snapped_pos),
        axis_step(None, None, natural, threshold, force, Some((pos as int, dist))) == (
            Some(AxisSnap { snapped_pos: pos, natural_at_engage: natural }),
            None::<i64>,
            pos as int,
        ),
        axis_step(None, None, natural, threshold, force, None).2 == natural,
        natural - blocked <= threshold && blocked - natural <= threshold ==> axis_step(
            None,
            Some(blocked),
            natural,
            threshold,
            force,
            Some((pos as int, dist)),
        ) == (None::<AxisSnap>, Some(blocked), natural as int),
        natural - blocked > threshold || blocked - natural > threshold ==> axis_step(
            None,
            Some(blocked),
            natural,
            threshold,
            force,
            Some((pos as int, dist)),
        ) == axis_step(None, None, natural, threshold, force, Some((pos as int, dist))),
{
    snaps_let_go_outside(s, natural as int, force);
}

/// A moved axis that is free snaps to what the search finds, and to nothing
/// else.
pub proof fn moves_follow_the_search(natural: i64, p: SnapParams, pos: i64, dist: int)
    ensures
        nearest(move_candidates(natural as int, p, p.others@.len()), p.threshold as int) == Some(
            (pos as int, dist),
        ) ==> move_step(None, None, natural, p).2 == pos,
        nearest(move_candidates(natural as int, p, p.others@.len()), p.threshold as int) is None
            ==> move_step(None, None, natural, p).2 == natural,
{
}

/// The bits of a mask name the edges: top, bottom, left and right.
pub proof fn mask_bits_name_the_edges()
    ensures
        mask_top(1) && !mask_bottom(1) && !mask_left(1) && !mask_right(1),
        !mask_top(2) && mask_bottom(2) && !mask_left(2) && !mask_right(2),
        !mask_top(4) && !mask_bottom(4) && mask_left(4) && !mask_right(4),
        !mask_top(8) && !mask_bottom(8) && !mask_left(8) && mask_right(8),
        mask_top(5) && mask_left(5) && !mask_bottom(5) && !mask_right(5),
        mask_bottom(10) && mask_right(10) && !mask_top(10) && !mask_left(10),
{
    assert(1u32 & 1 != 0 && 1u32 & 2 == 0 && 1u32 & 4 == 0 && 1u32 & 8 == 0) by (bit_vector);
    assert(2u32 & 1 == 0 && 2u32 & 2 != 0 && 2u32 & 4 == 0 && 2u32 & 8 == 0) by (bit_vector);
    assert(4u32 & 1 == 0 && 4u32 & 2 == 0 && 4u32 & 4 != 0 && 4u32 & 8 == 0) by (bit_vector);
    assert(8u32 & 1 == 0 && 8u32 & 2 == 0 && 8u32 & 4 == 0 && 8u32 & 8 != 0) by (bit_vector);
    assert(5u32 & 1 != 0 && 5u32 & 2 == 0 && 5u32 & 4 != 0 && 5u32 & 8 == 0) by (bit_vector);
    assert(10u32 & 1 == 0 && 10u32 & 2 != 0 && 10u32 & 4 == 0 && 10u32 & 8 != 0) by (bit_vector);
}

/// Whether two positions are less than a pixel apart.
pub open spec fn within_a_pixel(a: int, b: int) -> bool {
    magnitude(a - b) < 32_000
}

/// After a resize that snapped, the dragged edge stands where the snap holds
/// it, short of a pixel: the right edge counted from the left one, which stands
/// still, the left edge from the right one, and so for the bottom and the top,
/// above which the title bar has its place.
pub proof fn snapped_edges_stand_where_they_are_held(
    f: ResizeFrame,
    snap: SnapState,
    w: i32,
    h: i32,
    a: AxisSnap,
)
    requires
        snap.wf(),
    ensures
        ({
            let (after, w1, h1) = f.resized(snap, w as int, h as int);
            let left = 32_000 * f.initial_location.0;
            let top = 32_000 * f.initial_location.1;
            let right = left + 32_000 * f.initial_size.0;
            let bottom = top + 32_000 * f.initial_size.1;
            let bar = 32_000 * f.self_bar;
            &&& w1 >= 1 && h1 >= 1
            &&& after.x == Some(a) && mask_right(f.edges_mask) && 1 < w1 < i32::MAX
                ==> within_a_pixel(left + 32_000 * w1, a.snapped_pos as int)
            &&& after.x == Some(a) && mask_left(f.edges_mask) && !mask_right(f.edges_mask) && 1 < w1
                < i32::MAX ==> within_a_pixel(right - 32_000 * w1, a.snapped_pos as int)
            &&& after.y == Some(a) && mask_bottom(f.edges_mask) && 1 < h1 < i32::MAX
                ==> within_a_pixel(top + 32_000 * h1, a.snapped_pos as int)
            &&& after.y == Some(a) && mask_top(f.edges_mask) && !mask_bottom(f.edges_mask) && 1 < h1
                < i32::MAX ==> within_a_pixel(bottom - 32_000 * h1 - bar, a.snapped_pos as int)
        }),
{
}

/// A resize that does not snap gets the size that is asked for, and an edge that
/// is not dragged neither snaps nor changes the size.
pub proof fn free_edges_go_where_they_are_dragged(f: ResizeFrame, snap: SnapState, w: i32, h: i32)
    requires
        w >= 1,
        h >= 1,
    ensures
        ({
            let (after, w1, h1) = f.resized(snap, w as int, h as int);
            &&& after.x is None && snap.x is None ==> w1 == w
            &&& after.y is None && snap.y is None ==> h1 == h
            &&& !mask_left(f.edges_mask) && !mask_right(f.edges_mask) ==> w1 == w && after.x == snap.x
                && after.cooldown_x == snap.cooldown_x
            &&& !mask_top(f.edges_mask) && !mask_bottom(f.edges_mask) ==> h1 == h && after.y == snap.y
                && after.cooldown_y == snap.cooldown_y
        }),
{
}

/// The rows and columns that a resized window covers: what stands still stands
/// where it was, the title bar on top counts, and the dragged side is as far
/// from the other as the window is high or wide.
pub proof fn resized_windows_cover_their_rows(f: ResizeFrame, w: int, h: int)
    ensures
        ({
            let left = 32_000 * f.initial_location.0;
            let top = 32_000 * f.initial_location.1;
            let right = left + 32_000 * f.initial_size.0;
            let bottom = top + 32_000 * f.initial_size.1;
            let bar = 32_000 * f.self_bar;
            let rows = f.rows(None, h);
            let columns = f.columns(w);
            &&& !mask_top(f.edges_mask) ==> rows.0 == top - bar
            &&& !mask_bottom(f.edges_mask) ==> rows.1 == bottom
            &&& mask_top(f.edges_mask) && !mask_bottom(f.edges_mask) ==> rows.1 - rows.0 == 32_000 * h
                + bar
            &&& mask_bottom(f.edges_mask) && !mask_top(f.edges_mask) ==> rows.1 - rows.0 == 32_000 * h
                + bar
            &&& !mask_left(f.edges_mask) ==> columns.0 == left
            &&& !mask_right(f.edges_mask) || mask_left(f.edges_mask) ==> columns.1 == right
            &&& mask_left(f.edges_mask) || mask_right(f.edges_mask) ==> columns.1 - columns.0 == 32_000
                * w
        }),
{
}

/// A dragged edge is looked for where it is, among windows beside the rows or
/// columns that the resized window covers: a right edge from the left one, with
/// the beginnings of the others, a left edge with their ends.
pub proof fn resizes_search_at_the_dragged_edge(
    f: ResizeFrame,
    w: i32,
    h: i32,
    rows: (i64, i64),
    columns: (i64, i64),
    x: EdgeSnapParams,
    y: EdgeSnapParams,
)
    requires
        x.others@ == f.others@,
        x.perp_low == rows.0,
        x.perp_high == rows.1,
        x.horizontal,
        x.same_edge == f.same_edge,
        x.gap == f.gap,
        x.threshold == f.snap_distance,
        x.break_force == f.snap_break_force,
        x.high_edge == mask_right(f.edges_mask),
        y.others@ == f.others@,
        y.perp_low == columns.0,
        y.perp_high == columns.1,
        !y.horizontal,
        y.same_edge == f.same_edge,
        y.gap == f.gap,
        y.threshold == f.snap_distance,
        y.break_force == f.snap_break_force,
        y.high_edge == mask_bottom(f.edges_mask),
    ensures
        ({
            let left = 32_000 * f.initial_location.0;
            let top = 32_000 * f.initial_location.1;
            let right = left + 32_000 * f.initial_size.0;
            let bottom = top + 32_000 * f.initial_size.1;
            let bar = 32_000 * f.self_bar;
            let wide = f.width_step(None, None, w as int, (rows.0 as int, rows.1 as int));
            let high = f.height_step(None, None, h as int, (columns.0 as int, columns.1 as int));
            &&& mask_right(f.edges_mask) ==> wide.0 == edge_step(
                None,
                None,
                (left + 32_000 * w) as i64,
                x,
            ).0
            &&& mask_left(f.edges_mask) && !mask_right(f.edges_mask) ==> wide.0 == edge_step(
                None,
                None,
                (right - 32_000 * w) as i64,
                x,
            ).0
            &&& mask_bottom(f.edges_mask) ==> high.0 == edge_step(
                None,
                None,
                (top + 32_000 * h) as i64,
                y,
            ).0
            &&& mask_top(f.edges_mask) && !mask_bottom(f.edges_mask) ==> high.0 == edge_step(
                None,
                None,
                (bottom - 32_000 * h - bar) as i64,
                y,
            ).0
        }),
{
    let ex = f.edge((rows.0 as int, rows.1 as int), true, x.high_edge);
    let ey = f.edge((columns.0 as int, columns.1 as int), false, y.high_edge);
    same_candidates(ex, x, (32_000 * f.initial_location.0 + 32_000 * w), f.others@.len());
    same_candidates(
        ex,
        x,
        (32_000 * f.initial_location.0 + 32_000 * f.initial_size.0 - 32_000 * w),
        f.others@.len(),
    );
    same_candidates(ey, y, (32_000 * f.initial_location.1 + 32_000 * h), f.others@.len());
    same_candidates(
        ey,
        y,
        (32_000 * f.initial_location.1 + 32_000 * f.initial_size.1 - 32_000 * h - 32_000 * f.self_bar),
        f.others@.len(),
    );
}

proof fn same_candidates(p: EdgeSnapParams, q: EdgeSnapParams, natural: int, n: nat)
    requires
        p.others@ == q.others@,
        n <= p.others@.len(),
        p.perp_low == q.perp_low,
        p.perp_high == q.perp_high,
        p.horizontal == q.horizontal,
        p.same_edge == q.same_edge,
        p.gap == q.gap,
        p.high_edge == q.high_edge,
    ensures
        edge_candidates(natural, p, n) == edge_candidates(natural, q, n),
    decreases n,
{
    if n > 0 {
        same_candidates(p, q, natural, (n - 1) as nat);
    }
}

/// A candidate takes the place of another only where it is closer, and none is
/// kept that is as far as the threshold.
pub proof fn closer_candidates_take_over(b: (int, int), c: (int, int), threshold: int)
    ensures
        c.1 < b.1 && c.1 < threshold ==> crate::snap::better(Some(b), c, threshold) == Some(c),
        c.1 >= b.1 ==> crate::snap::better(Some(b), c, threshold) == Some(b),
        c.1 >= threshold ==> crate::snap::better(None, c, threshold) is None,
        c.1 < threshold ==> crate::snap::better(None, c, threshold) == Some(c),
{
}

} // verus!
