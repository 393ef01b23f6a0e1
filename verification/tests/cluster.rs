use std::collections::HashSet;

use driftwm::cluster::{
    adjacent_side, cluster_of, resolve_cluster_shifts, ResizeClassification, Side,
};
use driftwm::snap::SnapRect;
use driftwm::units::UNITS_PER_PIXEL;

const A: u64 = 1;
const B: u64 = 2;
const C: u64 = 3;
const D: u64 = 4;

fn px(v: f64) -> i64 {
    (v * UNITS_PER_PIXEL as f64).round() as i64
}

fn rect(x_low: f64, y_low: f64, w: f64, h: f64) -> SnapRect {
    SnapRect {
        x_low: px(x_low),
        x_high: px(x_low + w),
        y_low: px(y_low),
        y_high: px(y_low + h),
    }
}

#[test]
fn right_edge_with_gap() {
    let a = rect(0.0, 0.0, 100.0, 100.0);
    let b = rect(104.0, 20.0, 50.0, 50.0);
    assert_eq!(adjacent_side(&a, &b, px(4.0)), Some(Side::Right));
}

#[test]
fn left_edge_with_gap() {
    let a = rect(200.0, 10.0, 80.0, 80.0);
    let b = rect(100.0, 20.0, 96.0, 50.0);
    assert_eq!(adjacent_side(&a, &b, px(4.0)), Some(Side::Left));
}

#[test]
fn bottom_edge_with_gap() {
    let a = rect(0.0, 0.0, 100.0, 100.0);
    let b = rect(20.0, 108.0, 60.0, 60.0);
    assert_eq!(adjacent_side(&a, &b, px(8.0)), Some(Side::Bottom));
}

#[test]
fn top_edge_with_gap() {
    let a = rect(10.0, 200.0, 80.0, 80.0);
    let b = rect(20.0, 100.0, 60.0, 92.0);
    assert_eq!(adjacent_side(&a, &b, px(8.0)), Some(Side::Top));
}

#[test]
fn corner_touch_not_adjacent() {
    let a = rect(0.0, 0.0, 100.0, 100.0);
    let b = rect(100.0, 100.0, 50.0, 50.0);
    assert_eq!(adjacent_side(&a, &b, px(0.0)), None);
}

#[test]
fn diagonal_gap_not_adjacent() {
    let a = rect(0.0, 0.0, 100.0, 100.0);
    let b = rect(108.0, 108.0, 80.0, 80.0);
    assert_eq!(adjacent_side(&a, &b, px(8.0)), None);
}

#[test]
fn wrong_distance_not_adjacent() {
    let a = rect(0.0, 0.0, 100.0, 100.0);
    let b = rect(200.0, 20.0, 50.0, 50.0);
    assert_eq!(adjacent_side(&a, &b, px(4.0)), None);
}

#[test]
fn sub_pixel_drift_tolerated() {
    let a = rect(0.0, 0.0, 100.0, 100.0);
    let b = rect(104.4, 20.0, 50.0, 50.0);
    assert_eq!(adjacent_side(&a, &b, px(4.0)), Some(Side::Right));
}

#[test]
fn parallel_flush_but_perp_disjoint_not_adjacent() {
    // x_right_flush holds (b.x_low = 100+4), but b is far below a with
    // zero perpendicular overlap — not a corner touch either.
    let a = rect(0.0, 0.0, 100.0, 100.0);
    let b = rect(104.0, 300.0, 50.0, 50.0);
    assert_eq!(adjacent_side(&a, &b, px(4.0)), None);
}

#[test]
fn cluster_chain_abc() {
    let ws = vec![
        (A, rect(0.0, 0.0, 100.0, 100.0)),
        (B, rect(104.0, 0.0, 100.0, 100.0)),
        (C, rect(208.0, 0.0, 100.0, 100.0)),
    ];
    assert_eq!(cluster_of(A, &ws, px(4.0)), HashSet::from([A, B, C]));
}

#[test]
fn cluster_chain_splits_when_c_moves_away() {
    let mut ws = vec![
        (A, rect(0.0, 0.0, 100.0, 100.0)),
        (B, rect(104.0, 0.0, 100.0, 100.0)),
        (C, rect(208.0, 0.0, 100.0, 100.0)),
    ];
    ws[2].1 = rect(500.0, 0.0, 100.0, 100.0);
    assert_eq!(cluster_of(A, &ws, px(4.0)), HashSet::from([A, B]));
}

#[test]
fn cluster_diamond_no_double_visit() {
    // A adjacent to B and C; both adjacent to D. BFS must visit D exactly
    // once despite two distinct incoming edges.
    let ws = vec![
        (A, rect(0.0, 0.0, 100.0, 100.0)),
        (B, rect(104.0, 0.0, 100.0, 100.0)),
        (C, rect(0.0, 104.0, 100.0, 100.0)),
        (D, rect(104.0, 104.0, 100.0, 100.0)),
    ];
    assert_eq!(
        cluster_of(A, &ws, px(4.0)),
        HashSet::from([A, B, C, D])
    );
}

#[test]
fn cluster_singleton_isolated_window() {
    let ws = vec![
        (A, rect(0.0, 0.0, 100.0, 100.0)),
        (B, rect(500.0, 0.0, 100.0, 100.0)),
    ];
    assert_eq!(cluster_of(A, &ws, px(4.0)), HashSet::from([A]));
}

#[test]
fn cluster_middle_of_chain_walks_both_directions() {
    // BFS from B must reach both A (earlier in iteration) and C (later).
    let ws = vec![
        (A, rect(0.0, 0.0, 100.0, 100.0)),
        (B, rect(104.0, 0.0, 100.0, 100.0)),
        (C, rect(208.0, 0.0, 100.0, 100.0)),
    ];
    assert_eq!(cluster_of(B, &ws, px(4.0)), HashSet::from([A, B, C]));
}

fn classify(
    axis_x: Option<Side>,
    axis_y: Option<Side>,
    r: SnapRect,
) -> ResizeClassification {
    ResizeClassification { axis_x, axis_y, initial_rect: r }
}

#[test]
fn resize_shifts_static_only_right_chain() {
    // A — B — C chain with B and C classified as Right-chain members.
    // Width grows by +30; both should shift by +30 in x, no y.
    let members = vec![
        classify(Some(Side::Right), None, rect(104.0, 0.0, 100.0, 100.0)),
        classify(Some(Side::Right), None, rect(208.0, 0.0, 100.0, 100.0)),
    ];
    let (shifts, _) = resolve_cluster_shifts(&members,30, 0, px(4.0), &[], None);
    assert_eq!(shifts.len(), 2);
    assert_eq!(shifts[&0], (30, 0));
    assert_eq!(shifts[&1], (30, 0));
}

#[test]
fn resize_shifts_left_chain_negates_width_delta() {
    let members = vec![
        classify(Some(Side::Left), None, rect(-104.0, 0.0, 100.0, 100.0)),
    ];
    let (shifts, _) = resolve_cluster_shifts(&members,20, 0, px(4.0), &[], None);
    assert_eq!(shifts[&0], (-20, 0));
}

#[test]
fn resize_shifts_zero_delta_produces_no_shifts() {
    let members = vec![
        classify(Some(Side::Right), None, rect(104.0, 0.0, 100.0, 100.0)),
        classify(None, None, rect(0.0, 104.0, 100.0, 100.0)),
    ];
    assert!(resolve_cluster_shifts(&members, 0, 0, px(4.0), &[], None).0.is_empty());
}

#[test]
fn resize_cascade_pulls_in_overlap_on_shrink() {
    // D — E flush at gap=4. E static-shifts -30. E_cur.x_low = 74, so
    // encroach on D = 74 - 4 - 100 = -30 → push D by -30. Result matches
    // the old inheritance semantics for this geometry because the
    // encroachment happens to equal E's full travel.
    let members = vec![
        classify(None, None, rect(0.0, 0.0, 100.0, 100.0)),
        classify(Some(Side::Right), None, rect(104.0, 0.0, 100.0, 100.0)),
    ];
    let (shifts, _) = resolve_cluster_shifts(&members,-30, 0, px(4.0), &[], None);
    assert_eq!(shifts[&1], (-30, 0), "E gets the static shift");
    assert_eq!(
        shifts[&0],
        (-30, 0),
        "D pushed by -30 because E.x_low - gap is 30 past D.x_high",
    );
}

#[test]
fn resize_cascade_propagates_transitively() {
    // Three 40×40 members at x=[0,40], [44,84], [88,128]. Member 2
    // static-shifts -50 (C_cur.x_low=38). C pushes B by -50 (encroach
    // 38-4-84=-50); B then pushes A by -44 on the next iteration, and
    // on a third pass A gets pushed another -6 to complete the train.
    // Net: everyone at -50. Tests that the cascade converges across
    // multiple shifted/shifted push rounds.
    let members = vec![
        classify(None, None, rect(0.0, 0.0, 40.0, 40.0)),
        classify(None, None, rect(44.0, 0.0, 40.0, 40.0)),
        classify(Some(Side::Right), None, rect(88.0, 0.0, 40.0, 40.0)),
    ];
    let (shifts, _) = resolve_cluster_shifts(&members,-50, 0, px(4.0), &[], None);
    assert_eq!(shifts.len(), 3);
    assert_eq!(shifts[&0], (-50, 0));
    assert_eq!(shifts[&1], (-50, 0));
    assert_eq!(shifts[&2], (-50, 0));
}

#[test]
fn resize_cascade_leaves_non_overlapping_members_alone() {
    // Primary resizes right; B shifts +20. D is a far-away cluster
    // member with no y-overlap with B — no push because y_overlap on
    // the current rects fails.
    let members = vec![
        classify(Some(Side::Right), None, rect(104.0, 0.0, 100.0, 100.0)),
        classify(None, None, rect(0.0, 500.0, 100.0, 100.0)),
    ];
    let (shifts, _) = resolve_cluster_shifts(&members,20, 0, px(4.0), &[], None);
    assert_eq!(shifts.len(), 1);
    assert_eq!(shifts[&0], (20, 0));
    assert!(!shifts.contains_key(&1));
}

#[test]
fn resize_shifts_corner_drag_member_in_both_axes() {
    let members = vec![
        classify(
            Some(Side::Right),
            Some(Side::Bottom),
            rect(104.0, 104.0, 100.0, 100.0),
        ),
    ];
    let (shifts, _) = resolve_cluster_shifts(&members,25, 15, px(4.0), &[], None);
    assert_eq!(shifts[&0], (25, 15));
}

#[test]
fn push_engages_at_snap_contact_not_overlap() {
    // B at x=[104,204] shifts by width_delta (Right chain). N sits 54px
    // past B's right edge — 50 travel + 4 gap. At width_delta=50, B_cur
    // = [154,254], encroachment = 254+4-258 = 0 → no push (snap contact
    // but no encroachment). At width_delta=51, encroachment = 255+4-258
    // = 1 → N pushed by exactly 1, NOT by the full 51. This is the
    // difference between inheritance semantics (N jumps by +51) and
    // push semantics (N follows at snap contact).
    let members = vec![
        classify(Some(Side::Right), None, rect(104.0, 0.0, 100.0, 100.0)),
        classify(None, None, rect(258.0, 0.0, 100.0, 100.0)),
    ];

    let (shifts, _) = resolve_cluster_shifts(&members,50, 0, px(4.0), &[], None);
    assert_eq!(shifts[&0], (50, 0));
    assert!(
        shifts.get(&1).is_none_or(|s| *s == (0, 0)),
        "N not pushed at snap contact: {:?}",
        shifts.get(&1),
    );

    let (shifts, _) = resolve_cluster_shifts(&members,51, 0, px(4.0), &[], None);
    assert_eq!(shifts[&0], (51, 0));
    assert_eq!(
        shifts[&1],
        (1, 0),
        "N pushed by exactly the encroachment (1), not by B's full travel (51)",
    );
}

#[test]
fn push_direction_guard_ignores_backward_neighbors() {
    // 2×2 grid. Primary A at (0,0,100x100) — not in members. Cluster:
    //   B (top-right, Right chain): x=[104,204], y=[0,100]
    //   C (bottom-left, no chain):  x=[0,100],   y=[104,204]
    //   D (bottom-right, Right chain): x=[104,204], y=[104,204]
    // Right drag by +20: B and D shift right. The direction guard on
    // compute_push forbids D (moving right) from pushing C, which sits
    // on D's LEFT side (C.x_low=0 < D.x_low=104). Likewise B ignores C.
    // Without the guard, C would get pulled into a spurious shift.
    let members = vec![
        classify(Some(Side::Right), None, rect(104.0, 0.0, 100.0, 100.0)),
        classify(None, None, rect(0.0, 104.0, 100.0, 100.0)),
        classify(Some(Side::Right), None, rect(104.0, 104.0, 100.0, 100.0)),
    ];
    let (shifts, _) = resolve_cluster_shifts(&members,20, 0, px(4.0), &[], None);
    assert_eq!(shifts[&0], (20, 0), "B shifts right");
    assert!(
        shifts.get(&1).is_none_or(|s| *s == (0, 0)),
        "C stays put — direction guard blocks backward pushes",
    );
    assert_eq!(shifts[&2], (20, 0), "D shifts right");
}

#[test]
fn push_resolves_shifted_vs_shifted_collision() {
    // Bug 3 repro. Primary B at x=[104,204], y=[0,100] (NOT in members,
    // but its geometry is what classifies A and C below). Cluster:
    //   A tall (Left chain):  x=[0,100],   y=[0,200]
    //   C bottom (Bottom chain): x=[104,204], y=[104,200]
    // A.right ↔ C.left directly. Corner-drag B's lower-left inward
    // (width_delta=-20, height_delta=-20): static shifts give A=(20,0)
    // and C=(0,-20). After statics, A_cur=[20,120]x[0,200] and
    // C_cur=[104,204]x[84,180] overlap. The push cascade must detect
    // that A (mdx=+20) is encroaching on C and push C further right by
    // exactly the encroachment — C's final shift is (20, -20).
    //
    // Old algorithm: skipped shifted-vs-shifted pairs entirely (early
    // `if shifts.contains_key(&j) { continue }`), so this collision
    // never got resolved and A/C overlapped visually.
    let members = vec![
        classify(Some(Side::Left), None, rect(0.0, 0.0, 100.0, 200.0)),
        classify(None, Some(Side::Bottom), rect(104.0, 104.0, 100.0, 96.0)),
    ];
    let (shifts, _) = resolve_cluster_shifts(&members,-20, -20, px(4.0), &[], None);
    assert_eq!(shifts[&0], (20, 0), "A gets Left-chain static shift");
    assert_eq!(
        shifts[&1],
        (20, -20),
        "C gets Bottom static + cascaded +20 push from A's rightward motion",
    );
}

#[test]
fn push_no_cross_axis_oscillation() {
    // Regression for the "A jumps up" bug. Layout:
    //   A tall left:      x=[0,100],   y=[0,400]   (Left chain)
    //   C bottom-right:   x=[104,204], y=[200,400]  (Bottom chain)
    //
    // Corner-drag B's bottom-left inward: width_delta=-30, height_delta=-50.
    // Static: A=(30,0), C=(0,-50). The old loose guard (n_init.y_high <=
    // m_init.y_high) let C push A upward because A.y_high(400) <=
    // C.y_high(400), causing cascade oscillation. The tight guard
    // (n_init.y_high <= m_init.y_low) requires A.y_high(400) <=
    // C.y_low(200) — fails, so C does NOT push A on the y axis.
    //
    // Meanwhile A (mdx=+30) DOES push C rightward: C.x_low(104) >=
    // A.x_high(100) ✓, encroach = 130+4-104 = 30. C.shift = (30, -50).
    // No further pushes. Deterministic regardless of iteration order.
    let members = vec![
        classify(Some(Side::Left), None, rect(0.0, 0.0, 100.0, 400.0)),
        classify(None, Some(Side::Bottom), rect(104.0, 200.0, 100.0, 200.0)),
    ];
    let (shifts, _) = resolve_cluster_shifts(&members,-30, -50, px(4.0), &[], None);
    assert_eq!(shifts[&0], (30, 0), "A shifts right (Left chain)");
    assert_eq!(
        shifts[&1],
        (30, -50),
        "C shifts up (Bottom chain) + cascaded push from A's right motion",
    );
}

#[test]
fn bond_forms_on_push_and_persists() {
    // M at x=[0,100] shifts right by +60. N at x=[154,254] starts 54px
    // past M's right edge (50 travel + 4 gap). At +60, encroach=10 →
    // push N by 10 and form bond (0,1). Re-running with the same delta
    // and the bond in place gives the same result via bond-driven shift.
    let members = vec![
        classify(Some(Side::Right), None, rect(0.0, 0.0, 100.0, 100.0)),
        classify(None, None, rect(154.0, 0.0, 100.0, 100.0)),
    ];
    let mut bonds = Vec::new();
    let (shifts, new_bonds) = resolve_cluster_shifts(&members, 60, 0, px(4.0), &bonds, None);
    assert_eq!(shifts[&0], (60, 0));
    assert_eq!(shifts[&1], (10, 0));
    assert!(!new_bonds.is_empty(), "bond should form on first push");
    bonds.extend(new_bonds);

    // Same delta again — bond-driven, same result
    let (shifts2, _) = resolve_cluster_shifts(&members, 60, 0, px(4.0), &bonds, None);
    assert_eq!(shifts2[&1], (10, 0));
}

#[test]
fn bonded_member_follows_reversal_past_initial() {
    // Forward: M shifts +60, N pushed to +10 (bond forms).
    // Reverse: M shifts -20 (past M's initial). N should follow M back,
    // ending at a NEGATIVE shift (past N's initial position).
    let members = vec![
        classify(Some(Side::Right), None, rect(0.0, 0.0, 100.0, 100.0)),
        classify(None, None, rect(154.0, 0.0, 100.0, 100.0)),
    ];
    let mut bonds = Vec::new();
    let (_, new_bonds) = resolve_cluster_shifts(&members, 60, 0, px(4.0), &bonds, None);
    bonds.extend(new_bonds);

    // Reverse drag: width_delta = -20 (primary shrank past initial)
    let (shifts, _) = resolve_cluster_shifts(&members, -20, 0, px(4.0), &bonds, None);
    // M.x_high = 100 + (-20) = 80. N flush: N.x_low = 80 + 4 = 84.
    // N.shift = 84 - 154 = -70.
    assert_eq!(shifts[&0], (-20, 0));
    assert_eq!(shifts[&1], (-70, 0), "N follows M past its own initial");
}

#[test]
fn bond_chain_propagates_transitively() {
    // M0=[0,40] shifts right, pushes M1=[44,84], which pushes M2=[88,128].
    // Two bonds form: (0,1) and (1,2). On reversal, both follow.
    let members = vec![
        classify(Some(Side::Right), None, rect(0.0, 0.0, 40.0, 40.0)),
        classify(None, None, rect(44.0, 0.0, 40.0, 40.0)),
        classify(None, None, rect(88.0, 0.0, 40.0, 40.0)),
    ];
    let mut bonds = Vec::new();
    let (_, new_bonds) = resolve_cluster_shifts(&members, 50, 0, px(4.0), &bonds, None);
    bonds.extend(new_bonds);
    assert!(bonds.len() >= 2, "both bonds should form");

    // Reverse: width_delta = -10.
    let (shifts, _) = resolve_cluster_shifts(&members, -10, 0, px(4.0), &bonds, None);
    // M0.x_high = 40+(-10)=30. M1 flush at 34. M2 flush at 78.
    assert_eq!(shifts[&0], (-10, 0));
    assert_eq!(shifts[&1], (34 - 44, 0)); // = (-10, 0)
    assert_eq!(shifts[&2], (78 - 88, 0)); // = (-10, 0)
}

#[test]
fn push_respects_primary_rect() {
    // Primary at (0,0)-(100,100), member A at (104,0)-(204,100). Right resize
    // by 50: primary grows to (0,0)-(150,100). A should be pushed right so
    // its left edge stays at primary.x_high + gap = 154.
    let members = vec![
        classify(None, None, rect(104.0, 0.0, 100.0, 100.0)),
    ];
    let p_init = rect(0.0, 0.0, 100.0, 100.0);
    let p_cur = rect(0.0, 0.0, 150.0, 100.0);
    let (shifts, _) = resolve_cluster_shifts(&members, 0, 0, px(4.0), &[], Some((p_init, p_cur)));
    assert_eq!(shifts[&0], (50, 0), "A pushed by 50 to stay flush with grown primary");
}

#[test]
fn primary_push_cascades_to_downstream() {
    // Primary grows right, A is directly to its right, B is to A's right.
    // Primary push at start of cascade loop pushes A; member-vs-member then cascades to B.
    let members = vec![
        classify(None, None, rect(104.0, 0.0, 40.0, 40.0)),  // A
        classify(None, None, rect(148.0, 0.0, 40.0, 40.0)),  // B (gap=4 past A)
    ];
    let p_init = rect(0.0, 0.0, 100.0, 40.0);
    let p_cur = rect(0.0, 0.0, 150.0, 40.0);
    // Primary encroaches on A by 50 → A pushed to 154. A then encroaches on B:
    // A_cur.x_high = 154+40=194, B.x_low=148 → encroach = 194+4-148 = 50 → B also pushed 50.
    let (shifts, _) = resolve_cluster_shifts(&members, 0, 0, px(4.0), &[], Some((p_init, p_cur)));
    assert_eq!(shifts[&0], (50, 0), "A pushed by primary");
    assert_eq!(shifts[&1], (50, 0), "B cascades from A");
}

#[test]
fn primary_static_edge_blocks_cascade() {
    // Regression: a member pulled into a primary's NON-active edge by a bond.
    //
    // Layout (gap=4):
    //   Primary C at x=[104,204], y=[0,100]
    //   A at x=[104,204], y=[-104,-4] — directly above C (same x range)
    //   D at x=[104,204], y=[104,204] — directly below C
    //
    // Scenario: in a previous frame, C's bottom edge was dragged upward,
    // which caused D to shift up and bond to A (D pulled A up). Now the
    // drag reverses: C's bottom edge moves down by 200. D has axis_y=Bottom
    // so it shifts +200. Via the D→A bond, the bond-driven phase wants to
    // pull A down to flush with D's new position — which would drag A
    // through C's static top edge. The primary push must block this.
    //
    // Bond (D→A): D shifts +200, D_cur.y=[304,404]. Bond formula:
    //   A.y_high(-4) <= D.y_low_init(104) → A is above D.
    //   new_A_dy = D_cur.y_low - gap - A.y_high_init = 304-4-(-4) = 304.
    // Without fix: A_cur.y_high = -4+304 = 300 > C.y_low-gap = -4 → overlap.
    // With fix: primary push sets A back to dy=0 (A.y_high = -4 ≤ 0-4=-4).
    let members = vec![
        classify(None, None, rect(104.0, -104.0, 100.0, 100.0)), // A (idx 0)
        classify(None, Some(Side::Bottom), rect(104.0, 104.0, 100.0, 100.0)), // D (idx 1)
    ];
    let p_init = rect(104.0, 0.0, 100.0, 100.0);
    let p_cur  = rect(104.0, 0.0, 100.0, 300.0); // bottom grew by 200

    // Bond (1=D, 0=A): D previously pushed A upward, forming this bond.
    let bonds = vec![(1, 0)];

    let (shifts, _) = resolve_cluster_shifts(&members, 0, 200, px(4.0), &bonds, Some((p_init, p_cur)));

    // D gets static shift +200.
    assert_eq!(shifts[&1], (0, 200), "D shifts down with C's bottom edge");

    // A must not be pulled through C's static top edge. Its shifted y_high
    // must stay ≤ p_cur.y_low - gap = 0 - 4 = -4 (i.e., A.dy must be 0).
    let a_dy = shifts.get(&0).map_or(0, |s| s.1);
    let a_y_high_shifted = -4.0 + a_dy as f64;
    assert!(
        px(a_y_high_shifted) <= p_cur.y_low - px(4.0),
        "A must not overlap the primary's top edge (got a_y_high={a_y_high_shifted}, p_cur.y_low={})",
        p_cur.y_low,
    );
}

#[test]
fn bond_expires_when_perpendicular_overlap_lost() {
    // Layout: M at (0,0)-(100,100) [axis_x: Left, shifts left with width_delta].
    //         N at (0,104)-(100,204) [axis_y: Bottom, shifts down with height_delta].
    //
    // Frame 1: width_delta=0, height_delta=-60.
    //   N shifts up by 60 → N_cur.y_low=44, encroaches on M → bond (N→M) forms.
    //   M gets pushed up by 60 too.
    //
    // Frame 2: width_delta=200, height_delta=-60.
    //   M shifts left by -200 → M_cur x=[-200,-100]. N shifts up by -60.
    //   M_cur and N_cur have no x-overlap (M: x_high=-100, N: x_low=0).
    //   Bond (N,M) is a Y-axis bond → requires x_overlap → must NOT fire.
    //   M should have shift (-200, 0) — no vertical component from stale bond.
    let members = vec![
        classify(Some(Side::Left), None, rect(0.0, 0.0, 100.0, 100.0)), // M, idx 0
        classify(None, Some(Side::Bottom), rect(0.0, 104.0, 100.0, 100.0)), // N, idx 1
    ];
    let mut bonds = Vec::new();

    // Frame 1: N shifts up, pushes M, bond forms.
    let (shifts1, new_bonds) = resolve_cluster_shifts(&members, 0, -60, px(4.0), &bonds, None);
    assert_eq!(shifts1[&1], (0, -60), "N shifts up");
    assert!(shifts1.get(&0).is_some_and(|s| s.1 < 0), "M pushed up by N");
    assert!(!new_bonds.is_empty(), "bond should form when N pushes M");
    bonds.extend(new_bonds);

    // Frame 2: M drifts far left, losing x-overlap with N.
    let (shifts2, _) = resolve_cluster_shifts(&members, 200, -60, px(4.0), &bonds, None);
    let m_shift = shifts2.get(&0).copied().unwrap_or((0, 0));
    assert_eq!(m_shift.0, -200, "M shifts left by -200");
    assert_eq!(m_shift.1, 0, "M should have no vertical shift — stale bond must not fire");
}

#[test]
fn unbonded_member_still_stops_at_initial() {
    // M shifts right but never reaches N (N is too far away). No bond
    // forms. On reversal, N stays at initial (no shift).
    let members = vec![
        classify(Some(Side::Right), None, rect(0.0, 0.0, 100.0, 100.0)),
        classify(None, None, rect(500.0, 0.0, 100.0, 100.0)),
    ];
    let mut bonds = Vec::new();
    let (shifts, new_bonds) = resolve_cluster_shifts(&members, 30, 0, px(4.0), &bonds, None);
    assert!(!shifts.contains_key(&1), "N not pushed (too far)");
    assert!(new_bonds.is_empty());
    bonds.extend(new_bonds);

    let (shifts2, _) = resolve_cluster_shifts(&members, -10, 0, px(4.0), &bonds, None);
    assert!(!shifts2.contains_key(&1), "N still at initial, no bond");
}

fn mirrored(r: SnapRect) -> SnapRect {
    SnapRect {
        x_low: -r.x_high,
        x_high: -r.x_low,
        y_low: r.y_low,
        y_high: r.y_high,
    }
}

#[test]
fn left_and_right_are_treated_alike() {
    // A follows the right edge, B stands in its way, and C is bonded to A. The
    // fractions are rounded away from A on either side.
    let a = rect(104.0, 0.0, 40.0, 40.0);
    let b = rect(150.25, 0.0, 40.0, 40.0);
    let c = rect(160.5, 20.0, 40.0, 10.0);
    let p_init = rect(0.0, 0.0, 100.0, 40.0);
    let p_cur = rect(0.0, 0.0, 130.0, 40.0);
    let here = vec![
        classify(Some(Side::Right), None, a),
        classify(None, None, b),
        classify(None, None, c),
    ];
    let there = vec![
        classify(Some(Side::Left), None, mirrored(a)),
        classify(None, None, mirrored(b)),
        classify(None, None, mirrored(c)),
    ];
    let bonds = [(0, 2)];
    let primary = Some((p_init, p_cur));
    let (shifts, new_bonds) = resolve_cluster_shifts(&here, 30, 0, px(4.0), &bonds, primary);
    assert_eq!(shifts.len(), 3);
    assert_eq!((shifts[&0], shifts[&1], shifts[&2]), ((30, 0), (28, 0), (18, 0)));
    assert_eq!(new_bonds, vec![(0, 1)]);

    let primary = Some((mirrored(p_init), mirrored(p_cur)));
    let (shifts, new_bonds) = resolve_cluster_shifts(&there, 30, 0, px(4.0), &bonds, primary);
    assert_eq!(shifts.len(), 3);
    assert_eq!((shifts[&0], shifts[&1], shifts[&2]), ((-30, 0), (-28, 0), (-18, 0)));
    assert_eq!(new_bonds, vec![(0, 1)]);
}

#[test]
fn a_cut_shift_is_longer_to_the_left() {
    // The bond wants a shift beyond the range, which reaches one pixel farther
    // to the left than to the right.
    let far = 3_000_000_000.0;
    let a = rect(far, 0.0, 40.0, 40.0);
    let b = rect(-far, 0.0, 40.0, 40.0);
    let members = vec![classify(None, None, a), classify(None, None, b)];
    let (shifts, _) = resolve_cluster_shifts(&members, 0, 0, px(4.0), &[(0, 1)], None);
    assert_eq!(shifts[&1], (i32::MAX, 0));
    let members = vec![
        classify(None, None, mirrored(a)),
        classify(None, None, mirrored(b)),
    ];
    let (shifts, _) = resolve_cluster_shifts(&members, 0, 0, px(4.0), &[(0, 1)], None);
    assert_eq!(shifts[&1], (i32::MIN, 0));
}
