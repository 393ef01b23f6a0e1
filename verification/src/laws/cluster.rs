//! Clusters: which windows belong together, and how they follow a resize.

use crate::cluster::{Cascade, ResizeClassification, Side};
use crate::snap::SnapRect;
use vstd::prelude::*;

verus! {

use crate::cluster::{
    adjacency,
    after_bond,
    after_bonds,
    area,
    at_rest,
    bonded_shift,
    connected,
    edge_shift,
    edge_shifts,
    led_shifts,
    linked,
    member_pushes,
    member_sweep,
    place,
    primary_push,
    primary_pushes,
    primary_sweep,
    push,
    push_of_member,
    push_of_primary,
    pushed,
    resolved,
    round,
    row_sweep,
    settle,
    settled_cascade_is_at_rest,
    shift_of,
    start,
    with_bond,
    within,
    Area,
};

/// The rectangle with x and y exchanged.
pub open spec fn exchanged_rect(r: SnapRect) -> SnapRect {
    SnapRect { x_low: r.y_low, x_high: r.y_high, y_low: r.x_low, y_high: r.x_high }
}

/// The side with x and y exchanged.
pub open spec fn exchanged_side(side: Option<Side>) -> Option<Side> {
    match side {
        Some(Side::Left) => Some(Side::Top),
        Some(Side::Right) => Some(Side::Bottom),
        Some(Side::Top) => Some(Side::Left),
        Some(Side::Bottom) => Some(Side::Right),
        None => None,
    }
}

/// The cluster with x and y exchanged.
pub open spec fn exchanged_members(members: Seq<ResizeClassification>) -> Seq<ResizeClassification> {
    Seq::new(
        members.len(),
        |i: int|
            ResizeClassification {
                axis_x: exchanged_side(members[i].axis_y),
                axis_y: exchanged_side(members[i].axis_x),
                initial_rect: exchanged_rect(members[i].initial_rect),
            },
    )
}

/// The resized window with x and y exchanged, at the start and now.
pub open spec fn exchanged_primary(primary: Option<(SnapRect, SnapRect)>) -> Option<
    (SnapRect, SnapRect),
> {
    match primary {
        Some(p) => Some((exchanged_rect(p.0), exchanged_rect(p.1))),
        None => None,
    }
}

/// The shifts with x and y exchanged.
pub open spec fn exchanged_shifts(shifts: Map<usize, (i32, i32)>) -> Map<usize, (i32, i32)> {
    Map::new(|i: usize| shifts.contains_key(i), |i: usize| (shifts[i].1, shifts[i].0))
}

spec fn exchanged(c: Cascade) -> Cascade {
    Cascade { shifts: exchanged_shifts(c.shifts), bonds: c.bonds, changed: c.changed }
}

spec fn exchanged_area(a: Area) -> Area {
    Area { x_low: a.y_low, x_high: a.y_high, y_low: a.x_low, y_high: a.x_high }
}

proof fn exchanged_places(
    members: Seq<ResizeClassification>,
    shifts: Map<usize, (i32, i32)>,
    i: usize,
)
    requires
        i < members.len(),
    ensures
        shift_of(exchanged_shifts(shifts), i) == (shift_of(shifts, i).1, shift_of(shifts, i).0),
        start(exchanged_members(members), i as int) == exchanged_area(start(members, i as int)),
        place(exchanged_members(members), exchanged_shifts(shifts), i) == exchanged_area(
            place(members, shifts, i),
        ),
{
    assert(exchanged_shifts(shifts).contains_key(i) == shifts.contains_key(i));
}

proof fn exchanged_insert(shifts: Map<usize, (i32, i32)>, j: usize, to: (i32, i32))
    ensures
        exchanged_shifts(shifts.insert(j, to)) == exchanged_shifts(shifts).insert(j, (to.1, to.0)),
{
    assert(exchanged_shifts(shifts.insert(j, to)) =~= exchanged_shifts(shifts).insert(
        j,
        (to.1, to.0),
    ));
}

proof fn exchanged_after_bonds(
    members: Seq<ResizeClassification>,
    shifts: Map<usize, (i32, i32)>,
    bonds: Seq<(usize, usize)>,
    gap: int,
    n: nat,
)
    ensures
        after_bonds(exchanged_members(members), exchanged_shifts(shifts), bonds, gap, n)
            == exchanged_shifts(after_bonds(members, shifts, bonds, gap, n)),
    decreases n,
{
    if n > 0 {
        exchanged_after_bonds(members, shifts, bonds, gap, (n - 1) as nat);
        let before = after_bonds(members, shifts, bonds, gap, (n - 1) as nat);
        let bond = bonds[n - 1];
        if bond.0 < members.len() && bond.1 < members.len() {
            exchanged_places(members, before, bond.0);
            exchanged_places(members, before, bond.1);
            let to = bonded_shift(members, before, bond, gap);
            exchanged_insert(before, bond.1, to);
        }
    }
}

proof fn exchanged_primary_sweep(
    members: Seq<ResizeClassification>,
    primary: Option<(SnapRect, SnapRect)>,
    gap: int,
    c: Cascade,
    n: nat,
)
    requires
        n <= members.len() <= usize::MAX,
    ensures
        primary_sweep(exchanged_members(members), exchanged_primary(primary), gap, exchanged(c), n)
            == exchanged(primary_sweep(members, primary, gap, c, n)),
    decreases n,
{
    if let Some(p) = primary {
        if n > 0 {
            exchanged_primary_sweep(members, primary, gap, c, (n - 1) as nat);
            let before = primary_sweep(members, primary, gap, c, (n - 1) as nat);
            let j = (n - 1) as usize;
            exchanged_places(members, before.shifts, j);
            let to = pushed(
                shift_of(before.shifts, j),
                push_of_primary(members, p, gap, before.shifts, j),
            );
            exchanged_insert(before.shifts, j, to);
        }
    }
}

proof fn exchanged_row_sweep(
    members: Seq<ResizeClassification>,
    gap: int,
    c: Cascade,
    i: usize,
    n: nat,
)
    requires
        i < members.len(),
        n <= members.len() <= usize::MAX,
    ensures
        row_sweep(exchanged_members(members), gap, exchanged(c), i, n) == exchanged(
            row_sweep(members, gap, c, i, n),
        ),
    decreases n,
{
    if n > 0 {
        exchanged_row_sweep(members, gap, c, i, (n - 1) as nat);
        let before = row_sweep(members, gap, c, i, (n - 1) as nat);
        let j = (n - 1) as usize;
        exchanged_places(members, before.shifts, i);
        exchanged_places(members, before.shifts, j);
        let to = pushed(
            shift_of(before.shifts, j),
            push_of_member(members, gap, before.shifts, i, j),
        );
        exchanged_insert(before.shifts, j, to);
    }
}

proof fn exchanged_member_sweep(members: Seq<ResizeClassification>, gap: int, c: Cascade, n: nat)
    requires
        n <= members.len() <= usize::MAX,
    ensures
        member_sweep(exchanged_members(members), gap, exchanged(c), n) == exchanged(
            member_sweep(members, gap, c, n),
        ),
    decreases n,
{
    if n > 0 {
        exchanged_member_sweep(members, gap, c, (n - 1) as nat);
        let before = member_sweep(members, gap, c, (n - 1) as nat);
        exchanged_row_sweep(members, gap, before, (n - 1) as usize, members.len());
    }
}

proof fn exchanged_settle(
    members: Seq<ResizeClassification>,
    primary: Option<(SnapRect, SnapRect)>,
    gap: int,
    c: Cascade,
    rounds: nat,
)
    requires
        members.len() <= usize::MAX,
    ensures
        settle(exchanged_members(members), exchanged_primary(primary), gap, exchanged(c), rounds)
            == exchanged(settle(members, primary, gap, c, rounds)),
    decreases rounds,
{
    if rounds > 0 {
        let fresh = Cascade { shifts: c.shifts, bonds: c.bonds, changed: false };
        exchanged_primary_sweep(members, primary, gap, fresh, members.len());
        let swept = primary_sweep(members, primary, gap, fresh, members.len());
        exchanged_member_sweep(members, gap, swept, members.len());
        let next = round(members, primary, gap, c);
        if next.changed {
            exchanged_settle(members, primary, gap, next, (rounds - 1) as nat);
        }
    }
}

/// The two axes are treated alike: with x and y exchanged everywhere, the top
/// taken for the left and the bottom for the right, the same members move as
/// far along the other axis, and the same bonds form.
pub proof fn the_axes_are_alike(
    members: Seq<ResizeClassification>,
    width_delta: i32,
    height_delta: i32,
    gap: int,
    bonds: Seq<(usize, usize)>,
    primary: Option<(SnapRect, SnapRect)>,
)
    requires
        members.len() <= usize::MAX,
    ensures
        ({
            let here = resolved(members, width_delta, height_delta, gap, bonds, primary);
            let there = resolved(
                exchanged_members(members),
                height_delta,
                width_delta,
                gap,
                bonds,
                exchanged_primary(primary),
            );
            &&& there.bonds == here.bonds
            &&& there.shifts.dom() == here.shifts.dom()
            &&& forall|i: usize| #[trigger]
                here.shifts.contains_key(i) ==> there.shifts[i].0 == here.shifts[i].1
                    && there.shifts[i].1 == here.shifts[i].0
        }),
{
    let edges = edge_shifts(members, width_delta, height_delta, members.len());
    assert(edge_shifts(exchanged_members(members), height_delta, width_delta, members.len())
        =~= exchanged_shifts(edges));
    exchanged_after_bonds(members, edges, bonds, gap, bonds.len());
    let first = Cascade {
        shifts: led_shifts(members, width_delta, height_delta, gap, bonds),
        bonds: seq![],
        changed: false,
    };
    exchanged_settle(members, primary, gap, first, (2 * members.len()) as nat);
    let here = resolved(members, width_delta, height_delta, gap, bonds, primary);
    assert(exchanged_shifts(here.shifts).dom() =~= here.shifts.dom());
}

/// Before bonds and pushes, a member moves exactly as the side that it follows:
/// where the left side stands still, a member on the right moves as the right
/// side does, and so all round; a member that follows no side stays.
pub proof fn followers_move_with_their_side(
    m: ResizeClassification,
    before: SnapRect,
    now: SnapRect,
    width_delta: i32,
    height_delta: i32,
)
    requires
        (now.x_high - now.x_low) - (before.x_high - before.x_low) == 32_000 * width_delta,
        (now.y_high - now.y_low) - (before.y_high - before.y_low) == 32_000 * height_delta,
        width_delta > i32::MIN,
        height_delta > i32::MIN,
    ensures
        ({
            let shift = edge_shift(m, width_delta, height_delta);
            &&& m.axis_x == Some(Side::Right) && now.x_low == before.x_low ==> 32_000 * shift.0
                == now.x_high - before.x_high
            &&& m.axis_x == Some(Side::Left) && now.x_high == before.x_high ==> 32_000 * shift.0
                == now.x_low - before.x_low
            &&& m.axis_y == Some(Side::Bottom) && now.y_low == before.y_low ==> 32_000 * shift.1
                == now.y_high - before.y_high
            &&& m.axis_y == Some(Side::Top) && now.y_high == before.y_high ==> 32_000 * shift.1
                == now.y_low - before.y_low
            &&& m.axis_x is None ==> shift.0 == 0
            &&& m.axis_y is None ==> shift.1 == 0
        }),
{
}

proof fn lone_member_settles(
    members: Seq<ResizeClassification>,
    primary: Option<(SnapRect, SnapRect)>,
    gap: int,
    c: Cascade,
)
    requires
        members.len() == 1,
        primary matches Some(p) ==> push_of_primary(members, p, gap, c.shifts, 0) == (0int, 0int),
    ensures
        settle(members, primary, gap, c, 2).shifts == c.shifts,
        settle(members, primary, gap, c, 2).bonds == c.bonds,
{
    reveal_with_fuel(settle, 2);
    reveal_with_fuel(primary_sweep, 2);
    reveal_with_fuel(member_sweep, 2);
    reveal_with_fuel(row_sweep, 2);
    let fresh = Cascade { shifts: c.shifts, bonds: c.bonds, changed: false };
    let swept = primary_sweep(members, primary, gap, fresh, 1);
    assert(swept == fresh);
    assert(member_sweep(members, gap, swept, 1) == fresh);
    assert(round(members, primary, gap, c) == fresh);
}

/// A window that stands at the gap from a side of the resized window, with
/// nothing else around, stays at the gap when that side is dragged: it moves
/// exactly as the side does, whichever of the four it is.
pub proof fn lone_followers_stay_at_the_gap(
    m: ResizeClassification,
    before: SnapRect,
    now: SnapRect,
    width_delta: i32,
    height_delta: i32,
    gap: int,
    side: Side,
)
    requires
        gap >= 0,
        width_delta > i32::MIN,
        height_delta > i32::MIN,
        m.initial_rect.x_low < m.initial_rect.x_high,
        m.initial_rect.y_low < m.initial_rect.y_high,
        before.x_low < before.x_high,
        before.y_low < before.y_high,
        now.x_low < now.x_high,
        now.y_low < now.y_high,
        (now.x_high - now.x_low) - (before.x_high - before.x_low) == 32_000 * width_delta,
        (now.y_high - now.y_low) - (before.y_high - before.y_low) == 32_000 * height_delta,
        match side {
            Side::Left => {
                &&& m.axis_x == Some(Side::Left) && m.axis_y is None
                &&& now.x_high == before.x_high && now.y_low == before.y_low && now.y_high == before.y_high
                &&& m.initial_rect.x_high + gap == before.x_low
            },
            Side::Right => {
                &&& m.axis_x == Some(Side::Right) && m.axis_y is None
                &&& now.x_low == before.x_low && now.y_low == before.y_low && now.y_high == before.y_high
                &&& m.initial_rect.x_low == before.x_high + gap
            },
            Side::Top => {
                &&& m.axis_y == Some(Side::Top) && m.axis_x is None
                &&& now.y_high == before.y_high && now.x_low == before.x_low && now.x_high == before.x_high
                &&& m.initial_rect.y_high + gap == before.y_low
            },
            Side::Bottom => {
                &&& m.axis_y == Some(Side::Bottom) && m.axis_x is None
                &&& now.y_low == before.y_low && now.x_low == before.x_low && now.x_high == before.x_high
                &&& m.initial_rect.y_low == before.y_high + gap
            },
        },
    ensures
        ({
            let after = resolved(
                seq![m],
                width_delta,
                height_delta,
                gap,
                seq![],
                Some((before, now)),
            );
            let shift = shift_of(after.shifts, 0);
            &&& after.bonds.len() == 0
            &&& match side {
                Side::Left => shift.1 == 0 && m.initial_rect.x_high + 32_000 * shift.0 + gap
                    == now.x_low,
                Side::Right => shift.1 == 0 && m.initial_rect.x_low + 32_000 * shift.0 == now.x_high
                    + gap,
                Side::Top => shift.0 == 0 && m.initial_rect.y_high + 32_000 * shift.1 + gap
                    == now.y_low,
                Side::Bottom => shift.0 == 0 && m.initial_rect.y_low + 32_000 * shift.1
                    == now.y_high + gap,
            }
        }),
{
    let members = seq![m];
    let p = (before, now);
    followers_move_with_their_side(m, before, now, width_delta, height_delta);
    let edges = edge_shifts(members, width_delta, height_delta, 1);
    let first = Cascade {
        shifts: led_shifts(members, width_delta, height_delta, gap, seq![]),
        bonds: seq![],
        changed: false,
    };
    assert(first.shifts == edges);
    let shift = edge_shift(m, width_delta, height_delta);
    assert(shift_of(edges, 0) == shift);
    assert(push_of_primary(members, p, gap, first.shifts, 0) == (0int, 0int));
    lone_member_settles(members, Some(p), gap, first);
}

/// A push ends at the gap, less than a pixel beyond it, and there is none where
/// the gap is kept already, where nothing moved, or against the motion.
pub proof fn pushes_end_at_the_gap(m: Area, m_now: Area, n: Area, n_now: Area, motion: (i32, i32), gap: int)
    ensures
        ({
            let by = push(m, m_now, n, n_now, motion, gap);
            let beside = m_now.y_low < n_now.y_high && n_now.y_low < m_now.y_high;
            let stacked = m_now.x_low < n_now.x_high && n_now.x_low < m_now.x_high;
            &&& motion.0 > 0 && beside && m.x_high <= n.x_low ==> if n_now.x_low < m_now.x_high + gap {
                m_now.x_high + gap <= n_now.x_low + 32_000 * by.0 < m_now.x_high + gap + 32_000
            } else {
                by.0 == 0
            }
            &&& motion.0 < 0 && beside && n.x_high <= m.x_low ==> if n_now.x_high > m_now.x_low - gap {
                m_now.x_low - gap - 32_000 < n_now.x_high + 32_000 * by.0 <= m_now.x_low - gap
            } else {
                by.0 == 0
            }
            &&& motion.1 > 0 && stacked && m.y_high <= n.y_low ==> if n_now.y_low < m_now.y_high + gap {
                m_now.y_high + gap <= n_now.y_low + 32_000 * by.1 < m_now.y_high + gap + 32_000
            } else {
                by.1 == 0
            }
            &&& motion.1 < 0 && stacked && n.y_high <= m.y_low ==> if n_now.y_high > m_now.y_low - gap {
                m_now.y_low - gap - 32_000 < n_now.y_high + 32_000 * by.1 <= m_now.y_low - gap
            } else {
                by.1 == 0
            }
            &&& motion.0 == 0 || !beside ==> by.0 == 0
            &&& motion.1 == 0 || !stacked ==> by.1 == 0
            &&& motion.0 > 0 && n.x_low < m.x_high ==> by.0 == 0
            &&& motion.0 < 0 && n.x_high > m.x_low ==> by.0 == 0
            &&& motion.1 > 0 && n.y_low < m.y_high ==> by.1 == 0
            &&& motion.1 < 0 && n.y_high > m.y_low ==> by.1 == 0
        }),
{
}

/// The resized window pushes what started beside it, out to the gap and less
/// than a pixel beyond, away from it; what keeps the gap, and what it does not
/// lie beside, stays.
pub proof fn the_resized_window_keeps_its_gap(p: Area, p_now: Area, n: Area, n_now: Area, gap: int)
    requires
        p.x_low < p.x_high,
        p.y_low < p.y_high,
        n.x_low < n.x_high,
        n.y_low < n.y_high,
    ensures
        ({
            let by = primary_push(p, p_now, n, n_now, gap);
            let beside = p_now.y_low < n_now.y_high && n_now.y_low < p_now.y_high;
            let stacked = p_now.x_low < n_now.x_high && n_now.x_low < p_now.x_high;
            &&& beside && p.x_high <= n.x_low ==> if n_now.x_low < p_now.x_high + gap {
                p_now.x_high + gap <= n_now.x_low + 32_000 * by.0 < p_now.x_high + gap + 32_000
            } else {
                by.0 == 0
            }
            &&& beside && n.x_high <= p.x_low ==> if n_now.x_high > p_now.x_low - gap {
                p_now.x_low - gap - 32_000 < n_now.x_high + 32_000 * by.0 <= p_now.x_low - gap
            } else {
                by.0 == 0
            }
            &&& stacked && p.y_high <= n.y_low ==> if n_now.y_low < p_now.y_high + gap {
                p_now.y_high + gap <= n_now.y_low + 32_000 * by.1 < p_now.y_high + gap + 32_000
            } else {
                by.1 == 0
            }
            &&& stacked && n.y_high <= p.y_low ==> if n_now.y_high > p_now.y_low - gap {
                p_now.y_low - gap - 32_000 < n_now.y_high + 32_000 * by.1 <= p_now.y_low - gap
            } else {
                by.1 == 0
            }
            &&& !beside || n.x_low < p.x_high && n.x_high > p.x_low ==> by.0 == 0
            &&& !stacked || n.y_low < p.y_high && n.y_high > p.y_low ==> by.1 == 0
        }),
{
}

/// One member pushing another changes the shift of that other only, by the
/// push; it is bonded to the pusher, which comes first, and only then; the
/// resized window bonds with nothing.
pub proof fn pushes_change_one_shift(
    members: Seq<ResizeClassification>,
    p: (SnapRect, SnapRect),
    gap: int,
    c: Cascade,
    i: usize,
    j: usize,
    k: usize,
)
    requires
        k != j,
    ensures
        ({
            let after = member_pushes(members, gap, c, i, j);
            let by = push_of_member(members, gap, c.shifts, i, j);
            let shift = shift_of(c.shifts, j);
            &&& shift_of(after.shifts, k) == shift_of(c.shifts, k)
            &&& i != j && -0x8000_0000 <= by.0 <= 0x7fff_ffff && -0x8000_0000 <= by.1 <= 0x7fff_ffff
                && -0x8000_0000 <= shift.0 + by.0 <= 0x7fff_ffff && -0x8000_0000 <= shift.1 + by.1
                <= 0x7fff_ffff ==> shift_of(after.shifts, j).0 == shift.0 + by.0 && shift_of(
                after.shifts,
                j,
            ).1 == shift.1 + by.1
            &&& i == j ==> after == c
            &&& shift_of(after.shifts, j) != shift ==> after.bonds.contains((i, j)) && after.changed
            &&& shift_of(after.shifts, j) == shift ==> after.bonds == c.bonds && after.changed
                == c.changed
            &&& forall|b: (usize, usize)| #[trigger]
                after.bonds.contains(b) ==> c.bonds.contains(b) || b == (i, j)
        }),
        ({
            let after = primary_pushes(members, p, gap, c, j);
            let by = push_of_primary(members, p, gap, c.shifts, j);
            let shift = shift_of(c.shifts, j);
            &&& shift_of(after.shifts, k) == shift_of(c.shifts, k)
            &&& after.bonds == c.bonds
            &&& -0x8000_0000 <= by.0 <= 0x7fff_ffff && -0x8000_0000 <= by.1 <= 0x7fff_ffff
                && -0x8000_0000 <= shift.0 + by.0 <= 0x7fff_ffff && -0x8000_0000 <= shift.1 + by.1
                <= 0x7fff_ffff ==> shift_of(after.shifts, j).0 == shift.0 + by.0 && shift_of(
                after.shifts,
                j,
            ).1 == shift.1 + by.1
            &&& shift_of(after.shifts, j) != shift ==> after.changed
        }),
{
    let after = member_pushes(members, gap, c, i, j);
    let bonds = with_bond(c.bonds, (i, j));
    if !c.bonds.contains((i, j)) {
        assert(bonds[c.bonds.len() as int] == (i, j));
        assert forall|b: (usize, usize)| #[trigger] bonds.contains(b) implies c.bonds.contains(b)
            || b == (i, j) by {
            let x = choose|x: int| 0 <= x < bonds.len() && bonds[x] == b;
            if x < c.bonds.len() {
                assert(c.bonds[x] == b);
            }
        }
    }
}

/// Members push one another in every pair and the resized window pushes every
/// member: where a round changes nothing, nobody has anything left to push.
/// Rounds go on until then, for twice as many as there are members: if fewer
/// bring rest, that rest is the outcome.
pub proof fn rounds_go_on_until_rest(
    members: Seq<ResizeClassification>,
    width_delta: i32,
    height_delta: i32,
    gap: int,
    bonds: Seq<(usize, usize)>,
    primary: Option<(SnapRect, SnapRect)>,
    rounds: nat,
)
    requires
        members.len() <= usize::MAX,
        0 < rounds <= 2 * members.len(),
    ensures
        ({
            let first = Cascade {
                shifts: led_shifts(members, width_delta, height_delta, gap, bonds),
                bonds: seq![],
                changed: false,
            };
            let after = resolved(members, width_delta, height_delta, gap, bonds, primary);
            !settle(members, primary, gap, first, rounds).changed ==> after == settle(
                members,
                primary,
                gap,
                first,
                rounds,
            ) && at_rest(members, primary, gap, after.shifts)
        }),
{
    let first = Cascade {
        shifts: led_shifts(members, width_delta, height_delta, gap, bonds),
        bonds: seq![],
        changed: false,
    };
    if !settle(members, primary, gap, first, rounds).changed {
        rest_lasts(members, primary, gap, first, rounds, (2 * members.len()) as nat);
        settled_cascade_is_at_rest(members, primary, gap, first, rounds);
    }
}

proof fn rest_lasts(
    members: Seq<ResizeClassification>,
    primary: Option<(SnapRect, SnapRect)>,
    gap: int,
    c: Cascade,
    few: nat,
    many: nat,
)
    requires
        0 < few <= many,
        !settle(members, primary, gap, c, few).changed,
    ensures
        settle(members, primary, gap, c, many) == settle(members, primary, gap, c, few),
    decreases few,
{
    let next = round(members, primary, gap, c);
    if next.changed {
        if few > 1 {
            rest_lasts(members, primary, gap, next, (few - 1) as nat, (many - 1) as nat);
        }
    }
}

/// Bonds act in order, each on its second member alone.
pub proof fn bonds_move_their_second_member(
    members: Seq<ResizeClassification>,
    shifts: Map<usize, (i32, i32)>,
    bonds: Seq<(usize, usize)>,
    gap: int,
    n: nat,
    k: usize,
)
    requires
        0 < n <= bonds.len(),
        k != bonds[n - 1].1,
    ensures
        shift_of(after_bonds(members, shifts, bonds, gap, n), k) == shift_of(
            after_bonds(members, shifts, bonds, gap, (n - 1) as nat),
            k,
        ),
        after_bonds(members, shifts, bonds, gap, 0) == shifts,
{
    let before = after_bonds(members, shifts, bonds, gap, (n - 1) as nat);
    assert(after_bonds(members, shifts, bonds, gap, n) == after_bond(
        members,
        before,
        bonds[n - 1],
        gap,
    ));
}

/// Two windows that touch on a side stand at the gap there, less than a pixel
/// off, and share more than a corner; the side is the one on which the other
/// window lies.
pub proof fn neighbours_stand_at_the_gap(a: Area, b: Area, gap: int)
    ensures
        adjacency(a, b, gap) == Some(Side::Right) ==> -32_000 < b.x_low - (a.x_high + gap) < 32_000
            && a.y_low < b.y_high && b.y_low < a.y_high,
        adjacency(a, b, gap) == Some(Side::Left) ==> -32_000 < a.x_low - (b.x_high + gap) < 32_000
            && a.y_low < b.y_high && b.y_low < a.y_high,
        adjacency(a, b, gap) == Some(Side::Bottom) ==> -32_000 < b.y_low - (a.y_high + gap) < 32_000
            && a.x_low < b.x_high && b.x_low < a.x_high,
        adjacency(a, b, gap) == Some(Side::Top) ==> -32_000 < a.y_low - (b.y_high + gap) < 32_000
            && a.x_low < b.x_high && b.x_low < a.x_high,
        a.y_low < b.y_high && b.y_low < a.y_high && -32_000 < b.x_low - (a.x_high + gap) < 32_000
            ==> adjacency(a, b, gap) == Some(Side::Right),
        a.y_low < b.y_high && b.y_low < a.y_high && -32_000 < a.x_low - (b.x_high + gap) < 32_000
            ==> adjacency(a, b, gap) is Some,
        a.x_low < b.x_high && b.x_low < a.x_high && -32_000 < b.y_low - (a.y_high + gap) < 32_000
            ==> adjacency(a, b, gap) is Some,
        a.x_low < b.x_high && b.x_low < a.x_high && -32_000 < a.y_low - (b.y_high + gap) < 32_000
            ==> adjacency(a, b, gap) is Some,
{
}

/// A window is in its own cluster, and so are the windows that touch it; where
/// none does, nothing else is.
pub proof fn clusters_grow_by_touch(
    windows: Seq<(u64, SnapRect)>,
    gap: int,
    a: int,
    b: int,
    w: u64,
)
    requires
        0 <= a < windows.len(),
        0 <= b < windows.len(),
        forall|i: int, j: int|
            0 <= i < j < windows.len() ==> (#[trigger] windows[i]).0 != (#[trigger] windows[j]).0,
    ensures
        connected(windows, gap, windows[a].0, windows[a].0),
        adjacency(area(windows[a].1), area(windows[b].1), gap) is Some ==> connected(
            windows,
            gap,
            windows[a].0,
            windows[b].0,
        ),
        (forall|i: int|
            0 <= i < windows.len() && i != a ==> adjacency(
                area(windows[a].1),
                area((#[trigger] windows[i]).1),
                gap,
            ) is None) && connected(windows, gap, windows[a].0, w) ==> w == windows[a].0,
{
    let root = windows[a].0;
    rect_is_listed(windows, a);
    assert(within(windows, gap, root, root, 0));
    if adjacency(area(windows[a].1), area(windows[b].1), gap) is Some {
        assert(linked(windows, gap, root, windows[b].0));
        assert(within(windows, gap, root, windows[b].0, 1));
    }
    if (forall|i: int|
        0 <= i < windows.len() && i != a ==> adjacency(
            area(windows[a].1),
            area((#[trigger] windows[i]).1),
            gap,
        ) is None) && connected(windows, gap, root, w) {
        let steps = choose|steps: nat| within(windows, gap, root, w, steps);
        alone_stays_alone(windows, gap, a, w, steps);
    }
}

proof fn rect_is_listed(windows: Seq<(u64, SnapRect)>, a: int)
    requires
        0 <= a < windows.len(),
        forall|i: int, j: int|
            0 <= i < j < windows.len() ==> (#[trigger] windows[i]).0 != (#[trigger] windows[j]).0,
    ensures
        crate::cluster::rect_of(windows, windows[a].0) == Some(windows[a].1),
    decreases windows.len(),
{
    if a < windows.len() - 1 {
        let front = windows.drop_last();
        assert(front[a] == windows[a]);
        assert forall|i: int, j: int| 0 <= i < j < front.len() implies (#[trigger] front[i]).0 != (
        #[trigger] front[j]).0 by {
            assert(windows[i].0 != windows[j].0);
        }
        rect_is_listed(front, a);
        assert(windows[a].0 != windows[windows.len() - 1].0);
    }
}

proof fn alone_stays_alone(windows: Seq<(u64, SnapRect)>, gap: int, a: int, w: u64, steps: nat)
    requires
        0 <= a < windows.len(),
        forall|i: int, j: int|
            0 <= i < j < windows.len() ==> (#[trigger] windows[i]).0 != (#[trigger] windows[j]).0,
        forall|i: int|
            0 <= i < windows.len() && i != a ==> adjacency(
                area(windows[a].1),
                area((#[trigger] windows[i]).1),
                gap,
            ) is None,
        within(windows, gap, windows[a].0, w, steps),
    ensures
        w == windows[a].0,
    decreases steps,
{
    if steps > 0 {
        let root = windows[a].0;
        if within(windows, gap, root, w, (steps - 1) as nat) {
            alone_stays_alone(windows, gap, a, w, (steps - 1) as nat);
        } else {
            let v = choose|v: u64|
                within(windows, gap, root, v, (steps - 1) as nat) && #[trigger] linked(
                    windows,
                    gap,
                    v,
                    w,
                );
            alone_stays_alone(windows, gap, a, v, (steps - 1) as nat);
            rect_is_listed(windows, a);
            let k = choose|k: int| #![trigger windows[k]]
                0 <= k < windows.len() && windows[k].0 == w && adjacency(
                    area(windows[a].1),
                    area(windows[k].1),
                    gap,
                ) is Some;
            assert(k == a);
        }
    }
}

/// The side across from a side is the other end of the same axis.
pub proof fn sides_face_each_other(s: Side)
    ensures
        s.across().across() == s,
        Side::Left.across() == Side::Right,
        Side::Top.across() == Side::Bottom,
{
}

/// A window that follows stays on the side on which it started, at the gap or
/// less than a pixel farther; one that does not overlap stays where it is.
pub proof fn followers_stay_at_the_gap(
    m: (int, int),
    m_now: (int, int),
    n: (int, int),
    gap: int,
    overlap: bool,
    current: int,
)
    ensures
        ({
            let r = 32_000 * crate::cluster::follow(
                m.0,
                m.1,
                m_now.0,
                m_now.1,
                n.0,
                n.1,
                gap,
                overlap,
                current,
            );
            &&& overlap && n.0 >= m.1 ==> m_now.1 + gap <= n.0 + r < m_now.1 + gap + 32_000
            &&& overlap && n.0 < m.1 && n.1 <= m.0 ==> m_now.0 - gap - 32_000 < n.1 + r <= m_now.0
                - gap
            &&& !overlap || (n.0 < m.1 && n.1 > m.0) ==> r == 32_000 * current
        }),
{
}

/// Only members are moved by the edges, and only those that are moved at all.
pub proof fn edges_move_members_only(
    members: Seq<ResizeClassification>,
    width_delta: i32,
    height_delta: i32,
    n: nat,
    i: usize,
)
    requires
        edge_shifts(members, width_delta, height_delta, n).contains_key(i),
    ensures
        i < n,
        i < members.len(),
        edge_shifts(members, width_delta, height_delta, n)[i] != (0i32, 0i32),
{
}

} // verus!
