//! Left and right in a cluster resize: what becomes of the shifts when the
//! whole scene is seen in a mirror.

use crate::cluster::{Cascade, ResizeClassification, Side};
use crate::snap::SnapRect;
use vstd::prelude::*;

verus! {

use crate::cluster::{
    after_bond,
    after_bonds,
    area,
    bond_pull,
    bonded_shift,
    columns_overlap,
    edge_shift,
    edge_shifts,
    follow,
    led_shifts,
    member_pushes,
    member_sweep,
    members_wf,
    place,
    primary_push,
    primary_pushes,
    primary_sweep,
    push,
    push_of_member,
    push_of_primary,
    pushed,
    resolved,
    round,
    row_sweep,
    rows_overlap,
    settle,
    shift_of,
    start,
    Area,
};
use crate::units::from_pixels;

/// The rectangle in the mirror.
pub open spec fn flipped_rect(r: SnapRect) -> SnapRect {
    SnapRect {
        x_low: (-r.x_high) as i64,
        x_high: (-r.x_low) as i64,
        y_low: r.y_low,
        y_high: r.y_high,
    }
}

/// The side in the mirror.
pub open spec fn flipped_side(side: Option<Side>) -> Option<Side> {
    match side {
        Some(Side::Left) => Some(Side::Right),
        Some(Side::Right) => Some(Side::Left),
        _ => side,
    }
}

/// A member of the cluster in the mirror.
pub open spec fn flipped_member(m: ResizeClassification) -> ResizeClassification {
    ResizeClassification {
        axis_x: flipped_side(m.axis_x),
        axis_y: m.axis_y,
        initial_rect: flipped_rect(m.initial_rect),
    }
}

/// The cluster in the mirror.
pub open spec fn flipped_members(members: Seq<ResizeClassification>) -> Seq<ResizeClassification> {
    Seq::new(members.len(), |i: int| flipped_member(members[i]))
}

/// The resized window in the mirror, at the start and now.
pub open spec fn flipped_primary(primary: Option<(SnapRect, SnapRect)>) -> Option<
    (SnapRect, SnapRect),
> {
    match primary {
        Some(p) => Some((flipped_rect(p.0), flipped_rect(p.1))),
        None => None,
    }
}

/// The shift in the mirror.
pub open spec fn flipped_shift(shift: (i32, i32)) -> (i32, i32) {
    ((-shift.0) as i32, shift.1)
}

/// The shifts in the mirror: of the same members.
pub open spec fn flipped_shifts(shifts: Map<usize, (i32, i32)>) -> Map<usize, (i32, i32)> {
    Map::new(|i: usize| shifts.contains_key(i), |i: usize| flipped_shift(shifts[i]))
}

/// A push cascade in the mirror: its bonds are the same.
pub open spec fn flipped(c: Cascade) -> Cascade {
    Cascade { shifts: flipped_shifts(c.shifts), bonds: c.bonds, changed: c.changed }
}

/// Whether a number of pixels and its negative are both shifts.
pub open spec fn fits(v: int) -> bool {
    -i32::MAX <= v <= i32::MAX
}

/// Whether a horizontal push is taken in full.
pub open spec fn push_fits(shift: (i32, i32), by: (int, int)) -> bool {
    fits(by.0) && fits(shift.0 + by.0)
}

/// Whether the first `n` bonds pull as far as they want to.
pub open spec fn bonds_fit(
    members: Seq<ResizeClassification>,
    shifts: Map<usize, (i32, i32)>,
    bonds: Seq<(usize, usize)>,
    gap: int,
    n: nat,
) -> bool
    decreases n,
{
    n > 0 ==> {
        let before = after_bonds(members, shifts, bonds, gap, (n - 1) as nat);
        let bond = bonds[n - 1];
        &&& bonds_fit(members, shifts, bonds, gap, (n - 1) as nat)
        &&& bond.0 < members.len() && bond.1 < members.len() ==> fits(
            bond_pull(members, before, bond, gap).0,
        )
    }
}

/// Whether the first `n` members take the pushes of the resized window in full.
pub open spec fn primary_fits(
    members: Seq<ResizeClassification>,
    primary: Option<(SnapRect, SnapRect)>,
    gap: int,
    c: Cascade,
    n: nat,
) -> bool
    decreases n,
{
    match primary {
        Some(p) => n > 0 ==> {
            let before = primary_sweep(members, primary, gap, c, (n - 1) as nat).shifts;
            let j = (n - 1) as usize;
            &&& primary_fits(members, primary, gap, c, (n - 1) as nat)
            &&& push_fits(shift_of(before, j), push_of_primary(members, p, gap, before, j))
        },
        None => true,
    }
}

/// Whether the first `n` members take the pushes of member `i` in full.
pub open spec fn row_fits(
    members: Seq<ResizeClassification>,
    gap: int,
    c: Cascade,
    i: usize,
    n: nat,
) -> bool
    decreases n,
{
    n > 0 ==> {
        let before = row_sweep(members, gap, c, i, (n - 1) as nat).shifts;
        let j = (n - 1) as usize;
        &&& row_fits(members, gap, c, i, (n - 1) as nat)
        &&& i != j ==> push_fits(shift_of(before, j), push_of_member(members, gap, before, i, j))
    }
}

/// Whether the pushes of the first `n` members are taken in full.
pub open spec fn rows_fit(members: Seq<ResizeClassification>, gap: int, c: Cascade, n: nat) -> bool
    decreases n,
{
    n > 0 ==> {
        let before = member_sweep(members, gap, c, (n - 1) as nat);
        &&& rows_fit(members, gap, c, (n - 1) as nat)
        &&& row_fits(members, gap, before, (n - 1) as usize, members.len())
    }
}

/// Whether every push of a round is taken in full.
pub open spec fn round_fits(
    members: Seq<ResizeClassification>,
    primary: Option<(SnapRect, SnapRect)>,
    gap: int,
    c: Cascade,
) -> bool {
    let fresh = Cascade { shifts: c.shifts, bonds: c.bonds, changed: false };
    let swept = primary_sweep(members, primary, gap, fresh, members.len());
    &&& primary_fits(members, primary, gap, fresh, members.len())
    &&& rows_fit(members, gap, swept, members.len())
}

/// Whether every push of the rounds that are run is taken in full.
pub open spec fn rounds_fit(
    members: Seq<ResizeClassification>,
    primary: Option<(SnapRect, SnapRect)>,
    gap: int,
    c: Cascade,
    rounds: nat,
) -> bool
    decreases rounds,
{
    rounds > 0 ==> {
        let next = round(members, primary, gap, c);
        &&& round_fits(members, primary, gap, c)
        &&& next.changed ==> rounds_fit(members, primary, gap, next, (rounds - 1) as nat)
    }
}

/// Whether no horizontal shift meets the end of the `i32` range on the way:
/// neither a pull of a bond nor a push has to be cut.
pub open spec fn nothing_is_cut(
    members: Seq<ResizeClassification>,
    width_delta: i32,
    height_delta: i32,
    gap: int,
    bonds: Seq<(usize, usize)>,
    primary: Option<(SnapRect, SnapRect)>,
) -> bool {
    let edges = edge_shifts(members, width_delta, height_delta, members.len());
    let first = Cascade {
        shifts: led_shifts(members, width_delta, height_delta, gap, bonds),
        bonds: seq![],
        changed: false,
    };
    &&& width_delta > i32::MIN
    &&& bonds_fit(members, edges, bonds, gap, bonds.len())
    &&& rounds_fit(members, primary, gap, first, (2 * members.len()) as nat)
}

/// Whether every rectangle at the start of the resize has a width.
pub open spec fn all_wide(
    members: Seq<ResizeClassification>,
    primary: Option<(SnapRect, SnapRect)>,
) -> bool {
    &&& forall|i: int|
        0 <= i < members.len() ==> (#[trigger] members[i]).initial_rect.x_low
            < members[i].initial_rect.x_high
    &&& primary matches Some(p) ==> p.0.x_low < p.0.x_high
}

/// The scene that is mirrored: rectangles that callers may hand in, with a
/// width at the start.
spec fn scene(
    members: Seq<ResizeClassification>,
    primary: Option<(SnapRect, SnapRect)>,
) -> bool {
    &&& members.len() <= usize::MAX
    &&& members_wf(members)
    &&& primary matches Some(p) ==> p.0.wf() && p.1.wf()
    &&& all_wide(members, primary)
}

/// Whether every shift has a mirror image.
spec fn turnable(shifts: Map<usize, (i32, i32)>) -> bool {
    forall|i: usize| #[trigger] shifts.contains_key(i) ==> shifts[i].0 > i32::MIN
}

spec fn flipped_area(a: Area) -> Area {
    Area { x_low: -a.x_high, x_high: -a.x_low, y_low: a.y_low, y_high: a.y_high }
}

proof fn flipped_places(
    members: Seq<ResizeClassification>,
    shifts: Map<usize, (i32, i32)>,
    i: usize,
)
    requires
        members_wf(members),
        turnable(shifts),
        i < members.len(),
    ensures
        shift_of(flipped_shifts(shifts), i) == flipped_shift(shift_of(shifts, i)),
        shift_of(flipped_shifts(shifts), i).0 == -shift_of(shifts, i).0,
        start(flipped_members(members), i as int) == flipped_area(start(members, i as int)),
        place(flipped_members(members), flipped_shifts(shifts), i) == flipped_area(
            place(members, shifts, i),
        ),
{
    assert(members[i as int].initial_rect.wf());
    assert(flipped_shifts(shifts).contains_key(i) == shifts.contains_key(i));
}

proof fn flipped_follow(
    m_low: int,
    m_high: int,
    m_now_low: int,
    m_now_high: int,
    n_low: int,
    n_high: int,
    gap: int,
    overlap: bool,
    current: int,
)
    requires
        m_low < m_high,
        n_low < n_high,
    ensures
        follow(
            -m_high,
            -m_low,
            -m_now_high,
            -m_now_low,
            -n_high,
            -n_low,
            gap,
            overlap,
            -current,
        ) == -follow(m_low, m_high, m_now_low, m_now_high, n_low, n_high, gap, overlap, current),
{
}

proof fn flipped_push(m: Area, m_now: Area, n: Area, n_now: Area, motion: (i32, i32), gap: int)
    requires
        m.x_low < m.x_high,
        n.x_low < n.x_high,
        motion.0 > i32::MIN,
    ensures
        ({
            let by = push(m, m_now, n, n_now, motion, gap);
            push(
                flipped_area(m),
                flipped_area(m_now),
                flipped_area(n),
                flipped_area(n_now),
                flipped_shift(motion),
                gap,
            ) == (-by.0, by.1)
        }),
{
}

proof fn flipped_primary_push(p: Area, p_now: Area, n: Area, n_now: Area, gap: int)
    requires
        p.x_low < p.x_high,
        n.x_low < n.x_high,
    ensures
        ({
            let by = primary_push(p, p_now, n, n_now, gap);
            primary_push(
                flipped_area(p),
                flipped_area(p_now),
                flipped_area(n),
                flipped_area(n_now),
                gap,
            ) == (-by.0, by.1)
        }),
{
}

/// Setting one shift in the mirror is setting its image.
proof fn flipped_insert(shifts: Map<usize, (i32, i32)>, j: usize, to: (i32, i32))
    requires
        turnable(shifts),
        to.0 > i32::MIN,
    ensures
        turnable(shifts.insert(j, to)),
        flipped_shifts(shifts.insert(j, to)) == flipped_shifts(shifts).insert(
            j,
            flipped_shift(to),
        ),
{
    assert(flipped_shifts(shifts.insert(j, to)) =~= flipped_shifts(shifts).insert(
        j,
        flipped_shift(to),
    ));
}

proof fn flipped_after_bonds(
    members: Seq<ResizeClassification>,
    shifts: Map<usize, (i32, i32)>,
    bonds: Seq<(usize, usize)>,
    gap: int,
    n: nat,
)
    requires
        scene(members, None),
        turnable(shifts),
        bonds_fit(members, shifts, bonds, gap, n),
    ensures
        turnable(after_bonds(members, shifts, bonds, gap, n)),
        after_bonds(flipped_members(members), flipped_shifts(shifts), bonds, gap, n)
            == flipped_shifts(after_bonds(members, shifts, bonds, gap, n)),
    decreases n,
{
    if n > 0 {
        flipped_after_bonds(members, shifts, bonds, gap, (n - 1) as nat);
        let before = after_bonds(members, shifts, bonds, gap, (n - 1) as nat);
        let bond = bonds[n - 1];
        if bond.0 < members.len() && bond.1 < members.len() {
            flipped_bond(members, before, bond, gap);
        }
    }
}

proof fn flipped_bond(
    members: Seq<ResizeClassification>,
    shifts: Map<usize, (i32, i32)>,
    bond: (usize, usize),
    gap: int,
)
    requires
        scene(members, None),
        turnable(shifts),
        bond.0 < members.len(),
        bond.1 < members.len(),
        fits(bond_pull(members, shifts, bond, gap).0),
    ensures
        turnable(after_bond(members, shifts, bond, gap)),
        after_bond(flipped_members(members), flipped_shifts(shifts), bond, gap) == flipped_shifts(
            after_bond(members, shifts, bond, gap),
        ),
{
    flipped_places(members, shifts, bond.0);
    flipped_places(members, shifts, bond.1);
    let m = start(members, bond.0 as int);
    let m_now = place(members, shifts, bond.0);
    let n = start(members, bond.1 as int);
    let n_now = place(members, shifts, bond.1);
    let current = shift_of(shifts, bond.1);
    flipped_follow(
        m.x_low,
        m.x_high,
        m_now.x_low,
        m_now.x_high,
        n.x_low,
        n.x_high,
        gap,
        rows_overlap(m_now, n_now),
        current.0 as int,
    );
    let there = bonded_shift(flipped_members(members), flipped_shifts(shifts), bond, gap);
    let to = bonded_shift(members, shifts, bond, gap);
    assert(columns_overlap(flipped_area(m_now), flipped_area(n_now)) == columns_overlap(
        m_now,
        n_now,
    ));
    assert(there == flipped_shift(to));
    flipped_insert(shifts, bond.1, to);
}

proof fn flipped_primary_step(
    members: Seq<ResizeClassification>,
    p: (SnapRect, SnapRect),
    gap: int,
    c: Cascade,
    j: usize,
)
    requires
        scene(members, Some(p)),
        turnable(c.shifts),
        j < members.len(),
        push_fits(shift_of(c.shifts, j), push_of_primary(members, p, gap, c.shifts, j)),
    ensures
        turnable(primary_pushes(members, p, gap, c, j).shifts),
        primary_pushes(
            flipped_members(members),
            (flipped_rect(p.0), flipped_rect(p.1)),
            gap,
            flipped(c),
            j,
        ) == flipped(primary_pushes(members, p, gap, c, j)),
{
    flipped_places(members, c.shifts, j);
    let n = start(members, j as int);
    let n_now = place(members, c.shifts, j);
    assert(area(flipped_rect(p.0)) == flipped_area(area(p.0)));
    assert(area(flipped_rect(p.1)) == flipped_area(area(p.1)));
    flipped_primary_push(area(p.0), area(p.1), n, n_now, gap);
    let to = pushed(shift_of(c.shifts, j), push_of_primary(members, p, gap, c.shifts, j));
    flipped_insert(c.shifts, j, to);
}

proof fn flipped_member_step(
    members: Seq<ResizeClassification>,
    gap: int,
    c: Cascade,
    i: usize,
    j: usize,
)
    requires
        scene(members, None),
        turnable(c.shifts),
        i < members.len(),
        j < members.len(),
        i != j ==> push_fits(
            shift_of(c.shifts, j),
            push_of_member(members, gap, c.shifts, i, j),
        ),
    ensures
        turnable(member_pushes(members, gap, c, i, j).shifts),
        member_pushes(flipped_members(members), gap, flipped(c), i, j) == flipped(
            member_pushes(members, gap, c, i, j),
        ),
{
    if i != j {
        flipped_places(members, c.shifts, i);
        flipped_places(members, c.shifts, j);
        flipped_push(
            start(members, i as int),
            place(members, c.shifts, i),
            start(members, j as int),
            place(members, c.shifts, j),
            shift_of(c.shifts, i),
            gap,
        );
        let to = pushed(shift_of(c.shifts, j), push_of_member(members, gap, c.shifts, i, j));
        flipped_insert(c.shifts, j, to);
    }
}

proof fn flipped_primary_sweep(
    members: Seq<ResizeClassification>,
    primary: Option<(SnapRect, SnapRect)>,
    gap: int,
    c: Cascade,
    n: nat,
)
    requires
        scene(members, primary),
        turnable(c.shifts),
        n <= members.len(),
        primary_fits(members, primary, gap, c, n),
    ensures
        turnable(primary_sweep(members, primary, gap, c, n).shifts),
        primary_sweep(flipped_members(members), flipped_primary(primary), gap, flipped(c), n)
            == flipped(primary_sweep(members, primary, gap, c, n)),
    decreases n,
{
    if let Some(p) = primary {
        if n > 0 {
            flipped_primary_sweep(members, primary, gap, c, (n - 1) as nat);
            let before = primary_sweep(members, primary, gap, c, (n - 1) as nat);
            flipped_primary_step(members, p, gap, before, (n - 1) as usize);
        }
    }
}

proof fn flipped_row_sweep(
    members: Seq<ResizeClassification>,
    gap: int,
    c: Cascade,
    i: usize,
    n: nat,
)
    requires
        scene(members, None),
        turnable(c.shifts),
        i < members.len(),
        n <= members.len(),
        row_fits(members, gap, c, i, n),
    ensures
        turnable(row_sweep(members, gap, c, i, n).shifts),
        row_sweep(flipped_members(members), gap, flipped(c), i, n) == flipped(
            row_sweep(members, gap, c, i, n),
        ),
    decreases n,
{
    if n > 0 {
        flipped_row_sweep(members, gap, c, i, (n - 1) as nat);
        let before = row_sweep(members, gap, c, i, (n - 1) as nat);
        flipped_member_step(members, gap, before, i, (n - 1) as usize);
    }
}

proof fn flipped_member_sweep(members: Seq<ResizeClassification>, gap: int, c: Cascade, n: nat)
    requires
        scene(members, None),
        turnable(c.shifts),
        n <= members.len(),
        rows_fit(members, gap, c, n),
    ensures
        turnable(member_sweep(members, gap, c, n).shifts),
        member_sweep(flipped_members(members), gap, flipped(c), n) == flipped(
            member_sweep(members, gap, c, n),
        ),
    decreases n,
{
    if n > 0 {
        flipped_member_sweep(members, gap, c, (n - 1) as nat);
        let before = member_sweep(members, gap, c, (n - 1) as nat);
        flipped_row_sweep(members, gap, before, (n - 1) as usize, members.len());
    }
}

proof fn flipped_settle(
    members: Seq<ResizeClassification>,
    primary: Option<(SnapRect, SnapRect)>,
    gap: int,
    c: Cascade,
    rounds: nat,
)
    requires
        scene(members, primary),
        turnable(c.shifts),
        rounds_fit(members, primary, gap, c, rounds),
    ensures
        turnable(settle(members, primary, gap, c, rounds).shifts),
        settle(flipped_members(members), flipped_primary(primary), gap, flipped(c), rounds)
            == flipped(settle(members, primary, gap, c, rounds)),
    decreases rounds,
{
    if rounds > 0 {
        let fresh = Cascade { shifts: c.shifts, bonds: c.bonds, changed: false };
        flipped_primary_sweep(members, primary, gap, fresh, members.len());
        let swept = primary_sweep(members, primary, gap, fresh, members.len());
        flipped_member_sweep(members, gap, swept, members.len());
        let next = round(members, primary, gap, c);
        if next.changed {
            flipped_settle(members, primary, gap, next, (rounds - 1) as nat);
        }
    }
}

proof fn flipped_edge_shifts(
    members: Seq<ResizeClassification>,
    width_delta: i32,
    height_delta: i32,
)
    requires
        width_delta > i32::MIN,
    ensures
        turnable(edge_shifts(members, width_delta, height_delta, members.len())),
        edge_shifts(flipped_members(members), width_delta, height_delta, members.len())
            == flipped_shifts(edge_shifts(members, width_delta, height_delta, members.len())),
{
    assert forall|i: int| 0 <= i < members.len() implies edge_shift(
        #[trigger] flipped_members(members)[i],
        width_delta,
        height_delta,
    ) == flipped_shift(edge_shift(members[i], width_delta, height_delta)) by {}
    assert(edge_shifts(flipped_members(members), width_delta, height_delta, members.len())
        =~= flipped_shifts(edge_shifts(members, width_delta, height_delta, members.len())));
}

/// Left and right are treated alike, rounding included: in the mirror, where
/// every rectangle lies on the other side and every member follows the other
/// edge, the same members move as far, the other way, and the same bonds form.
///
/// This is so wherever the windows have a width and no shift has to be cut at
/// the end of the `i32` range, which reaches one pixel farther to the left.
pub proof fn left_and_right_are_alike(
    members: Seq<ResizeClassification>,
    width_delta: i32,
    height_delta: i32,
    gap: int,
    bonds: Seq<(usize, usize)>,
    primary: Option<(SnapRect, SnapRect)>,
)
    requires
        members.len() <= usize::MAX,
        members_wf(members),
        primary matches Some(p) ==> p.0.wf() && p.1.wf(),
        all_wide(members, primary),
        nothing_is_cut(members, width_delta, height_delta, gap, bonds, primary),
    ensures
        members_wf(flipped_members(members)),
        ({
            let here = resolved(members, width_delta, height_delta, gap, bonds, primary);
            let there = resolved(
                flipped_members(members),
                width_delta,
                height_delta,
                gap,
                bonds,
                flipped_primary(primary),
            );
            &&& there.bonds == here.bonds
            &&& there.shifts.dom() == here.shifts.dom()
            &&& forall|i: usize| #[trigger]
                here.shifts.contains_key(i) ==> there.shifts[i].0 == -here.shifts[i].0
                    && there.shifts[i].1 == here.shifts[i].1
        }),
{
    assert forall|i: int| 0 <= i < members.len() implies (#[trigger] flipped_members(
        members,
    )[i]).initial_rect.wf() by {
        assert(members[i].initial_rect.wf());
    }
    let edges = edge_shifts(members, width_delta, height_delta, members.len());
    flipped_edge_shifts(members, width_delta, height_delta);
    flipped_after_bonds(members, edges, bonds, gap, bonds.len());
    let first = Cascade {
        shifts: led_shifts(members, width_delta, height_delta, gap, bonds),
        bonds: seq![],
        changed: false,
    };
    flipped_settle(members, primary, gap, first, (2 * members.len()) as nat);
    let here = resolved(members, width_delta, height_delta, gap, bonds, primary);
    assert(flipped_shifts(here.shifts).dom() =~= here.shifts.dom());
}

/// Whether every horizontal edge lies at most `reach` pixels from the origin.
pub open spec fn in_reach(r: SnapRect, reach: int) -> bool {
    &&& -from_pixels(reach) <= r.x_low <= from_pixels(reach)
    &&& -from_pixels(reach) <= r.x_high <= from_pixels(reach)
}

/// How far shifts can add up, in pixels, where every edge lies within `reach`
/// pixels of the origin and the gap is at most `gap` pixels.
pub open spec fn farthest(members: nat, bonds: nat, reach: int, gap: int) -> int {
    (2 * reach + gap) * (1 + bonds) + gap * members * members * (2 * members)
}

spec fn bounded(shifts: Map<usize, (i32, i32)>, limit: int) -> bool {
    &&& limit >= 0
    &&& forall|i: usize| #[trigger]
        shifts.contains_key(i) ==> -limit <= shifts[i].0 <= limit
}

spec fn close(
    members: Seq<ResizeClassification>,
    primary: Option<(SnapRect, SnapRect)>,
    reach: int,
) -> bool {
    &&& members.len() <= usize::MAX
    &&& forall|i: int|
        0 <= i < members.len() ==> in_reach((#[trigger] members[i]).initial_rect, reach)
    &&& primary matches Some(p) ==> in_reach(p.0, reach) && in_reach(p.1, reach)
}

proof fn bond_bound(
    members: Seq<ResizeClassification>,
    shifts: Map<usize, (i32, i32)>,
    bond: (usize, usize),
    gap: int,
    reach: int,
    room: int,
    limit: int,
)
    requires
        close(members, None, reach),
        reach >= 0,
        0 <= gap <= from_pixels(room),
        bounded(shifts, limit),
        bond.0 < members.len(),
        bond.1 < members.len(),
        limit + 2 * reach + room <= i32::MAX,
    ensures
        fits(bond_pull(members, shifts, bond, gap).0),
        bounded(after_bond(members, shifts, bond, gap), limit + 2 * reach + room),
{
    assert(in_reach(members[bond.0 as int].initial_rect, reach));
    assert(in_reach(members[bond.1 as int].initial_rect, reach));
    let to = bond_pull(members, shifts, bond, gap).0;
    let most = limit + 2 * reach + room;
    assert(-most <= to <= most);
}

proof fn bonds_bound(
    members: Seq<ResizeClassification>,
    shifts: Map<usize, (i32, i32)>,
    bonds: Seq<(usize, usize)>,
    gap: int,
    n: nat,
    reach: int,
    room: int,
    limit: int,
)
    requires
        close(members, None, reach),
        reach >= 0,
        0 <= gap <= from_pixels(room),
        bounded(shifts, limit),
        limit + (2 * reach + room) * n <= i32::MAX,
    ensures
        bonds_fit(members, shifts, bonds, gap, n),
        bounded(
            after_bonds(members, shifts, bonds, gap, n),
            limit + (2 * reach + room) * n,
        ),
    decreases n,
{
    if n > 0 {
        let step = 2 * reach + room;
        assert(step * n == step * (n - 1) + step) by (nonlinear_arith);
        bonds_bound(members, shifts, bonds, gap, (n - 1) as nat, reach, room, limit);
        let before = after_bonds(members, shifts, bonds, gap, (n - 1) as nat);
        let bond = bonds[n - 1];
        if bond.0 < members.len() && bond.1 < members.len() {
            bond_bound(members, before, bond, gap, reach, room, limit + step * (n - 1));
        }
    }
}

proof fn primary_bound(
    members: Seq<ResizeClassification>,
    primary: Option<(SnapRect, SnapRect)>,
    gap: int,
    c: Cascade,
    n: nat,
    reach: int,
    room: int,
    limit: int,
)
    requires
        close(members, primary, reach),
        reach >= 0,
        n <= members.len(),
        0 <= gap <= from_pixels(room),
        bounded(c.shifts, limit),
        2 * reach + room <= limit,
        2 * limit <= i32::MAX,
    ensures
        primary_fits(members, primary, gap, c, n),
        bounded(primary_sweep(members, primary, gap, c, n).shifts, limit),
    decreases n,
{
    if let Some(p) = primary {
        if n > 0 {
            primary_bound(members, primary, gap, c, (n - 1) as nat, reach, room, limit);
            let before = primary_sweep(members, primary, gap, c, (n - 1) as nat).shifts;
            let j = (n - 1) as usize;
            let shift = shift_of(before, j);
            let by = push_of_primary(members, p, gap, before, j);
            assert(-limit <= shift.0 <= limit);
            assert(in_reach(members[j as int].initial_rect, reach));
            assert(-2 * limit <= by.0 <= 2 * limit);
            assert(-limit <= shift.0 + by.0 <= limit);
        }
    }
}

proof fn row_bound(
    members: Seq<ResizeClassification>,
    gap: int,
    c: Cascade,
    i: usize,
    n: nat,
    room: int,
    limit: int,
)
    requires
        members.len() <= usize::MAX,
        i < members.len(),
        n <= members.len(),
        0 <= gap <= from_pixels(room),
        bounded(c.shifts, limit),
        2 * (limit + room * n) <= i32::MAX,
    ensures
        row_fits(members, gap, c, i, n),
        bounded(row_sweep(members, gap, c, i, n).shifts, limit + room * n),
    decreases n,
{
    if n > 0 {
        assert(room * n == room * (n - 1) + room) by (nonlinear_arith);
        row_bound(members, gap, c, i, (n - 1) as nat, room, limit);
        let before = row_sweep(members, gap, c, i, (n - 1) as nat).shifts;
        let most = limit + room * (n - 1);
        let j = (n - 1) as usize;
        let motion = shift_of(before, i);
        let shift = shift_of(before, j);
        let by = push_of_member(members, gap, before, i, j);
        assert(-most <= motion.0 <= most);
        assert(-most <= shift.0 <= most);
        assert(-2 * most - room <= by.0 <= 2 * most + room);
        assert(-most - room <= shift.0 + by.0 <= most + room);
    }
}

proof fn rows_bound(
    members: Seq<ResizeClassification>,
    gap: int,
    c: Cascade,
    n: nat,
    room: int,
    limit: int,
)
    requires
        members.len() <= usize::MAX,
        n <= members.len(),
        0 <= gap <= from_pixels(room),
        bounded(c.shifts, limit),
        2 * (limit + room * members.len() * n) <= i32::MAX,
    ensures
        rows_fit(members, gap, c, n),
        bounded(member_sweep(members, gap, c, n).shifts, limit + room * members.len() * n),
    decreases n,
{
    if n > 0 {
        let row = room * members.len();
        assert(row * n == row * (n - 1) + row) by (nonlinear_arith);
        assert(row >= 0) by (nonlinear_arith)
            requires
                room >= 0,
                row == room * members.len(),
        ;
        rows_bound(members, gap, c, (n - 1) as nat, room, limit);
        let before = member_sweep(members, gap, c, (n - 1) as nat);
        row_bound(
            members,
            gap,
            before,
            (n - 1) as usize,
            members.len(),
            room,
            limit + row * (n - 1),
        );
    }
}

proof fn rounds_bound(
    members: Seq<ResizeClassification>,
    primary: Option<(SnapRect, SnapRect)>,
    gap: int,
    c: Cascade,
    rounds: nat,
    reach: int,
    room: int,
    limit: int,
)
    requires
        close(members, primary, reach),
        reach >= 0,
        0 <= gap <= from_pixels(room),
        bounded(c.shifts, limit),
        2 * reach + room <= limit,
        2 * (limit + room * members.len() * members.len() * rounds) <= i32::MAX,
    ensures
        rounds_fit(members, primary, gap, c, rounds),
    decreases rounds,
{
    if rounds > 0 {
        let each = room * members.len() * members.len();
        assert(each * rounds == each * (rounds - 1) + each) by (nonlinear_arith);
        assert(each >= 0 && each * (rounds - 1) >= 0) by (nonlinear_arith)
            requires
                room >= 0,
                rounds > 0,
                each == room * members.len() * members.len(),
        ;
        let fresh = Cascade { shifts: c.shifts, bonds: c.bonds, changed: false };
        primary_bound(members, primary, gap, fresh, members.len(), reach, room, limit);
        let swept = primary_sweep(members, primary, gap, fresh, members.len());
        rows_bound(members, gap, swept, members.len(), room, limit);
        let next = round(members, primary, gap, c);
        if next.changed {
            rounds_bound(
                members,
                primary,
                gap,
                next,
                (rounds - 1) as nat,
                reach,
                room,
                limit + each,
            );
        }
    }
}

/// Nothing is cut as long as the values are small: twice the distance that
/// shifts can add up to is within the range.
pub proof fn small_values_are_not_cut(
    members: Seq<ResizeClassification>,
    width_delta: i32,
    height_delta: i32,
    gap: int,
    bonds: Seq<(usize, usize)>,
    primary: Option<(SnapRect, SnapRect)>,
    reach: int,
    room: int,
)
    requires
        members.len() <= usize::MAX,
        forall|i: int|
            0 <= i < members.len() ==> in_reach((#[trigger] members[i]).initial_rect, reach),
        primary matches Some(p) ==> in_reach(p.0, reach) && in_reach(p.1, reach),
        -reach <= width_delta <= reach,
        0 <= gap <= from_pixels(room),
        2 * farthest(members.len(), bonds.len(), reach, room) <= i32::MAX,
    ensures
        nothing_is_cut(members, width_delta, height_delta, gap, bonds, primary),
{
    let edges = edge_shifts(members, width_delta, height_delta, members.len());
    let step = 2 * reach + room;
    let rounds = (2 * members.len()) as nat;
    let each = room * members.len() * members.len();
    assert(step * (1 + bonds.len()) == step + step * bonds.len()) by (nonlinear_arith);
    assert(each * rounds >= 0 && step * bonds.len() >= 0) by (nonlinear_arith)
        requires
            room >= 0,
            step >= 0,
            each == room * members.len() * members.len(),
    ;
    assert(bounded(edges, step));
    bonds_bound(members, edges, bonds, gap, bonds.len(), reach, room, step);
    let first = Cascade {
        shifts: led_shifts(members, width_delta, height_delta, gap, bonds),
        bonds: seq![],
        changed: false,
    };
    rounds_bound(
        members,
        primary,
        gap,
        first,
        rounds,
        reach,
        room,
        step + step * bonds.len(),
    );
}

} // verus!
