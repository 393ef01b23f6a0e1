//! Window clusters: windows that sit edge to edge at the snap gap, and how the
//! rest of a cluster follows when one of its windows is resized.

use crate::snap::SnapRect;
use crate::units::{ceil_to_pixels, distance, floor_to_pixels, pixels, saturating_sum};
use std::collections::{HashMap, HashSet, VecDeque};
use vstd::prelude::*;

verus! {

use crate::units::{
    ceil_pixels,
    clamp_i32,
    floor_pixels,
    from_pixels,
    in_range,
    magnitude,
    COORD_LIMIT,
    UNITS_PER_PIXEL,
};

broadcast use vstd::std_specs::hash::group_hash_axioms;

/// A side of a window.
#[derive(Clone, Copy, Debug, PartialEq, Eq, Hash, Structural)]
pub enum Side {
    Left,
    Right,
    Top,
    Bottom,
}

impl Side {
    /// The side across.
    pub open spec fn across(self) -> Side {
        match self {
            Side::Left => Side::Right,
            Side::Right => Side::Left,
            Side::Top => Side::Bottom,
            Side::Bottom => Side::Top,
        }
    }

    /// The side that a neighbour on this side touches with.
    pub fn opposite(self) -> (r: Side)
        ensures
            r == self.across(),
    {
        match self {
            Side::Left => Side::Right,
            Side::Right => Side::Left,
            Side::Top => Side::Bottom,
            Side::Bottom => Side::Top,
        }
    }
}

/// Going across twice leads back.
pub proof fn opposite_twice(s: Side)
    ensures
        s.across().across() == s,
        s.across() != s,
{
}

/// Two edges count as flush when they are less than a pixel apart.
pub open spec fn flush(a: int, b: int) -> bool {
    magnitude(a - b) < UNITS_PER_PIXEL
}

/// Whether two rectangles share more than a corner's height.
pub open spec fn rows_overlap(a: Area, b: Area) -> bool {
    a.y_low < b.y_high && b.y_low < a.y_high
}

/// Whether two rectangles share more than a corner's width.
pub open spec fn columns_overlap(a: Area, b: Area) -> bool {
    a.x_low < b.x_high && b.x_low < a.x_high
}

/// A rectangle over mathematical integers.
pub struct Area {
    pub x_low: int,
    pub x_high: int,
    pub y_low: int,
    pub y_high: int,
}

impl Area {
    /// The rectangle, moved by whole pixels.
    pub open spec fn moved(self, shift: (i32, i32)) -> Area {
        Area {
            x_low: self.x_low + from_pixels(shift.0 as int),
            x_high: self.x_high + from_pixels(shift.0 as int),
            y_low: self.y_low + from_pixels(shift.1 as int),
            y_high: self.y_high + from_pixels(shift.1 as int),
        }
    }
}

pub open spec fn area(r: SnapRect) -> Area {
    Area {
        x_low: r.x_low as int,
        x_high: r.x_high as int,
        y_low: r.y_low as int,
        y_high: r.y_high as int,
    }
}

/// The side of `a` on which `b` is edge-adjacent: flush at the gap, with a
/// real overlap along the shared edge.
pub open spec fn adjacency(a: Area, b: Area, gap: int) -> Option<Side> {
    if rows_overlap(a, b) && flush(a.x_high + gap, b.x_low) {
        Some(Side::Right)
    } else if rows_overlap(a, b) && flush(a.x_low, b.x_high + gap) {
        Some(Side::Left)
    } else if columns_overlap(a, b) && flush(a.y_high + gap, b.y_low) {
        Some(Side::Bottom)
    } else if columns_overlap(a, b) && flush(a.y_low, b.y_high + gap) {
        Some(Side::Top)
    } else {
        None
    }
}

fn y_overlap(a: &SnapRect, b: &SnapRect) -> (r: bool)
    ensures
        r == rows_overlap(area(*a), area(*b)),
{
    a.y_low < b.y_high && b.y_low < a.y_high
}

fn x_overlap(a: &SnapRect, b: &SnapRect) -> (r: bool)
    ensures
        r == columns_overlap(area(*a), area(*b)),
{
    a.x_low < b.x_high && b.x_low < a.x_high
}

/// Which side of `a` is edge-adjacent to `b`, if any. Corner touches and
/// diagonal neighbours do not count.
pub fn adjacent_side(a: &SnapRect, b: &SnapRect, gap: i64) -> (r: Option<Side>)
    requires
        a.wf(),
        b.wf(),
        in_range(gap),
    ensures
        r == adjacency(area(*a), area(*b), gap as int),
{
    if y_overlap(a, b) {
        if distance(a.x_high + gap, b.x_low) < UNITS_PER_PIXEL {
            return Some(Side::Right);
        }
        if distance(a.x_low, b.x_high + gap) < UNITS_PER_PIXEL {
            return Some(Side::Left);
        }
    }
    if x_overlap(a, b) {
        if distance(a.y_high + gap, b.y_low) < UNITS_PER_PIXEL {
            return Some(Side::Bottom);
        }
        if distance(a.y_low, b.y_high + gap) < UNITS_PER_PIXEL {
            return Some(Side::Top);
        }
    }
    None
}

/// Adjacency goes both ways.
pub proof fn adjacency_is_mutual(a: Area, b: Area, gap: int)
    ensures
        adjacency(a, b, gap) is Some <==> adjacency(b, a, gap) is Some,
{
}

/// Two windows of at least one pixel each way see each other on opposite
/// sides.
pub proof fn adjacency_is_mirrored(a: Area, b: Area, gap: int)
    requires
        gap >= 0,
        a.x_high - a.x_low >= UNITS_PER_PIXEL,
        a.y_high - a.y_low >= UNITS_PER_PIXEL,
        b.x_high - b.x_low >= UNITS_PER_PIXEL,
        b.y_high - b.y_low >= UNITS_PER_PIXEL,
    ensures
        adjacency(a, b, gap) matches Some(side) ==> adjacency(b, a, gap) == Some(side.across()),
{
}

/// Windows that meet only at a corner, or that are flush on both axes without
/// sharing an edge, are not adjacent.
pub proof fn corners_are_not_adjacent(a: Area, b: Area, gap: int)
    requires
        !rows_overlap(a, b),
        !columns_overlap(a, b),
    ensures
        adjacency(a, b, gap) is None,
{
}

/// One window of the cluster: the sides of the resized window that it follows,
/// and where it was when the resize began.
#[derive(Clone, Copy, Debug, PartialEq, Eq, Structural)]
pub struct ResizeClassification {
    pub axis_x: Option<Side>,
    pub axis_y: Option<Side>,
    pub initial_rect: SnapRect,
}

/// Per-member shifts by index, and the bonds that were formed.
pub type ShiftsAndBonds = (HashMap<usize, (i32, i32)>, Vec<(usize, usize)>);

pub open spec fn members_wf(members: Seq<ResizeClassification>) -> bool {
    forall|i: int| 0 <= i < members.len() ==> (#[trigger] members[i]).initial_rect.wf()
}

/// Where member `i` was when the resize began.
pub open spec fn start(members: Seq<ResizeClassification>, i: int) -> Area {
    area(members[i].initial_rect)
}

/// The shift of member `i`; a member without an entry stays where it was.
pub open spec fn shift_of(shifts: Map<usize, (i32, i32)>, i: usize) -> (i32, i32) {
    if shifts.contains_key(i) {
        shifts[i]
    } else {
        (0, 0)
    }
}

/// Where member `i` is under `shifts`.
pub open spec fn place(
    members: Seq<ResizeClassification>,
    shifts: Map<usize, (i32, i32)>,
    i: usize,
) -> Area {
    start(members, i as int).moved(shift_of(shifts, i))
}

/// The shift that a member takes over from the edges of the resized window.
pub open spec fn edge_shift(m: ResizeClassification, width_delta: i32, height_delta: i32) -> (i32, i32) {
    (
        match m.axis_x {
            Some(Side::Right) => width_delta,
            Some(Side::Left) => (-width_delta) as i32,
            _ => 0,
        },
        match m.axis_y {
            Some(Side::Bottom) => height_delta,
            Some(Side::Top) => (-height_delta) as i32,
            _ => 0,
        },
    )
}

/// The shifts that the first `n` members take over from the edges.
pub open spec fn edge_shifts(
    members: Seq<ResizeClassification>,
    width_delta: i32,
    height_delta: i32,
    n: nat,
) -> Map<usize, (i32, i32)> {
    Map::new(
        |i: usize|
            i < n && i < members.len() && edge_shift(members[i as int], width_delta, height_delta) != (
                0i32,
                0i32,
            ),
        |i: usize| edge_shift(members[i as int], width_delta, height_delta),
    )
}

/// The shift along one axis that puts `n` flush with `m`, which moved to
/// `m_now`: on the side on which it started, and only where the two overlap.
/// The shift is in whole pixels, and may lie outside the range of shifts.
pub open spec fn follow(
    m_low: int,
    m_high: int,
    m_now_low: int,
    m_now_high: int,
    n_low: int,
    n_high: int,
    gap: int,
    overlap: bool,
    current: int,
) -> int {
    if n_low >= m_high && overlap {
        ceil_pixels(m_now_high + gap - n_low)
    } else if n_high <= m_low && overlap {
        floor_pixels(m_now_low - gap - n_high)
    } else {
        current
    }
}

/// Where a bond wants its second member, given where both are: the shift along
/// each axis, before it is held inside the range.
pub open spec fn bond_pull(
    members: Seq<ResizeClassification>,
    shifts: Map<usize, (i32, i32)>,
    bond: (usize, usize),
    gap: int,
) -> (int, int) {
    let m = start(members, bond.0 as int);
    let m_now = place(members, shifts, bond.0);
    let n = start(members, bond.1 as int);
    let n_now = place(members, shifts, bond.1);
    let current = shift_of(shifts, bond.1);
    (
        follow(
            m.x_low,
            m.x_high,
            m_now.x_low,
            m_now.x_high,
            n.x_low,
            n.x_high,
            gap,
            rows_overlap(m_now, n_now),
            current.0 as int,
        ),
        follow(
            m.y_low,
            m.y_high,
            m_now.y_low,
            m_now.y_high,
            n.y_low,
            n.y_high,
            gap,
            columns_overlap(m_now, n_now),
            current.1 as int,
        ),
    )
}

/// The shift of the second member of a bond, given where both are.
pub open spec fn bonded_shift(
    members: Seq<ResizeClassification>,
    shifts: Map<usize, (i32, i32)>,
    bond: (usize, usize),
    gap: int,
) -> (i32, i32) {
    let to = bond_pull(members, shifts, bond, gap);
    (clamp_i32(to.0) as i32, clamp_i32(to.1) as i32)
}

/// The shifts after one bond. A bond that names a member out of range does
/// nothing.
pub open spec fn after_bond(
    members: Seq<ResizeClassification>,
    shifts: Map<usize, (i32, i32)>,
    bond: (usize, usize),
    gap: int,
) -> Map<usize, (i32, i32)> {
    if bond.0 >= members.len() || bond.1 >= members.len() {
        shifts
    } else {
        moved_to(shifts, bond.1, bonded_shift(members, shifts, bond, gap))
    }
}

/// The shifts with member `i` at `to`. A member that does not move gets no
/// entry.
pub open spec fn moved_to(shifts: Map<usize, (i32, i32)>, i: usize, to: (i32, i32)) -> Map<
    usize,
    (i32, i32),
> {
    if to == shift_of(shifts, i) {
        shifts
    } else {
        shifts.insert(i, to)
    }
}

/// The shifts after the first `n` bonds, taken in order.
pub open spec fn after_bonds(
    members: Seq<ResizeClassification>,
    shifts: Map<usize, (i32, i32)>,
    bonds: Seq<(usize, usize)>,
    gap: int,
    n: nat,
) -> Map<usize, (i32, i32)>
    decreases n,
{
    if n == 0 {
        shifts
    } else {
        after_bond(
            members,
            after_bonds(members, shifts, bonds, gap, (n - 1) as nat),
            bonds[n - 1],
            gap,
        )
    }
}

/// How far something whose low edge is at `low` has to go to be past `edge`
/// with the gap between them.
pub open spec fn push_up(edge: int, gap: int, low: int) -> int {
    if edge + gap - low > 0 {
        ceil_pixels(edge + gap - low)
    } else {
        0
    }
}

/// How far something whose high edge is at `high` has to go back to be before
/// `edge` with the gap between them.
pub open spec fn push_down(edge: int, gap: int, high: int) -> int {
    if edge - gap - high < 0 {
        floor_pixels(edge - gap - high)
    } else {
        0
    }
}

/// How far a member that moved by `motion` pushes another along one axis. It
/// pushes only ahead of itself, and only what started ahead of it.
pub open spec fn push_along(
    motion: int,
    m_low: int,
    m_high: int,
    m_now_low: int,
    m_now_high: int,
    n_low: int,
    n_high: int,
    n_now_low: int,
    n_now_high: int,
    gap: int,
    overlap: bool,
) -> int {
    if motion > 0 && n_low >= m_high && overlap {
        push_up(m_now_high, gap, n_now_low)
    } else if motion < 0 && n_high <= m_low && overlap {
        push_down(m_now_low, gap, n_now_high)
    } else {
        0
    }
}

/// How far a member that moved by `motion` pushes another.
pub open spec fn push(m: Area, m_now: Area, n: Area, n_now: Area, motion: (i32, i32), gap: int) -> (
    int,
    int,
) {
    (
        push_along(
            motion.0 as int,
            m.x_low,
            m.x_high,
            m_now.x_low,
            m_now.x_high,
            n.x_low,
            n.x_high,
            n_now.x_low,
            n_now.x_high,
            gap,
            rows_overlap(m_now, n_now),
        ),
        push_along(
            motion.1 as int,
            m.y_low,
            m.y_high,
            m_now.y_low,
            m_now.y_high,
            n.y_low,
            n.y_high,
            n_now.y_low,
            n_now.y_high,
            gap,
            columns_overlap(m_now, n_now),
        ),
    )
}

/// How far the resized window pushes a member along one axis: out on the side
/// on which the member started.
pub open spec fn primary_push_along(
    p_low: int,
    p_high: int,
    p_now_low: int,
    p_now_high: int,
    n_low: int,
    n_high: int,
    n_now_low: int,
    n_now_high: int,
    gap: int,
    overlap: bool,
) -> int {
    if n_high <= p_low && overlap && p_now_low - gap - n_now_high < 0 {
        push_down(p_now_low, gap, n_now_high)
    } else if n_low >= p_high && overlap {
        push_up(p_now_high, gap, n_now_low)
    } else {
        0
    }
}

/// How far the resized window pushes a member.
pub open spec fn primary_push(p: Area, p_now: Area, n: Area, n_now: Area, gap: int) -> (int, int) {
    (
        primary_push_along(
            p.x_low,
            p.x_high,
            p_now.x_low,
            p_now.x_high,
            n.x_low,
            n.x_high,
            n_now.x_low,
            n_now.x_high,
            gap,
            rows_overlap(p_now, n_now),
        ),
        primary_push_along(
            p.y_low,
            p.y_high,
            p_now.y_low,
            p_now.y_high,
            n.y_low,
            n.y_high,
            n_now.y_low,
            n_now.y_high,
            gap,
            columns_overlap(p_now, n_now),
        ),
    )
}

/// The sum of a shift and a push. The push and the sum are each held inside the
/// range.
pub open spec fn pushed(shift: (i32, i32), by: (int, int)) -> (i32, i32) {
    (
        clamp_i32(shift.0 + clamp_i32(by.0)) as i32,
        clamp_i32(shift.1 + clamp_i32(by.1)) as i32,
    )
}

/// A push along both axes, held inside the range.
spec fn held(by: (int, int)) -> (int, int) {
    (clamp_i32(by.0), clamp_i32(by.1))
}

fn translate_rect(r: &SnapRect, dx: i32, dy: i32) -> (t: SnapRect)
    requires
        r.wf(),
    ensures
        area(t) == area(*r).moved((dx, dy)),
        near(t),
{
    let x: i64 = pixels(dx);
    let y: i64 = pixels(dy);
    SnapRect { x_low: r.x_low + x, x_high: r.x_high + x, y_low: r.y_low + y, y_high: r.y_high + y }
}

/// A rectangle that a shift has moved, at most, a little past the limit.
spec fn near(r: SnapRect) -> bool {
    &&& -2 * COORD_LIMIT <= r.x_low <= 2 * COORD_LIMIT
    &&& -2 * COORD_LIMIT <= r.x_high <= 2 * COORD_LIMIT
    &&& -2 * COORD_LIMIT <= r.y_low <= 2 * COORD_LIMIT
    &&& -2 * COORD_LIMIT <= r.y_high <= 2 * COORD_LIMIT
}

fn up(edge: i64, gap: i64, low: i64) -> (r: i32)
    requires
        -2 * COORD_LIMIT <= edge <= 2 * COORD_LIMIT,
        -2 * COORD_LIMIT <= low <= 2 * COORD_LIMIT,
        in_range(gap),
    ensures
        r == clamp_i32(push_up(edge as int, gap as int, low as int)),
{
    let encroach: i64 = edge + gap - low;
    if encroach > 0 {
        ceil_to_pixels(encroach)
    } else {
        0
    }
}

fn down(edge: i64, gap: i64, high: i64) -> (r: i32)
    requires
        -2 * COORD_LIMIT <= edge <= 2 * COORD_LIMIT,
        -2 * COORD_LIMIT <= high <= 2 * COORD_LIMIT,
        in_range(gap),
    ensures
        r == clamp_i32(push_down(edge as int, gap as int, high as int)),
{
    let encroach: i64 = edge - gap - high;
    if encroach < 0 {
        floor_to_pixels(encroach)
    } else {
        0
    }
}

/// How far a member that moved by `motion` pushes another to keep the gap.
///
/// Only a member that started ahead of the leading edge is pushed: a window
/// that merely overlapped the mover, or sat behind it, is left alone.
fn compute_push(
    m_init: &SnapRect,
    m_cur: &SnapRect,
    n_init: &SnapRect,
    n_cur: &SnapRect,
    motion: (i32, i32),
    gap: i64,
) -> (r: (i32, i32))
    requires
        near(*m_cur),
        near(*n_cur),
        in_range(gap),
    ensures
        (r.0 as int, r.1 as int) == held(
            push(
                area(*m_init),
                area(*m_cur),
                area(*n_init),
                area(*n_cur),
                motion,
                gap as int,
            ),
        ),
{
    let rows = y_overlap(m_cur, n_cur);
    let columns = x_overlap(m_cur, n_cur);
    let x: i32 = if motion.0 > 0 && n_init.x_low >= m_init.x_high && rows {
        up(m_cur.x_high, gap, n_cur.x_low)
    } else if motion.0 < 0 && n_init.x_high <= m_init.x_low && rows {
        down(m_cur.x_low, gap, n_cur.x_high)
    } else {
        0
    };
    let y: i32 = if motion.1 > 0 && n_init.y_low >= m_init.y_high && columns {
        up(m_cur.y_high, gap, n_cur.y_low)
    } else if motion.1 < 0 && n_init.y_high <= m_init.y_low && columns {
        down(m_cur.y_low, gap, n_cur.y_high)
    } else {
        0
    };
    (x, y)
}

/// How far the resized window pushes a member to keep the gap.
///
/// All four sides count, whatever edge is dragged: a bond can pull a member
/// into an edge that stands still.
fn compute_push_from_primary(
    p_init: &SnapRect,
    p_cur: &SnapRect,
    n_init: &SnapRect,
    n_cur: &SnapRect,
    gap: i64,
) -> (r: (i32, i32))
    requires
        near(*p_cur),
        near(*n_cur),
        in_range(gap),
    ensures
        (r.0 as int, r.1 as int) == held(
            primary_push(
                area(*p_init),
                area(*p_cur),
                area(*n_init),
                area(*n_cur),
                gap as int,
            ),
        ),
{
    let rows = y_overlap(p_cur, n_cur);
    let columns = x_overlap(p_cur, n_cur);
    let mut x: i32 = 0;
    let mut y: i32 = 0;
    if n_init.x_low >= p_init.x_high && rows {
        x = up(p_cur.x_high, gap, n_cur.x_low);
    }
    if n_init.x_high <= p_init.x_low && rows {
        let back: i64 = p_cur.x_low - gap - n_cur.x_high;
        if back < 0 {
            x = floor_to_pixels(back);
        }
    }
    if n_init.y_low >= p_init.y_high && columns {
        y = up(p_cur.y_high, gap, n_cur.y_low);
    }
    if n_init.y_high <= p_init.y_low && columns {
        let back: i64 = p_cur.y_low - gap - n_cur.y_high;
        if back < 0 {
            y = floor_to_pixels(back);
        }
    }
    (x, y)
}

/// A push cascade in progress: the shifts, the bonds formed so far, and
/// whether the current round moved anything.
pub struct Cascade {
    pub shifts: Map<usize, (i32, i32)>,
    pub bonds: Seq<(usize, usize)>,
    pub changed: bool,
}

/// The bonds, with one more unless it is there already.
pub open spec fn with_bond(bonds: Seq<(usize, usize)>, bond: (usize, usize)) -> Seq<(usize, usize)> {
    if bonds.contains(bond) {
        bonds
    } else {
        bonds.push(bond)
    }
}

/// The push that the resized window gives to member `j`, from its rectangle at
/// the start and now.
pub open spec fn push_of_primary(
    members: Seq<ResizeClassification>,
    primary: (SnapRect, SnapRect),
    gap: int,
    shifts: Map<usize, (i32, i32)>,
    j: usize,
) -> (int, int) {
    primary_push(
        area(primary.0),
        area(primary.1),
        start(members, j as int),
        place(members, shifts, j),
        gap,
    )
}

/// The push that member `i` gives to member `j`.
pub open spec fn push_of_member(
    members: Seq<ResizeClassification>,
    gap: int,
    shifts: Map<usize, (i32, i32)>,
    i: usize,
    j: usize,
) -> (int, int) {
    push(
        start(members, i as int),
        place(members, shifts, i),
        start(members, j as int),
        place(members, shifts, j),
        shift_of(shifts, i),
        gap,
    )
}

/// The cascade after the resized window has pushed member `j`.
pub open spec fn primary_pushes(
    members: Seq<ResizeClassification>,
    primary: (SnapRect, SnapRect),
    gap: int,
    c: Cascade,
    j: usize,
) -> Cascade {
    let to = pushed(shift_of(c.shifts, j), push_of_primary(members, primary, gap, c.shifts, j));
    if to == shift_of(c.shifts, j) {
        c
    } else {
        Cascade { shifts: c.shifts.insert(j, to), bonds: c.bonds, changed: true }
    }
}

/// The cascade after member `i` has pushed member `j`.
pub open spec fn member_pushes(
    members: Seq<ResizeClassification>,
    gap: int,
    c: Cascade,
    i: usize,
    j: usize,
) -> Cascade {
    let to = pushed(shift_of(c.shifts, j), push_of_member(members, gap, c.shifts, i, j));
    if i == j || to == shift_of(c.shifts, j) {
        c
    } else {
        Cascade {
            shifts: c.shifts.insert(j, to),
            bonds: with_bond(c.bonds, (i, j)),
            changed: true,
        }
    }
}

/// The cascade after the resized window has pushed the first `n` members.
pub open spec fn primary_sweep(
    members: Seq<ResizeClassification>,
    primary: Option<(SnapRect, SnapRect)>,
    gap: int,
    c: Cascade,
    n: nat,
) -> Cascade
    decreases n,
{
    match primary {
        None => c,
        Some(p) => if n == 0 {
            c
        } else {
            primary_pushes(
                members,
                p,
                gap,
                primary_sweep(members, primary, gap, c, (n - 1) as nat),
                (n - 1) as usize,
            )
        },
    }
}

/// The cascade after member `i` has pushed the first `n` members.
pub open spec fn row_sweep(
    members: Seq<ResizeClassification>,
    gap: int,
    c: Cascade,
    i: usize,
    n: nat,
) -> Cascade
    decreases n,
{
    if n == 0 {
        c
    } else {
        member_pushes(
            members,
            gap,
            row_sweep(members, gap, c, i, (n - 1) as nat),
            i,
            (n - 1) as usize,
        )
    }
}

/// The cascade after each of the first `n` members has pushed all others.
pub open spec fn member_sweep(members: Seq<ResizeClassification>, gap: int, c: Cascade, n: nat) -> Cascade
    decreases n,
{
    if n == 0 {
        c
    } else {
        row_sweep(
            members,
            gap,
            member_sweep(members, gap, c, (n - 1) as nat),
            (n - 1) as usize,
            members.len(),
        )
    }
}

/// One round: the resized window pushes, then the members push one another.
pub open spec fn round(
    members: Seq<ResizeClassification>,
    primary: Option<(SnapRect, SnapRect)>,
    gap: int,
    c: Cascade,
) -> Cascade {
    let fresh = Cascade { shifts: c.shifts, bonds: c.bonds, changed: false };
    member_sweep(
        members,
        gap,
        primary_sweep(members, primary, gap, fresh, members.len()),
        members.len(),
    )
}

/// Rounds until one changes nothing, but at most `rounds` of them.
pub open spec fn settle(
    members: Seq<ResizeClassification>,
    primary: Option<(SnapRect, SnapRect)>,
    gap: int,
    c: Cascade,
    rounds: nat,
) -> Cascade
    decreases rounds,
{
    if rounds == 0 {
        c
    } else {
        let next = round(members, primary, gap, c);
        if next.changed {
            settle(members, primary, gap, next, (rounds - 1) as nat)
        } else {
            next
        }
    }
}

/// The shifts before anything is pushed: those taken over from the edges, then
/// the bonds.
pub open spec fn led_shifts(
    members: Seq<ResizeClassification>,
    width_delta: i32,
    height_delta: i32,
    gap: int,
    bonds: Seq<(usize, usize)>,
) -> Map<usize, (i32, i32)> {
    after_bonds(
        members,
        edge_shifts(members, width_delta, height_delta, members.len()),
        bonds,
        gap,
        bonds.len(),
    )
}

/// The outcome of one motion of a cluster resize.
pub open spec fn resolved(
    members: Seq<ResizeClassification>,
    width_delta: i32,
    height_delta: i32,
    gap: int,
    bonds: Seq<(usize, usize)>,
    primary: Option<(SnapRect, SnapRect)>,
) -> Cascade {
    settle(
        members,
        primary,
        gap,
        Cascade {
            shifts: led_shifts(members, width_delta, height_delta, gap, bonds),
            bonds: seq![],
            changed: false,
        },
        (2 * members.len()) as nat,
    )
}

struct Running {
    shifts: HashMap<usize, (i32, i32)>,
    bonds: Vec<(usize, usize)>,
    changed: bool,
}

impl Running {
    spec fn state(&self) -> Cascade {
        Cascade { shifts: self.shifts@, bonds: self.bonds@, changed: self.changed }
    }
}

fn current_shift(shifts: &HashMap<usize, (i32, i32)>, i: usize) -> (r: (i32, i32))
    ensures
        r == shift_of(shifts@, i),
{
    match shifts.get(&i) {
        Some(s) => *s,
        None => (0, 0),
    }
}

fn record_bond(bonds: &mut Vec<(usize, usize)>, bond: (usize, usize))
    ensures
        final(bonds)@ == with_bond(old(bonds)@, bond),
{
    let mut k: usize = 0;
    while k < bonds.len()
        invariant
            k <= bonds.len(),
            bonds@ == old(bonds)@,
            forall|x: int| 0 <= x < k ==> bonds@[x] != bond,
        decreases bonds.len() - k,
    {
        let b = bonds[k];
        if b.0 == bond.0 && b.1 == bond.1 {
            assert(bonds@[k as int] == bond);
            return;
        }
        k += 1;
    }
    bonds.push(bond);
}

fn push_from_primary(
    members: &[ResizeClassification],
    p_init: &SnapRect,
    p_cur: &SnapRect,
    gap: i64,
    c: &mut Running,
    j: usize,
)
    requires
        members_wf(members@),
        p_cur.wf(),
        in_range(gap),
        j < members@.len(),
    ensures
        final(c).state() == primary_pushes(
            members@,
            (*p_init, *p_cur),
            gap as int,
            old(c).state(),
            j,
        ),
{
    let shift = current_shift(&c.shifts, j);
    let init = members[j].initial_rect;
    assert(members@[j as int].initial_rect.wf());
    let cur = translate_rect(&init, shift.0, shift.1);
    let by = compute_push_from_primary(p_init, p_cur, &init, &cur, gap);
    let to: (i32, i32) = (saturating_sum(shift.0, by.0), saturating_sum(shift.1, by.1));
    if to.0 != shift.0 || to.1 != shift.1 {
        c.shifts.insert(j, to);
        c.changed = true;
    }
}

fn push_from_member(members: &[ResizeClassification], gap: i64, c: &mut Running, i: usize, j: usize)
    requires
        members_wf(members@),
        in_range(gap),
        i < members@.len(),
        j < members@.len(),
    ensures
        final(c).state() == member_pushes(members@, gap as int, old(c).state(), i, j),
{
    if i == j {
        return;
    }
    let motion = current_shift(&c.shifts, i);
    let shift = current_shift(&c.shifts, j);
    let m_init = members[i].initial_rect;
    let n_init = members[j].initial_rect;
    assert(members@[i as int].initial_rect.wf());
    assert(members@[j as int].initial_rect.wf());
    let m_cur = translate_rect(&m_init, motion.0, motion.1);
    let n_cur = translate_rect(&n_init, shift.0, shift.1);
    let by = compute_push(&m_init, &m_cur, &n_init, &n_cur, motion, gap);
    let to: (i32, i32) = (saturating_sum(shift.0, by.0), saturating_sum(shift.1, by.1));
    if to.0 != shift.0 || to.1 != shift.1 {
        c.shifts.insert(j, to);
        record_bond(&mut c.bonds, (i, j));
        c.changed = true;
    }
}

fn run_round(
    members: &[ResizeClassification],
    primary: Option<(SnapRect, SnapRect)>,
    gap: i64,
    c: &mut Running,
)
    requires
        members_wf(members@),
        in_range(gap),
        primary matches Some(p) ==> p.1.wf(),
    ensures
        final(c).state() == round(members@, primary, gap as int, old(c).state()),
{
    c.changed = false;
    let ghost fresh = c.state();
    if let Some((p_init, p_cur)) = primary {
        let mut j: usize = 0;
        while j < members.len()
            invariant
                j <= members@.len(),
                members_wf(members@),
                in_range(gap),
                primary == Some((p_init, p_cur)),
                p_cur.wf(),
                c.state() == primary_sweep(members@, primary, gap as int, fresh, j as nat),
            decreases members.len() - j,
        {
            push_from_primary(members, &p_init, &p_cur, gap, c, j);
            j += 1;
        }
    }
    let ghost swept = primary_sweep(members@, primary, gap as int, fresh, members@.len());
    let mut i: usize = 0;
    while i < members.len()
        invariant
            i <= members@.len(),
            members_wf(members@),
            in_range(gap),
            c.state() == member_sweep(members@, gap as int, swept, i as nat),
        decreases members.len() - i,
    {
        let ghost row = c.state();
        let mut j: usize = 0;
        while j < members.len()
            invariant
                i < members@.len(),
                j <= members@.len(),
                members_wf(members@),
                in_range(gap),
                c.state() == row_sweep(members@, gap as int, row, i, j as nat),
            decreases members.len() - j,
        {
            push_from_member(members, gap, c, i, j);
            j += 1;
        }
        i += 1;
    }
}

fn apply_bond(
    members: &[ResizeClassification],
    shifts: &mut HashMap<usize, (i32, i32)>,
    bond: (usize, usize),
    gap: i64,
)
    requires
        members_wf(members@),
        in_range(gap),
    ensures
        final(shifts)@ == after_bond(members@, old(shifts)@, bond, gap as int),
{
    let (m_idx, n_idx) = bond;
    if m_idx >= members.len() || n_idx >= members.len() {
        return;
    }
    let m_shift = current_shift(shifts, m_idx);
    let n_shift = current_shift(shifts, n_idx);
    let m = members[m_idx].initial_rect;
    let n = members[n_idx].initial_rect;
    assert(members@[m_idx as int].initial_rect.wf());
    assert(members@[n_idx as int].initial_rect.wf());
    let m_cur = translate_rect(&m, m_shift.0, m_shift.1);
    let n_cur = translate_rect(&n, n_shift.0, n_shift.1);
    let rows = y_overlap(&m_cur, &n_cur);
    let columns = x_overlap(&m_cur, &n_cur);
    let x: i32 = if n.x_low >= m.x_high && rows {
        ceil_to_pixels(m_cur.x_high + gap - n.x_low)
    } else if n.x_high <= m.x_low && rows {
        floor_to_pixels(m_cur.x_low - gap - n.x_high)
    } else {
        n_shift.0
    };
    let y: i32 = if n.y_low >= m.y_high && columns {
        ceil_to_pixels(m_cur.y_high + gap - n.y_low)
    } else if n.y_high <= m.y_low && columns {
        floor_to_pixels(m_cur.y_low - gap - n.y_high)
    } else {
        n_shift.1
    };
    if x != n_shift.0 || y != n_shift.1 {
        shifts.insert(n_idx, (x, y));
    }
}

/// How every member of a cluster moves for one motion of a resize.
///
/// Members first take over the motion of the edge that they follow. Each bond
/// then puts its second member flush with the first, in order, so that chains
/// carry on. Last, whatever has come closer than the gap is pushed out of the
/// way, by the resized window and by other members, round after round until
/// nothing moves, for at most twice as many rounds as there are members. A
/// member that another one pushed is bonded to it from now on.
///
/// Shifts stay at the end of the `i32` range where a sum would leave it.
pub fn resolve_cluster_shifts(
    members: &[ResizeClassification],
    width_delta: i32,
    height_delta: i32,
    gap: i64,
    existing_bonds: &[(usize, usize)],
    primary: Option<(SnapRect, SnapRect)>,
) -> (r: ShiftsAndBonds)
    requires
        members_wf(members@),
        in_range(gap),
        primary matches Some(p) ==> p.0.wf() && p.1.wf(),
        width_delta > i32::MIN,
        height_delta > i32::MIN,
    ensures
        r.0@ == resolved(
            members@,
            width_delta,
            height_delta,
            gap as int,
            existing_bonds@,
            primary,
        ).shifts,
        r.1@ == resolved(
            members@,
            width_delta,
            height_delta,
            gap as int,
            existing_bonds@,
            primary,
        ).bonds,
{
    let mut shifts: HashMap<usize, (i32, i32)> = HashMap::new();
    let mut i: usize = 0;
    assert(shifts@ =~= edge_shifts(members@, width_delta, height_delta, 0));
    while i < members.len()
        invariant
            i <= members@.len(),
            width_delta > i32::MIN,
            height_delta > i32::MIN,
            shifts@ =~= edge_shifts(members@, width_delta, height_delta, i as nat),
        decreases members.len() - i,
    {
        let m = members[i];
        let dx: i32 = match m.axis_x {
            Some(Side::Right) => width_delta,
            Some(Side::Left) => -width_delta,
            _ => 0,
        };
        let dy: i32 = match m.axis_y {
            Some(Side::Bottom) => height_delta,
            Some(Side::Top) => -height_delta,
            _ => 0,
        };
        if dx != 0 || dy != 0 {
            shifts.insert(i, (dx, dy));
        }
        i += 1;
    }
    let ghost edges = shifts@;
    let mut b: usize = 0;
    while b < existing_bonds.len()
        invariant
            b <= existing_bonds@.len(),
            members_wf(members@),
            in_range(gap),
            shifts@ == after_bonds(members@, edges, existing_bonds@, gap as int, b as nat),
        decreases existing_bonds.len() - b,
    {
        apply_bond(members, &mut shifts, existing_bonds[b], gap);
        b += 1;
    }
    let mut running = Running { shifts, bonds: Vec::new(), changed: false };
    let ghost first = running.state();
    let limit: u128 = members.len() as u128 * 2;
    let mut done: u128 = 0;
    while done < limit
        invariant_except_break
            done <= limit,
            settle(members@, primary, gap as int, first, limit as nat) == settle(
                members@,
                primary,
                gap as int,
                running.state(),
                (limit - done) as nat,
            ),
        invariant
            members_wf(members@),
            in_range(gap),
            primary matches Some(p) ==> p.0.wf() && p.1.wf(),
        ensures
            running.state() == settle(members@, primary, gap as int, first, limit as nat),
        decreases limit - done,
    {
        run_round(members, primary, gap, &mut running);
        done += 1;
        if !running.changed {
            break;
        }
    }
    (running.shifts, running.bonds)
}

/// Nobody has anything left to push, given the shifts.
pub open spec fn at_rest(
    members: Seq<ResizeClassification>,
    primary: Option<(SnapRect, SnapRect)>,
    gap: int,
    shifts: Map<usize, (i32, i32)>,
) -> bool {
    &&& primary matches Some(p) ==> forall|j: usize|
        j < members.len() ==> pushed(
            shift_of(shifts, j),
            #[trigger] push_of_primary(members, p, gap, shifts, j),
        ) == shift_of(shifts, j)
    &&& forall|i: usize, j: usize|
        i < members.len() && j < members.len() && i != j ==> pushed(
            shift_of(shifts, j),
            #[trigger] push_of_member(members, gap, shifts, i, j),
        ) == shift_of(shifts, j)
}

proof fn quiet_primary_sweep(
    members: Seq<ResizeClassification>,
    p: (SnapRect, SnapRect),
    gap: int,
    c: Cascade,
    n: nat,
)
    requires
        n <= members.len() <= usize::MAX,
        !primary_sweep(members, Some(p), gap, c, n).changed,
    ensures
        primary_sweep(members, Some(p), gap, c, n) == c,
        forall|j: usize|
            j < n ==> pushed(
                shift_of(c.shifts, j),
                #[trigger] push_of_primary(members, p, gap, c.shifts, j),
            ) == shift_of(c.shifts, j),
    decreases n,
{
    if n > 0 {
        quiet_primary_sweep(members, p, gap, c, (n - 1) as nat);
    }
}

proof fn quiet_row_sweep(
    members: Seq<ResizeClassification>,
    gap: int,
    c: Cascade,
    i: usize,
    n: nat,
)
    requires
        n <= members.len() <= usize::MAX,
        !row_sweep(members, gap, c, i, n).changed,
    ensures
        row_sweep(members, gap, c, i, n) == c,
        forall|j: usize|
            j < n && i != j ==> pushed(
                shift_of(c.shifts, j),
                #[trigger] push_of_member(members, gap, c.shifts, i, j),
            ) == shift_of(c.shifts, j),
    decreases n,
{
    if n > 0 {
        quiet_row_sweep(members, gap, c, i, (n - 1) as nat);
    }
}

proof fn quiet_member_sweep(members: Seq<ResizeClassification>, gap: int, c: Cascade, n: nat)
    requires
        n <= members.len() <= usize::MAX,
        !member_sweep(members, gap, c, n).changed,
    ensures
        member_sweep(members, gap, c, n) == c,
        forall|i: usize, j: usize|
            i < n && j < members.len() && i != j ==> pushed(
                shift_of(c.shifts, j),
                #[trigger] push_of_member(members, gap, c.shifts, i, j),
            ) == shift_of(c.shifts, j),
    decreases n,
{
    if n > 0 {
        let before = member_sweep(members, gap, c, (n - 1) as nat);
        quiet_row_sweep(members, gap, before, (n - 1) as usize, members.len());
        quiet_member_sweep(members, gap, c, (n - 1) as nat);
    }
}

proof fn quiet_round(
    members: Seq<ResizeClassification>,
    primary: Option<(SnapRect, SnapRect)>,
    gap: int,
    c: Cascade,
)
    requires
        members.len() <= usize::MAX,
        !round(members, primary, gap, c).changed,
    ensures
        round(members, primary, gap, c).shifts == c.shifts,
        at_rest(members, primary, gap, c.shifts),
{
    let fresh = Cascade { shifts: c.shifts, bonds: c.bonds, changed: false };
    let swept = primary_sweep(members, primary, gap, fresh, members.len());
    quiet_member_sweep(members, gap, swept, members.len());
    if let Some(p) = primary {
        quiet_primary_sweep(members, p, gap, fresh, members.len());
    }
}

/// A cascade that ends because a round changed nothing leaves nobody with
/// anything to push.
pub proof fn settled_cascade_is_at_rest(
    members: Seq<ResizeClassification>,
    primary: Option<(SnapRect, SnapRect)>,
    gap: int,
    c: Cascade,
    rounds: nat,
)
    requires
        members.len() <= usize::MAX,
        rounds > 0,
        !settle(members, primary, gap, c, rounds).changed,
    ensures
        at_rest(members, primary, gap, settle(members, primary, gap, c, rounds).shifts),
    decreases rounds,
{
    let next = round(members, primary, gap, c);
    if next.changed {
        if rounds > 1 {
            settled_cascade_is_at_rest(members, primary, gap, next, (rounds - 1) as nat);
        }
    } else {
        quiet_round(members, primary, gap, c);
    }
}

/// A shift that no push has driven to the end of the range.
pub open spec fn inside(shift: (i32, i32)) -> bool {
    i32::MIN < shift.0 < i32::MAX && i32::MIN < shift.1 < i32::MAX
}

/// At rest, a member that moved has every member that started ahead of it, and
/// that it overlaps, at least the gap away.
pub proof fn rest_keeps_the_gap(
    members: Seq<ResizeClassification>,
    primary: Option<(SnapRect, SnapRect)>,
    gap: int,
    shifts: Map<usize, (i32, i32)>,
    i: usize,
    j: usize,
)
    requires
        at_rest(members, primary, gap, shifts),
        i < members.len(),
        j < members.len(),
        i != j,
        inside(shift_of(shifts, j)),
    ensures
        ({
            let m = start(members, i as int);
            let n = start(members, j as int);
            let m_now = place(members, shifts, i);
            let n_now = place(members, shifts, j);
            let motion = shift_of(shifts, i);
            &&& motion.0 > 0 && n.x_low >= m.x_high && rows_overlap(m_now, n_now) ==> n_now.x_low
                >= m_now.x_high + gap
            &&& motion.0 < 0 && n.x_high <= m.x_low && rows_overlap(m_now, n_now) ==> n_now.x_high
                <= m_now.x_low - gap
            &&& motion.1 > 0 && n.y_low >= m.y_high && columns_overlap(m_now, n_now) ==> n_now.y_low
                >= m_now.y_high + gap
            &&& motion.1 < 0 && n.y_high <= m.y_low && columns_overlap(m_now, n_now) ==> n_now.y_high
                <= m_now.y_low - gap
        }),
{
    let by = push_of_member(members, gap, shifts, i, j);
    assert(pushed(shift_of(shifts, j), by) == shift_of(shifts, j));
}

/// At rest, no member that started beside the resized window, and that it
/// overlaps, is closer to it than the gap.
pub proof fn rest_keeps_the_gap_to_the_primary(
    members: Seq<ResizeClassification>,
    p: (SnapRect, SnapRect),
    gap: int,
    shifts: Map<usize, (i32, i32)>,
    j: usize,
)
    requires
        at_rest(members, Some(p), gap, shifts),
        j < members.len(),
        inside(shift_of(shifts, j)),
    ensures
        ({
            let before = area(p.0);
            let now = area(p.1);
            let n = start(members, j as int);
            let n_now = place(members, shifts, j);
            &&& n.x_high <= before.x_low && rows_overlap(now, n_now) ==> n_now.x_high <= now.x_low
                - gap
            &&& before.x_low < n.x_high && n.x_low >= before.x_high && rows_overlap(now, n_now)
                ==> n_now.x_low >= now.x_high + gap
            &&& n.y_high <= before.y_low && columns_overlap(now, n_now) ==> n_now.y_high
                <= now.y_low - gap
            &&& before.y_low < n.y_high && n.y_low >= before.y_high && columns_overlap(now, n_now)
                ==> n_now.y_low >= now.y_high + gap
        }),
{
    let by = push_of_primary(members, p, gap, shifts, j);
    assert(Some(p) matches Some(q) && q == p);
    assert(pushed(shift_of(shifts, j), by) == shift_of(shifts, j));
}

/// A bond puts its second member at the gap from the first, less than a pixel
/// beyond it, on the side on which it started, wherever the first has gone.
pub proof fn bond_pulls_flush(
    members: Seq<ResizeClassification>,
    shifts: Map<usize, (i32, i32)>,
    bond: (usize, usize),
    gap: int,
)
    requires
        bond.0 < members.len(),
        bond.1 < members.len(),
        bond.0 != bond.1,
        inside(bonded_shift(members, shifts, bond, gap)),
    ensures
        ({
            let m = start(members, bond.0 as int);
            let n = start(members, bond.1 as int);
            let m_now = place(members, shifts, bond.0);
            let n_now = place(members, shifts, bond.1);
            let after = after_bond(members, shifts, bond, gap);
            let n_then = place(members, after, bond.1);
            &&& place(members, after, bond.0) == m_now
            &&& n.x_low >= m.x_high && rows_overlap(m_now, n_now) ==> m_now.x_high + gap
                <= n_then.x_low < m_now.x_high + gap + UNITS_PER_PIXEL
            &&& n.x_low < m.x_high && n.x_high <= m.x_low && rows_overlap(m_now, n_now)
                ==> m_now.x_low - gap - UNITS_PER_PIXEL < n_then.x_high <= m_now.x_low - gap
            &&& n.y_low >= m.y_high && columns_overlap(m_now, n_now) ==> m_now.y_high + gap
                <= n_then.y_low < m_now.y_high + gap + UNITS_PER_PIXEL
            &&& n.y_low < m.y_high && n.y_high <= m.y_low && columns_overlap(m_now, n_now)
                ==> m_now.y_low - gap - UNITS_PER_PIXEL < n_then.y_high <= m_now.y_low - gap
        }),
{
    let after = after_bond(members, shifts, bond, gap);
    assert(shift_of(after, bond.1) == bonded_shift(members, shifts, bond, gap));
    assert(shift_of(after, bond.0) == shift_of(shifts, bond.0));
}

spec fn bonds_ok(bonds: Seq<(usize, usize)>, n: nat) -> bool {
    &&& bonds.no_duplicates()
    &&& forall|k: int|
        0 <= k < bonds.len() ==> (#[trigger] bonds[k]).0 < n && bonds[k].1 < n && bonds[k].0
            != bonds[k].1
}

spec fn cascade_ok(c: Cascade, n: nat) -> bool {
    &&& bonds_ok(c.bonds, n)
    &&& forall|i: usize| #[trigger] c.shifts.contains_key(i) ==> i < n
}

proof fn sweeps_keep_ok(
    members: Seq<ResizeClassification>,
    primary: Option<(SnapRect, SnapRect)>,
    gap: int,
    c: Cascade,
    i: usize,
    n: nat,
)
    requires
        n <= members.len() <= usize::MAX,
        cascade_ok(c, members.len()),
    ensures
        cascade_ok(primary_sweep(members, primary, gap, c, n), members.len()),
        i < members.len() ==> cascade_ok(row_sweep(members, gap, c, i, n), members.len()),
    decreases n,
{
    if n > 0 {
        sweeps_keep_ok(members, primary, gap, c, i, (n - 1) as nat);
    }
}

proof fn member_sweep_keeps_ok(members: Seq<ResizeClassification>, gap: int, c: Cascade, n: nat)
    requires
        n <= members.len() <= usize::MAX,
        cascade_ok(c, members.len()),
    ensures
        cascade_ok(member_sweep(members, gap, c, n), members.len()),
    decreases n,
{
    if n > 0 {
        member_sweep_keeps_ok(members, gap, c, (n - 1) as nat);
        sweeps_keep_ok(
            members,
            None,
            gap,
            member_sweep(members, gap, c, (n - 1) as nat),
            (n - 1) as usize,
            members.len(),
        );
    }
}

proof fn settle_keeps_ok(
    members: Seq<ResizeClassification>,
    primary: Option<(SnapRect, SnapRect)>,
    gap: int,
    c: Cascade,
    rounds: nat,
)
    requires
        members.len() <= usize::MAX,
        cascade_ok(c, members.len()),
    ensures
        cascade_ok(settle(members, primary, gap, c, rounds), members.len()),
    decreases rounds,
{
    if rounds > 0 {
        let fresh = Cascade { shifts: c.shifts, bonds: c.bonds, changed: false };
        sweeps_keep_ok(members, primary, gap, fresh, 0, members.len());
        member_sweep_keeps_ok(
            members,
            gap,
            primary_sweep(members, primary, gap, fresh, members.len()),
            members.len(),
        );
        settle_keeps_ok(members, primary, gap, round(members, primary, gap, c), (rounds - 1) as nat);
    }
}

proof fn bonds_keep_keys(
    members: Seq<ResizeClassification>,
    shifts: Map<usize, (i32, i32)>,
    bonds: Seq<(usize, usize)>,
    gap: int,
    n: nat,
)
    requires
        forall|i: usize| #[trigger] shifts.contains_key(i) ==> i < members.len(),
    ensures
        forall|i: usize| #[trigger]
            after_bonds(members, shifts, bonds, gap, n).contains_key(i) ==> i < members.len(),
    decreases n,
{
    if n > 0 {
        bonds_keep_keys(members, shifts, bonds, gap, (n - 1) as nat);
        let before = after_bonds(members, shifts, bonds, gap, (n - 1) as nat);
        let after = after_bonds(members, shifts, bonds, gap, n);
        assert forall|i: usize| #[trigger] after.contains_key(i) implies i < members.len() by {
            if i != bonds[n - 1].1 {
                assert(before.contains_key(i));
            }
        }
    }
}

/// Only members are shifted, and every bond that forms is recorded once and
/// joins two different members.
pub proof fn resolved_speaks_of_members(
    members: Seq<ResizeClassification>,
    width_delta: i32,
    height_delta: i32,
    gap: int,
    bonds: Seq<(usize, usize)>,
    primary: Option<(SnapRect, SnapRect)>,
)
    requires
        members.len() <= usize::MAX,
    ensures
        ({
            let r = resolved(members, width_delta, height_delta, gap, bonds, primary);
            &&& forall|i: usize| #[trigger] r.shifts.contains_key(i) ==> i < members.len()
            &&& r.bonds.no_duplicates()
            &&& forall|k: int|
                0 <= k < r.bonds.len() ==> (#[trigger] r.bonds[k]).0 < members.len()
                    && r.bonds[k].1 < members.len() && r.bonds[k].0 != r.bonds[k].1
        }),
{
    bonds_keep_keys(
        members,
        edge_shifts(members, width_delta, height_delta, members.len()),
        bonds,
        gap,
        bonds.len(),
    );
    let first = Cascade {
        shifts: led_shifts(members, width_delta, height_delta, gap, bonds),
        bonds: seq![],
        changed: false,
    };
    settle_keeps_ok(members, primary, gap, first, (2 * members.len()) as nat);
}

proof fn still_sweeps(members: Seq<ResizeClassification>, gap: int, c: Cascade, i: usize, n: nat)
    requires
        c.shifts == Map::<usize, (i32, i32)>::empty(),
    ensures
        row_sweep(members, gap, c, i, n) == c,
        member_sweep(members, gap, c, n) == c,
    decreases n,
{
    if n > 0 {
        still_sweeps(members, gap, c, i, (n - 1) as nat);
        still_rows(members, gap, c, (n - 1) as usize, members.len());
    }
}

proof fn still_rows(members: Seq<ResizeClassification>, gap: int, c: Cascade, i: usize, n: nat)
    requires
        c.shifts == Map::<usize, (i32, i32)>::empty(),
    ensures
        row_sweep(members, gap, c, i, n) == c,
    decreases n,
{
    if n > 0 {
        still_rows(members, gap, c, i, (n - 1) as nat);
    }
}

/// While the resized window keeps its size, with no bonds and nothing of the
/// window itself to keep clear of, nothing moves.
pub proof fn no_change_no_shift(members: Seq<ResizeClassification>, gap: int)
    ensures
        resolved(members, 0, 0, gap, seq![], None).shifts == Map::<usize, (i32, i32)>::empty(),
        resolved(members, 0, 0, gap, seq![], None).bonds == Seq::<(usize, usize)>::empty(),
{
    let shifts = led_shifts(members, 0, 0, gap, seq![]);
    assert(shifts =~= Map::empty());
    let first = Cascade { shifts, bonds: seq![], changed: false };
    still_sweeps(members, gap, first, 0, members.len());
    assert(round(members, None, gap, first) == first);
}

/// The rectangle of window `w`: the last one listed for it.
pub open spec fn rect_of(windows: Seq<(u64, SnapRect)>, w: u64) -> Option<SnapRect>
    decreases windows.len(),
{
    if windows.len() == 0 {
        None
    } else if windows.last().0 == w {
        Some(windows.last().1)
    } else {
        rect_of(windows.drop_last(), w)
    }
}

/// Whether `a` is edge-adjacent to a rectangle listed for `b`.
pub open spec fn linked(windows: Seq<(u64, SnapRect)>, gap: int, a: u64, b: u64) -> bool {
    rect_of(windows, a) matches Some(r) && exists|k: int| #![trigger windows[k]]
        0 <= k < windows.len() && windows[k].0 == b && adjacency(area(r), area(windows[k].1), gap)
            is Some
}

/// Whether `w` is reached from `root` over at most `steps` links.
pub open spec fn within(windows: Seq<(u64, SnapRect)>, gap: int, root: u64, w: u64, steps: nat) -> bool
    decreases steps,
{
    if steps == 0 {
        w == root
    } else {
        within(windows, gap, root, w, (steps - 1) as nat) || exists|v: u64|
            within(windows, gap, root, v, (steps - 1) as nat) && #[trigger] linked(
                windows,
                gap,
                v,
                w,
            )
    }
}

/// Whether `w` belongs to the cluster of `root`.
pub open spec fn connected(windows: Seq<(u64, SnapRect)>, gap: int, root: u64, w: u64) -> bool {
    exists|steps: nat| within(windows, gap, root, w, steps)
}

pub open spec fn windows_wf(windows: Seq<(u64, SnapRect)>) -> bool {
    forall|i: int| 0 <= i < windows.len() ==> (#[trigger] windows[i]).1.wf()
}

proof fn link_extends(windows: Seq<(u64, SnapRect)>, gap: int, root: u64, v: u64, w: u64)
    requires
        connected(windows, gap, root, v),
        linked(windows, gap, v, w),
    ensures
        connected(windows, gap, root, w),
{
    let steps = choose|steps: nat| within(windows, gap, root, v, steps);
    assert(within(windows, gap, root, w, steps + 1));
}

proof fn closed_set_holds_cluster(
    windows: Seq<(u64, SnapRect)>,
    gap: int,
    root: u64,
    set: Set<u64>,
    w: u64,
    steps: nat,
)
    requires
        set.contains(root),
        forall|a: u64, b: u64| set.contains(a) && #[trigger] linked(windows, gap, a, b) ==> set.contains(b),
        within(windows, gap, root, w, steps),
    ensures
        set.contains(w),
    decreases steps,
{
    if steps > 0 {
        let less = (steps - 1) as nat;
        if within(windows, gap, root, w, less) {
            closed_set_holds_cluster(windows, gap, root, set, w, less);
        } else {
            let v = choose|v: u64|
                within(windows, gap, root, v, less) && #[trigger] linked(windows, gap, v, w);
            closed_set_holds_cluster(windows, gap, root, set, v, less);
        }
    }
}

/// How many of the first `n` entries name a window outside `set`.
spec fn missing(windows: Seq<(u64, SnapRect)>, set: Set<u64>, n: nat) -> nat
    decreases n,
{
    if n == 0 {
        0
    } else {
        missing(windows, set, (n - 1) as nat) + if set.contains(windows[n - 1].0) {
            0nat
        } else {
            1nat
        }
    }
}

proof fn missing_shrinks(windows: Seq<(u64, SnapRect)>, set: Set<u64>, k: int, n: nat)
    requires
        0 <= k < windows.len(),
        !set.contains(windows[k].0),
    ensures
        missing(windows, set.insert(windows[k].0), n) <= missing(windows, set, n),
        k < n ==> missing(windows, set.insert(windows[k].0), n) < missing(windows, set, n),
    decreases n,
{
    if n > 0 {
        missing_shrinks(windows, set, k, (n - 1) as nat);
    }
}

proof fn rect_of_push(windows: Seq<(u64, SnapRect)>, n: int, w: u64)
    requires
        0 <= n < windows.len(),
    ensures
        rect_of(windows.take(n + 1), w) == if windows[n].0 == w {
            Some(windows[n].1)
        } else {
            rect_of(windows.take(n), w)
        },
{
    assert(windows.take(n + 1).drop_last() =~= windows.take(n));
}

proof fn rect_of_wf(windows: Seq<(u64, SnapRect)>, w: u64)
    requires
        windows_wf(windows),
    ensures
        rect_of(windows, w) matches Some(r) ==> r.wf(),
    decreases windows.len(),
{
    if windows.len() > 0 {
        assert(windows[windows.len() - 1].1.wf());
        assert forall|i: int| 0 <= i < windows.len() - 1 implies (#[trigger] windows.drop_last()[i]).1.wf() by {
            assert(windows[i].1.wf());
        }
        rect_of_wf(windows.drop_last(), w);
    }
}

fn rect_index(windows: &[(u64, SnapRect)]) -> (r: HashMap<u64, SnapRect>)
    ensures
        forall|w: u64| #[trigger] r@.contains_key(w) <==> rect_of(windows@, w) is Some,
        forall|w: u64| r@.contains_key(w) ==> rect_of(windows@, w) == Some(#[trigger] r@[w]),
{
    let mut rects: HashMap<u64, SnapRect> = HashMap::new();
    let mut i: usize = 0;
    while i < windows.len()
        invariant
            i <= windows@.len(),
            forall|w: u64| #[trigger]
                rects@.contains_key(w) <==> rect_of(windows@.take(i as int), w) is Some,
            forall|w: u64|
                rects@.contains_key(w) ==> rect_of(windows@.take(i as int), w) == Some(
                    #[trigger] rects@[w],
                ),
        decreases windows.len() - i,
    {
        let entry = windows[i];
        let ghost before = rects@;
        rects.insert(entry.0, entry.1);
        proof {
            assert forall|w: u64| #![trigger rects@.contains_key(w)]
                (rects@.contains_key(w) <==> rect_of(windows@.take(i + 1), w) is Some) by {
                rect_of_push(windows@, i as int, w);
                assert(before.contains_key(w) <==> rect_of(windows@.take(i as int), w) is Some);
            }
            assert forall|w: u64| rects@.contains_key(w) implies rect_of(windows@.take(i + 1), w)
                == Some(#[trigger] rects@[w]) by {
                rect_of_push(windows@, i as int, w);
                if w != entry.0 {
                    assert(before.contains_key(w));
                    assert(before[w] == rects@[w]);
                }
            }
        }
        i += 1;
    }
    assert(windows@.take(windows@.len() as int) =~= windows@);
    rects
}

/// The cluster of `root`: every window that is reached from it from neighbour
/// to neighbour. It always holds `root`, listed or not.
pub fn cluster_of(root: u64, windows: &[(u64, SnapRect)], gap: i64) -> (r: HashSet<u64>)
    requires
        windows_wf(windows@),
        in_range(gap),
    ensures
        forall|w: u64| #[trigger] r@.contains(w) <==> connected(windows@, gap as int, root, w),
        r@.contains(root),
{
    let rects = rect_index(windows);
    let ghost g = gap as int;
    let ghost ws = windows@;
    let mut visited: HashSet<u64> = HashSet::new();
    let mut queue: VecDeque<u64> = VecDeque::new();
    visited.insert(root);
    queue.push_back(root);
    proof {
        assert(within(ws, g, root, root, 0));
        assert(queue@[0] == root);
    }
    while queue.len() > 0
        invariant
            ws == windows@,
            g == gap,
            windows_wf(ws),
            in_range(gap),
            forall|w: u64| #[trigger] rects@.contains_key(w) <==> rect_of(ws, w) is Some,
            forall|w: u64| rects@.contains_key(w) ==> rect_of(ws, w) == Some(#[trigger] rects@[w]),
            visited@.contains(root),
            forall|w: u64| #[trigger] visited@.contains(w) ==> connected(ws, g, root, w),
            forall|k: int| 0 <= k < queue@.len() ==> visited@.contains(#[trigger] queue@[k]),
            forall|a: u64, b: u64|
                visited@.contains(a) && !queue@.contains(a) && #[trigger] linked(ws, g, a, b)
                    ==> visited@.contains(b),
        decreases missing(ws, visited@, ws.len()), queue@.len(),
    {
        let ghost before = queue@;
        let ghost seen = visited@;
        let w: u64 = queue.pop_front().unwrap();
        assert(before[0] == w);
        assert(visited@.contains(w));
        let ghost rest = queue@;
        assert forall|a: u64| before.contains(a) && a != w implies rest.contains(a) by {
            let k = choose|k: int| 0 <= k < before.len() && before[k] == a;
            assert(rest[k - 1] == a);
        }
        if let Some(w_rect) = rects.get(&w) {
            let rect: SnapRect = *w_rect;
            proof {
                rect_of_wf(ws, w);
            }
            let mut i: usize = 0;
            while i < windows.len()
                invariant
                    i <= ws.len(),
                    ws == windows@,
                    g == gap,
                    windows_wf(ws),
                    in_range(gap),
                    rect.wf(),
                    rect_of(ws, w) == Some(rect),
                    connected(ws, g, root, w),
                    forall|v: u64| #[trigger] visited@.contains(v) ==> connected(ws, g, root, v),
                    forall|v: u64| #[trigger] seen.contains(v) ==> visited@.contains(v),
                    forall|v: u64| #[trigger]
                        visited@.contains(v) && !seen.contains(v) ==> queue@.contains(v),
                    forall|v: u64| #[trigger] rest.contains(v) ==> queue@.contains(v),
                    forall|k: int| 0 <= k < queue@.len() ==> visited@.contains(#[trigger] queue@[k]),
                    forall|k: int|
                        0 <= k < i && adjacency(area(rect), area((#[trigger] ws[k]).1), g) is Some
                            ==> visited@.contains(ws[k].0),
                    missing(ws, visited@, ws.len()) < missing(ws, seen, ws.len()) || (visited@
                        == seen && queue@ == rest),
                decreases ws.len() - i,
            {
                let entry = windows[i];
                assert(ws[i as int].1.wf());
                if !visited.contains(&entry.0) {
                    if adjacent_side(&rect, &entry.1, gap).is_some() {
                        proof {
                            missing_shrinks(ws, visited@, i as int, ws.len());
                            assert(linked(ws, g, w, entry.0));
                            link_extends(ws, g, root, w, entry.0);
                        }
                        let ghost queued = queue@;
                        visited.insert(entry.0);
                        queue.push_back(entry.0);
                        proof {
                            assert(queue@[queue@.len() - 1] == entry.0);
                            assert forall|v: u64| queued.contains(v) implies queue@.contains(v) by {
                                let k = choose|k: int| 0 <= k < queued.len() && queued[k] == v;
                                assert(queue@[k] == v);
                            }
                        }
                    }
                }
                i += 1;
            }
            assert forall|b: u64| #[trigger] linked(ws, g, w, b) implies visited@.contains(b) by {
                let k = choose|k: int| #![trigger ws[k]]
                    0 <= k < ws.len() && ws[k].0 == b && adjacency(area(rect), area(ws[k].1), g)
                        is Some;
                assert(visited@.contains(ws[k].0));
            }
        }
        assert forall|a: u64, b: u64|
            visited@.contains(a) && !queue@.contains(a) && #[trigger] linked(ws, g, a, b) implies visited@.contains(
        b) by {
            if a != w {
                assert(seen.contains(a));
                assert(!before.contains(a));
            }
        }
    }
    proof {
        assert forall|w: u64| connected(ws, g, root, w) implies #[trigger] visited@.contains(w) by {
            let steps = choose|steps: nat| within(ws, g, root, w, steps);
            closed_set_holds_cluster(ws, g, root, visited@, w, steps);
        }
    }
    visited
}

/// No window is listed twice.
pub open spec fn listed_once(windows: Seq<(u64, SnapRect)>) -> bool {
    forall|i: int, j: int|
        0 <= i < windows.len() && 0 <= j < windows.len() && (#[trigger] windows[i]).0 == (
        #[trigger] windows[j]).0 ==> i == j
}

proof fn listed_rect(windows: Seq<(u64, SnapRect)>, w: u64) -> (k: int)
    requires
        rect_of(windows, w) is Some,
    ensures
        0 <= k < windows.len(),
        windows[k] == (w, rect_of(windows, w)->0),
    decreases windows.len(),
{
    if windows.last().0 == w {
        windows.len() - 1
    } else {
        listed_rect(windows.drop_last(), w)
    }
}

proof fn rect_of_listed(windows: Seq<(u64, SnapRect)>, k: int)
    requires
        0 <= k < windows.len(),
        listed_once(windows),
    ensures
        rect_of(windows, windows[k].0) == Some(windows[k].1),
    decreases windows.len(),
{
    let last = windows.len() - 1;
    if k < last {
        let front = windows.drop_last();
        assert(front[k] == windows[k]);
        assert forall|i: int, j: int|
            0 <= i < front.len() && 0 <= j < front.len() && (#[trigger] front[i]).0 == (
            #[trigger] front[j]).0 implies i == j by {
            assert(front[i] == windows[i] && front[j] == windows[j]);
        }
        rect_of_listed(front, k);
        assert(windows[last].0 != windows[k].0);
    }
}

proof fn link_goes_back(windows: Seq<(u64, SnapRect)>, gap: int, a: u64, b: u64)
    requires
        listed_once(windows),
        linked(windows, gap, a, b),
    ensures
        linked(windows, gap, b, a),
{
    let r = rect_of(windows, a)->0;
    let i = listed_rect(windows, a);
    let k = choose|k: int| #![trigger windows[k]]
        0 <= k < windows.len() && windows[k].0 == b && adjacency(area(r), area(windows[k].1), gap)
            is Some;
    rect_of_listed(windows, k);
    adjacency_is_mutual(area(r), area(windows[k].1), gap);
    assert(windows[i].0 == a);
}

/// Clusters chain: what is connected to something connected is connected.
pub proof fn connection_carries_on(windows: Seq<(u64, SnapRect)>, gap: int, a: u64, b: u64, c: u64)
    requires
        connected(windows, gap, a, b),
        connected(windows, gap, b, c),
    ensures
        connected(windows, gap, a, c),
{
    let steps = choose|steps: nat| within(windows, gap, b, c, steps);
    carry_on(windows, gap, a, b, c, steps);
}

proof fn carry_on(windows: Seq<(u64, SnapRect)>, gap: int, a: u64, b: u64, c: u64, steps: nat)
    requires
        connected(windows, gap, a, b),
        within(windows, gap, b, c, steps),
    ensures
        connected(windows, gap, a, c),
    decreases steps,
{
    if steps > 0 {
        let less = (steps - 1) as nat;
        if within(windows, gap, b, c, less) {
            carry_on(windows, gap, a, b, c, less);
        } else {
            let v = choose|v: u64|
                within(windows, gap, b, v, less) && #[trigger] linked(windows, gap, v, c);
            carry_on(windows, gap, a, b, v, less);
            link_extends(windows, gap, a, v, c);
        }
    }
}

/// Every window of a cluster has the same cluster: if `b` belongs to the
/// cluster of `a`, then `a` belongs to the cluster of `b`.
pub proof fn connection_is_mutual(windows: Seq<(u64, SnapRect)>, gap: int, a: u64, b: u64)
    requires
        listed_once(windows),
        connected(windows, gap, a, b),
    ensures
        connected(windows, gap, b, a),
{
    let steps = choose|steps: nat| within(windows, gap, a, b, steps);
    goes_back(windows, gap, a, b, steps);
}

proof fn goes_back(windows: Seq<(u64, SnapRect)>, gap: int, a: u64, b: u64, steps: nat)
    requires
        listed_once(windows),
        within(windows, gap, a, b, steps),
    ensures
        connected(windows, gap, b, a),
    decreases steps,
{
    if steps == 0 {
        assert(within(windows, gap, b, a, 0));
    } else {
        let less = (steps - 1) as nat;
        if within(windows, gap, a, b, less) {
            goes_back(windows, gap, a, b, less);
        } else {
            let v = choose|v: u64|
                within(windows, gap, a, v, less) && #[trigger] linked(windows, gap, v, b);
            goes_back(windows, gap, a, v, less);
            link_goes_back(windows, gap, v, b);
            assert(within(windows, gap, b, b, 0));
            link_extends(windows, gap, b, b, v);
            connection_carries_on(windows, gap, b, v, a);
        }
    }
}

} // verus!
