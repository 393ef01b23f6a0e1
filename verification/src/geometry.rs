//! Whole-pixel geometry.

use crate::config::types::Transform;
use crate::units::saturating_sum;
use vstd::prelude::*;

verus! {

use crate::units::clamp_i32;

/// A position in pixels.
#[derive(Clone, Copy, Debug, PartialEq, Eq, Structural)]
pub struct Point {
    pub x: i32,
    pub y: i32,
}

/// A size in pixels.
#[derive(Clone, Copy, Debug, PartialEq, Eq, Structural)]
pub struct Size {
    pub w: i32,
    pub h: i32,
}

/// A rectangle in pixels.
#[derive(Clone, Copy, Debug, PartialEq, Eq, Structural)]
pub struct Rect {
    pub loc: Point,
    pub size: Size,
}

impl Rect {
    /// The column past the right edge, held inside the range.
    pub open spec fn right(self) -> int {
        clamp_i32(self.loc.x + self.size.w)
    }

    /// The row past the bottom edge, held inside the range.
    pub open spec fn bottom(self) -> int {
        clamp_i32(self.loc.y + self.size.h)
    }

    /// Whether a position lies inside.
    pub open spec fn holds(self, x: int, y: int) -> bool {
        self.loc.x <= x < self.right() && self.loc.y <= y < self.bottom()
    }

    /// Whether two rectangles share more than an edge.
    pub open spec fn meets(self, other: Rect) -> bool {
        &&& self.loc.x < other.right()
        &&& other.loc.x < self.right()
        &&& self.loc.y < other.bottom()
        &&& other.loc.y < self.bottom()
    }

    /// What two rectangles share.
    pub open spec fn shared(self, other: Rect) -> Rect {
        let left = if self.loc.x >= other.loc.x {
            self.loc.x as int
        } else {
            other.loc.x as int
        };
        let top = if self.loc.y >= other.loc.y {
            self.loc.y as int
        } else {
            other.loc.y as int
        };
        let right = if self.right() <= other.right() {
            self.right()
        } else {
            other.right()
        };
        let bottom = if self.bottom() <= other.bottom() {
            self.bottom()
        } else {
            other.bottom()
        };
        Rect {
            loc: Point { x: left as i32, y: top as i32 },
            size: Size { w: (right - left) as i32, h: (bottom - top) as i32 },
        }
    }

    /// Whether two rectangles overlap. Touching is not enough.
    pub fn overlaps(&self, other: &Rect) -> (r: bool)
        ensures
            r == self.meets(*other),
    {
        self.loc.x < saturating_sum(other.loc.x, other.size.w) && other.loc.x < saturating_sum(
            self.loc.x,
            self.size.w,
        ) && self.loc.y < saturating_sum(other.loc.y, other.size.h) && other.loc.y
            < saturating_sum(self.loc.y, self.size.h)
    }

    /// The overlap of two rectangles, if they overlap.
    pub fn intersection(&self, other: &Rect) -> (r: Option<Rect>)
        ensures
            r == if self.meets(*other) {
                Some(self.shared(*other))
            } else {
                None::<Rect>
            },
    {
        if !self.overlaps(other) {
            return None;
        }
        let left: i32 = if self.loc.x >= other.loc.x {
            self.loc.x
        } else {
            other.loc.x
        };
        let top: i32 = if self.loc.y >= other.loc.y {
            self.loc.y
        } else {
            other.loc.y
        };
        let self_right: i32 = saturating_sum(self.loc.x, self.size.w);
        let other_right: i32 = saturating_sum(other.loc.x, other.size.w);
        let right: i32 = if self_right <= other_right {
            self_right
        } else {
            other_right
        };
        let self_bottom: i32 = saturating_sum(self.loc.y, self.size.h);
        let other_bottom: i32 = saturating_sum(other.loc.y, other.size.h);
        let bottom: i32 = if self_bottom <= other_bottom {
            self_bottom
        } else {
            other_bottom
        };
        Some(
            Rect { loc: Point { x: left, y: top }, size: Size { w: right - left, h: bottom - top } },
        )
    }
}

/// The overlap of two rectangles holds exactly the positions that both hold.
pub proof fn intersection_is_both(a: Rect, b: Rect, x: int, y: int)
    requires
        a.meets(b),
    ensures
        a.shared(b).holds(x, y) <==> a.holds(x, y) && b.holds(x, y),
{
}

impl Transform {
    /// Whether width and height change places.
    pub open spec fn is_sideways(self) -> bool {
        self is Rotated90 || self is Rotated270 || self is Flipped90 || self is Flipped270
    }

    /// The size of something once it is turned.
    pub open spec fn turned(self, size: Size) -> Size {
        if self.is_sideways() {
            Size { w: size.h, h: size.w }
        } else {
            size
        }
    }

    /// The same transform with its quarter turn the other way round.
    pub open spec fn undoing(self) -> Transform {
        match self {
            Transform::Rotated90 => Transform::Rotated270,
            Transform::Rotated270 => Transform::Rotated90,
            Transform::Flipped90 => Transform::Flipped270,
            Transform::Flipped270 => Transform::Flipped90,
            other => other,
        }
    }

    /// The place of a rectangle once the area around it is turned.
    pub open spec fn placed(self, rect: Rect, area: Size) -> (int, int) {
        let right_gap = area.w - rect.loc.x - rect.size.w;
        let bottom_gap = area.h - rect.loc.y - rect.size.h;
        let left_gap = rect.loc.x as int;
        let top_gap = rect.loc.y as int;
        match self {
            Transform::Normal => (left_gap, top_gap),
            Transform::Rotated90 => (bottom_gap, left_gap),
            Transform::Rotated180 => (right_gap, bottom_gap),
            Transform::Rotated270 => (top_gap, right_gap),
            Transform::Flipped => (right_gap, top_gap),
            Transform::Flipped90 => (bottom_gap, right_gap),
            Transform::Flipped180 => (left_gap, bottom_gap),
            Transform::Flipped270 => (top_gap, left_gap),
        }
    }

    /// The same transform with its quarter turn the other way round.
    pub fn invert(&self) -> (r: Transform)
        ensures
            r == self.undoing(),
    {
        match self {
            Transform::Normal => Transform::Normal,
            Transform::Rotated90 => Transform::Rotated270,
            Transform::Rotated180 => Transform::Rotated180,
            Transform::Rotated270 => Transform::Rotated90,
            Transform::Flipped => Transform::Flipped,
            Transform::Flipped90 => Transform::Flipped270,
            Transform::Flipped180 => Transform::Flipped180,
            Transform::Flipped270 => Transform::Flipped90,
        }
    }

    /// The size of something once it is turned.
    pub fn transform_size(&self, size: Size) -> (r: Size)
        ensures
            r == self.turned(size),
    {
        match self {
            Transform::Rotated90
            | Transform::Rotated270
            | Transform::Flipped90
            | Transform::Flipped270 => Size { w: size.h, h: size.w },
            _ => size,
        }
    }

    /// A rectangle once the area around it is turned.
    pub fn transform_rect_in(&self, rect: Rect, area: &Size) -> (r: Rect)
        requires
            0 <= rect.loc.x,
            0 <= rect.loc.y,
            0 <= rect.size.w,
            0 <= rect.size.h,
            rect.loc.x + rect.size.w <= area.w,
            rect.loc.y + rect.size.h <= area.h,
        ensures
            (r.loc.x as int, r.loc.y as int) == self.placed(rect, *area),
            r.size == self.turned(rect.size),
    {
        let right_gap: i32 = area.w - rect.loc.x - rect.size.w;
        let bottom_gap: i32 = area.h - rect.loc.y - rect.size.h;
        let (x, y): (i32, i32) = match self {
            Transform::Normal => (rect.loc.x, rect.loc.y),
            Transform::Rotated90 => (bottom_gap, rect.loc.x),
            Transform::Rotated180 => (right_gap, bottom_gap),
            Transform::Rotated270 => (rect.loc.y, right_gap),
            Transform::Flipped => (right_gap, rect.loc.y),
            Transform::Flipped90 => (bottom_gap, right_gap),
            Transform::Flipped180 => (rect.loc.x, bottom_gap),
            Transform::Flipped270 => (rect.loc.y, rect.loc.x),
        };
        Rect { loc: Point { x, y }, size: self.transform_size(rect.size) }
    }
}

/// Turning the quarter turn round twice is the transform itself, and turning a
/// size and turning it back changes nothing.
pub proof fn inverting_twice(t: Transform, size: Size)
    ensures
        t.undoing().undoing() == t,
        t.undoing().turned(t.turned(size)) == size,
        t.undoing().is_sideways() == t.is_sideways(),
{
}

/// A rectangle that is turned and turned back is where it was. (A mirrored
/// quarter turn is its own opposite, so it is left out.)
pub proof fn inverting_puts_back(t: Transform, rect: Rect, turned: Rect, area: Size)
    requires
        t !is Flipped90,
        t !is Flipped270,
        (turned.loc.x as int, turned.loc.y as int) == t.placed(rect, area),
        turned.size == t.turned(rect.size),
    ensures
        t.undoing().placed(turned, t.turned(area)) == (rect.loc.x as int, rect.loc.y as int),
{
}

/// An edge or a corner of a window that a resize drags.
#[derive(Clone, Copy, Debug, PartialEq, Eq, Structural)]
pub enum ResizeEdge {
    Empty,
    Top,
    Bottom,
    Left,
    TopLeft,
    BottomLeft,
    Right,
    TopRight,
    BottomRight,
}

impl ResizeEdge {
    pub open spec fn is_top(self) -> bool {
        self is Top || self is TopLeft || self is TopRight
    }

    pub open spec fn is_bottom(self) -> bool {
        self is Bottom || self is BottomLeft || self is BottomRight
    }

    pub open spec fn is_left(self) -> bool {
        self is Left || self is TopLeft || self is BottomLeft
    }

    pub open spec fn is_right(self) -> bool {
        self is Right || self is TopRight || self is BottomRight
    }

    /// The edges as bits: top 1, bottom 2, left 4, right 8.
    pub open spec fn bits(self) -> u32 {
        match self {
            ResizeEdge::Empty => 0,
            ResizeEdge::Top => 1,
            ResizeEdge::Bottom => 2,
            ResizeEdge::Left => 4,
            ResizeEdge::TopLeft => 5,
            ResizeEdge::BottomLeft => 6,
            ResizeEdge::Right => 8,
            ResizeEdge::TopRight => 9,
            ResizeEdge::BottomRight => 10,
        }
    }

    /// The edges as bits: top 1, bottom 2, left 4, right 8.
    pub fn mask(self) -> (r: u32)
        ensures
            r == self.bits(),
    {
        match self {
            ResizeEdge::Empty => 0,
            ResizeEdge::Top => 1,
            ResizeEdge::Bottom => 2,
            ResizeEdge::Left => 4,
            ResizeEdge::TopLeft => 5,
            ResizeEdge::BottomLeft => 6,
            ResizeEdge::Right => 8,
            ResizeEdge::TopRight => 9,
            ResizeEdge::BottomRight => 10,
        }
    }
}

/// The corner or edge that four tests name, corners first. Left counts before
/// right, and top before bottom.
pub open spec fn edge_of(left: bool, right: bool, top: bool, bottom: bool) -> Option<ResizeEdge> {
    if left && top {
        Some(ResizeEdge::TopLeft)
    } else if right && top {
        Some(ResizeEdge::TopRight)
    } else if left && bottom {
        Some(ResizeEdge::BottomLeft)
    } else if right && bottom {
        Some(ResizeEdge::BottomRight)
    } else if left {
        Some(ResizeEdge::Left)
    } else if right {
        Some(ResizeEdge::Right)
    } else if top {
        Some(ResizeEdge::Top)
    } else if bottom {
        Some(ResizeEdge::Bottom)
    } else {
        None
    }
}

/// The corner or edge that four tests name.
pub fn pick_edge(left: bool, right: bool, top: bool, bottom: bool) -> (r: Option<ResizeEdge>)
    ensures
        r == edge_of(left, right, top, bottom),
{
    if left && top {
        Some(ResizeEdge::TopLeft)
    } else if right && top {
        Some(ResizeEdge::TopRight)
    } else if left && bottom {
        Some(ResizeEdge::BottomLeft)
    } else if right && bottom {
        Some(ResizeEdge::BottomRight)
    } else if left {
        Some(ResizeEdge::Left)
    } else if right {
        Some(ResizeEdge::Right)
    } else if top {
        Some(ResizeEdge::Top)
    } else if bottom {
        Some(ResizeEdge::Bottom)
    } else {
        None
    }
}

} // verus!
