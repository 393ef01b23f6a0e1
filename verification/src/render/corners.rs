//! Rounded corners: what of a surface is not opaque.

use crate::geometry::{Point, Rect, Size};
use vstd::prelude::*;

verus! {

/// The corners of a surface that are cut, each a square: the top ones only
/// where `clip_top` says so.
pub open spec fn corners(size: Size, r: i32, clip_top: bool) -> Seq<Rect> {
    let square = Size { w: r, h: r };
    let right = (size.w - r) as i32;
    let bottom = (size.h - r) as i32;
    (if clip_top {
        seq![
            Rect { loc: Point { x: 0, y: 0 }, size: square },
            Rect { loc: Point { x: right, y: 0 }, size: square },
        ]
    } else {
        seq![]
    }) + seq![
        Rect { loc: Point { x: 0, y: bottom }, size: square },
        Rect { loc: Point { x: right, y: bottom }, size: square },
    ]
}

/// The corners to take out of the opaque part of a surface. `r` is the side of
/// a cut corner in pixels of the display. A surface that is too small for its
/// corners keeps them.
pub fn cut_corners(size: Size, r: i32, clip_top: bool) -> (list: Vec<Rect>)
    requires
        r >= 0,
        2 * r <= i32::MAX,
    ensures
        list@ == if size.w <= 2 * r || size.h <= 2 * r {
            Seq::<Rect>::empty()
        } else {
            corners(size, r, clip_top)
        },
{
    let mut list: Vec<Rect> = Vec::new();
    if size.w <= 2 * r || size.h <= 2 * r {
        return list;
    }
    let square = Size { w: r, h: r };
    if clip_top {
        list.push(Rect { loc: Point { x: 0, y: 0 }, size: square });
        list.push(Rect { loc: Point { x: size.w - r, y: 0 }, size: square });
    }
    list.push(Rect { loc: Point { x: 0, y: size.h - r }, size: square });
    list.push(Rect { loc: Point { x: size.w - r, y: size.h - r }, size: square });
    assert(list@ =~= corners(size, r, clip_top));
    list
}

/// Cut corners do not touch each other.
pub proof fn corners_are_apart(size: Size, r: i32, clip_top: bool, i: int, j: int)
    requires
        0 < r,
        2 * r < size.w,
        2 * r < size.h,
        0 <= i < j < corners(size, r, clip_top).len(),
    ensures
        !corners(size, r, clip_top)[i].meets(corners(size, r, clip_top)[j]),
{
}

} // verus!
