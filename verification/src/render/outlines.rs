//! Thin outlines that show where other outputs look.

use crate::config::types::OutputOutlineSettings;
use crate::geometry::{Point, Rect, Size};
use crate::units::saturating_sum;
use vstd::prelude::*;

verus! {

use crate::units::clamp_i32;

/// A rectangle as its edges: left, top, right and bottom.
pub struct Edges {
    pub left: int,
    pub top: int,
    pub right: int,
    pub bottom: int,
}

/// The four strips along the edges of a rectangle: top, bottom, left, right.
pub open spec fn strips(r: Rect, thickness: int) -> Seq<Edges> {
    let bottom = clamp_i32(clamp_i32(r.loc.y + r.size.h) - thickness);
    let right = clamp_i32(clamp_i32(r.loc.x + r.size.w) - thickness);
    seq![
        strip(r.loc.x as int, r.loc.y as int, r.size.w as int, thickness),
        strip(r.loc.x as int, bottom, r.size.w as int, thickness),
        strip(r.loc.x as int, r.loc.y as int, thickness, r.size.h as int),
        strip(right, r.loc.y as int, thickness, r.size.h as int),
    ]
}

/// A strip from its place and its size.
pub open spec fn strip(x: int, y: int, w: int, h: int) -> Edges {
    Edges { left: x, top: y, right: clamp_i32(x + w), bottom: clamp_i32(y + h) }
}

/// The part of a strip that is on the screen, if any is.
pub open spec fn on_screen(e: Edges, viewport: Size) -> Option<Rect> {
    let left = if e.left < 0 {
        0
    } else {
        e.left
    };
    let top = if e.top < 0 {
        0
    } else {
        e.top
    };
    let right = if e.right > viewport.w {
        viewport.w as int
    } else {
        e.right
    };
    let bottom = if e.bottom > viewport.h {
        viewport.h as int
    } else {
        e.bottom
    };
    if right <= left || bottom <= top {
        None
    } else {
        Some(
            Rect {
                loc: Point { x: left as i32, y: top as i32 },
                size: Size { w: (right - left) as i32, h: (bottom - top) as i32 },
            },
        )
    }
}

/// The strips on the screen, among the first `n`.
pub open spec fn strips_on_screen(all: Seq<Edges>, viewport: Size, n: nat) -> Seq<Rect>
    decreases n,
{
    if n == 0 {
        seq![]
    } else {
        let before = strips_on_screen(all, viewport, (n - 1) as nat);
        match on_screen(all[n - 1], viewport) {
            Some(r) => before.push(r),
            None => before,
        }
    }
}

/// The outline of a rectangle on a screen: nothing where it is off the screen.
pub open spec fn outline(r: Rect, viewport: Size, thickness: i32) -> Seq<Rect> {
    let screen = Rect { loc: Point { x: 0, y: 0 }, size: viewport };
    if thickness <= 0 || !screen.meets(r) {
        seq![]
    } else {
        strips_on_screen(strips(r, thickness as int), viewport, 4)
    }
}

fn clip(x: i32, y: i32, w: i32, h: i32, viewport: Size) -> (r: Option<Rect>)
    ensures
        r == on_screen(strip(x as int, y as int, w as int, h as int), viewport),
{
    let x0: i32 = if x < 0 {
        0
    } else {
        x
    };
    let y0: i32 = if y < 0 {
        0
    } else {
        y
    };
    let x_end: i32 = saturating_sum(x, w);
    let y_end: i32 = saturating_sum(y, h);
    let x1: i32 = if x_end > viewport.w {
        viewport.w
    } else {
        x_end
    };
    let y1: i32 = if y_end > viewport.h {
        viewport.h
    } else {
        y_end
    };
    if x1 <= x0 || y1 <= y0 {
        None
    } else {
        Some(Rect { loc: Point { x: x0, y: y0 }, size: Size { w: x1 - x0, h: y1 - y0 } })
    }
}

/// The strips that draw the outline of a rectangle on a screen.
pub fn outline_strips(r: Rect, viewport: Size, thickness: i32) -> (list: Vec<Rect>)
    ensures
        list@ == outline(r, viewport, thickness),
{
    let mut list: Vec<Rect> = Vec::new();
    let screen = Rect { loc: Point { x: 0, y: 0 }, size: viewport };
    if thickness <= 0 || !screen.overlaps(&r) {
        return list;
    }
    let bottom: i32 = saturating_sum(saturating_sum(r.loc.y, r.size.h), -thickness);
    let right: i32 = saturating_sum(saturating_sum(r.loc.x, r.size.w), -thickness);
    let ghost all = strips(r, thickness as int);
    proof {
        reveal_with_fuel(strips_on_screen, 5);
    }
    if let Some(e) = clip(r.loc.x, r.loc.y, r.size.w, thickness, viewport) {
        list.push(e);
    }
    assert(list@ =~= strips_on_screen(all, viewport, 1));
    if let Some(e) = clip(r.loc.x, bottom, r.size.w, thickness, viewport) {
        list.push(e);
    }
    assert(list@ =~= strips_on_screen(all, viewport, 2));
    if let Some(e) = clip(r.loc.x, r.loc.y, thickness, r.size.h, viewport) {
        list.push(e);
    }
    assert(list@ =~= strips_on_screen(all, viewport, 3));
    if let Some(e) = clip(right, r.loc.y, thickness, r.size.h, viewport) {
        list.push(e);
    }
    assert(list@ =~= strips_on_screen(all, viewport, 4));
    list
}

/// Nothing of an outline is drawn off the screen.
pub proof fn outlines_stay_on_screen(r: Rect, viewport: Size, thickness: i32, n: nat, k: int)
    requires
        n <= 4,
        0 <= k < strips_on_screen(strips(r, thickness as int), viewport, n).len(),
    ensures
        ({
            let e = strips_on_screen(strips(r, thickness as int), viewport, n)[k];
            &&& 0 <= e.loc.x && 0 < e.size.w && e.loc.x + e.size.w <= viewport.w
            &&& 0 <= e.loc.y && 0 < e.size.h && e.loc.y + e.size.h <= viewport.h
        }),
    decreases n,
{
    if n > 0 {
        let all = strips(r, thickness as int);
        let before = strips_on_screen(all, viewport, (n - 1) as nat);
        if k < before.len() {
            outlines_stay_on_screen(r, viewport, thickness, (n - 1) as nat, k);
        } else {
            let e = all[n - 1];
            assert(i32::MIN <= e.left && e.right <= i32::MAX);
        }
    }
}

/// Whether outlines are drawn at all.
pub fn draws_outlines(settings: &OutputOutlineSettings) -> (r: bool)
    ensures
        r == (settings.thickness > 0 && settings.opacity > 0),
{
    settings.thickness > 0 && settings.opacity > 0
}

/// The pixels of a strip in one color.
pub fn fill_color(color: [u8; 4], size: Size) -> (r: Vec<u8>)
    requires
        size.w >= 0,
        size.h >= 0,
        size.w * size.h * 4 <= usize::MAX,
    ensures
        r@ == Seq::new((size.w * size.h * 4) as nat, |i: int| color[i % 4]),
{
    proof {
        assert(size.w * size.h >= 0) by (nonlinear_arith)
            requires
                size.w >= 0,
                size.h >= 0,
        ;
        assert(size.w * size.h <= 0x7fff_ffff * 0x7fff_ffff) by (nonlinear_arith)
            requires
                0 <= size.w <= 0x7fff_ffff,
                0 <= size.h <= 0x7fff_ffff,
        ;
    }
    let count: u64 = size.w as u64 * size.h as u64;
    let pixels: usize = count as usize;
    let mut out: Vec<u8> = Vec::new();
    let mut i: usize = 0;
    while i < pixels
        invariant
            i <= pixels,
            out@ == Seq::new((i * 4) as nat, |k: int| color[k % 4]),
        decreases pixels - i,
    {
        let ghost before = out@;
        out.push(color[0]);
        out.push(color[1]);
        out.push(color[2]);
        out.push(color[3]);
        i += 1;
        assert(out@ =~= Seq::new((i * 4) as nat, |k: int| color[k % 4]));
    }
    out
}

} // verus!
