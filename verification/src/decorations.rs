//! Where the pointer meets the decorations that the compositor draws.
//!
//! Pointer positions are in canvas units, windows in pixels.

use crate::geometry::{pick_edge, Point, Rect, ResizeEdge, Size};
use crate::units::pixels;
use vstd::prelude::*;

verus! {

use crate::geometry::edge_of;
use crate::units::from_pixels;

/// Distance of the close button from the right end of the title bar.
pub const CLOSE_BTN_RIGHT_PAD: i32 = 8;

/// What the pointer is over.
#[derive(Clone, Copy, Debug, PartialEq, Eq, Structural)]
pub enum DecorationHit {
    TitleBar,
    CloseButton,
    ResizeBorder(ResizeEdge),
}

/// A coordinate of 32 bits.
pub open spec fn fits(v: int) -> bool {
    i32::MIN <= v <= i32::MAX
}

/// A window whose close button can be placed in 32 bits.
pub open spec fn decorable(window_loc: Point, width: i32, bar_height: i32) -> bool {
    &&& fits(window_loc.x + width)
    &&& fits(window_loc.x + width - bar_height)
    &&& fits(window_loc.x + width - bar_height - CLOSE_BTN_RIGHT_PAD)
    &&& fits(window_loc.x + width - CLOSE_BTN_RIGHT_PAD)
    &&& fits(window_loc.y - bar_height)
}

/// The close button: a square at the right end of the title bar.
pub open spec fn close_button(window_loc: Point, width: i32, bar_height: i32) -> (int, int, int) {
    (
        window_loc.x + width - bar_height - CLOSE_BTN_RIGHT_PAD,
        window_loc.y - bar_height,
        bar_height as int,
    )
}

/// The close button: a square at the right end of the title bar.
pub fn close_button_rect(window_loc: Point, width: i32, bar_height: i32) -> (r: Rect)
    requires
        decorable(window_loc, width, bar_height),
    ensures
        (r.loc.x as int, r.loc.y as int, r.size.w as int) == close_button(
            window_loc,
            width,
            bar_height,
        ),
        r.size.h == r.size.w,
{
    Rect {
        loc: Point {
            x: window_loc.x + width - bar_height - CLOSE_BTN_RIGHT_PAD,
            y: window_loc.y - bar_height,
        },
        size: Size { w: bar_height, h: bar_height },
    }
}

/// Whether a position is on the title bar, left of the close button.
pub open spec fn on_title_bar(pos: (i64, i64), window_loc: Point, width: i32, bar_height: i32) -> bool {
    &&& from_pixels(window_loc.x as int) <= pos.0
    &&& pos.0 < from_pixels(window_loc.x + width - bar_height - CLOSE_BTN_RIGHT_PAD)
    &&& from_pixels(window_loc.y - bar_height) <= pos.1
    &&& pos.1 < from_pixels(window_loc.y as int)
}

/// Whether a position is on the close button.
pub open spec fn on_close_button(pos: (i64, i64), window_loc: Point, width: i32, bar_height: i32) -> bool {
    let (x, y, side) = close_button(window_loc, width, bar_height);
    &&& from_pixels(x) <= pos.0 < from_pixels(x + side)
    &&& from_pixels(y) <= pos.1 < from_pixels(y + side)
}

/// Whether a position is on the title bar, left of the close button.
pub fn title_bar_contains(pos: (i64, i64), window_loc: Point, width: i32, bar_height: i32) -> (r: bool)
    ensures
        r == on_title_bar(pos, window_loc, width, bar_height),
{
    let bar_bottom: i64 = pixels(window_loc.y);
    let bar_top: i64 = bar_bottom - pixels(bar_height);
    let bar_left: i64 = pixels(window_loc.x);
    let bar_right: i64 = bar_left + pixels(width) - pixels(bar_height) - pixels(
        CLOSE_BTN_RIGHT_PAD,
    );
    pos.0 >= bar_left && pos.0 < bar_right && pos.1 >= bar_top && pos.1 < bar_bottom
}

/// Whether a position is on the close button.
pub fn close_button_contains(pos: (i64, i64), window_loc: Point, width: i32, bar_height: i32) -> (r:
    bool)
    requires
        decorable(window_loc, width, bar_height),
    ensures
        r == on_close_button(pos, window_loc, width, bar_height),
{
    let rect = close_button_rect(window_loc, width, bar_height);
    pos.0 >= pixels(rect.loc.x) && pos.0 < pixels(rect.loc.x + rect.size.w) && pos.1 >= pixels(
        rect.loc.y,
    ) && pos.1 < pixels(rect.loc.y + rect.size.h)
}

/// A position is never on the title bar and on the close button at once.
pub proof fn title_bar_excludes_close_button(
    pos: (i64, i64),
    window_loc: Point,
    width: i32,
    bar_height: i32,
)
    ensures
        !(on_title_bar(pos, window_loc, width, bar_height) && on_close_button(
            pos,
            window_loc,
            width,
            bar_height,
        )),
{
}

/// The edge whose border a position is on: within `border_width` of the window
/// and its title bar, but not inside them.
pub open spec fn border_edge(
    pos: (i64, i64),
    window_loc: Point,
    window_size: Size,
    bar_height: i32,
    border_width: i32,
) -> Option<ResizeEdge> {
    let left = from_pixels(window_loc.x as int);
    let right = from_pixels(window_loc.x + window_size.w);
    let top = from_pixels(window_loc.y - bar_height);
    let bottom = from_pixels(window_loc.y + window_size.h);
    let border = from_pixels(border_width as int);
    if left - border <= pos.0 < right + border && top - border <= pos.1 < bottom + border {
        edge_of(pos.0 < left, pos.0 >= right, pos.1 < top, pos.1 >= bottom)
    } else {
        None
    }
}

/// The edge whose border a position is on, if it is on one.
pub fn resize_edge_at(
    pos: (i64, i64),
    window_loc: Point,
    window_size: Size,
    bar_height: i32,
    border_width: i32,
) -> (r: Option<ResizeEdge>)
    ensures
        r == border_edge(pos, window_loc, window_size, bar_height, border_width),
{
    let border: i64 = pixels(border_width);
    let left: i64 = pixels(window_loc.x);
    let right: i64 = left + pixels(window_size.w);
    let top: i64 = pixels(window_loc.y) - pixels(bar_height);
    let bottom: i64 = pixels(window_loc.y) + pixels(window_size.h);
    if pos.0 < left - border || pos.0 >= right + border || pos.1 < top - border || pos.1 >= bottom
        + border {
        return None;
    }
    pick_edge(pos.0 < left, pos.0 >= right, pos.1 < top, pos.1 >= bottom)
}

/// Inside the window or its title bar there is no border.
pub proof fn border_is_outside(
    pos: (i64, i64),
    window_loc: Point,
    window_size: Size,
    bar_height: i32,
    border_width: i32,
)
    requires
        from_pixels(window_loc.x as int) <= pos.0 < from_pixels(window_loc.x + window_size.w),
        from_pixels(window_loc.y - bar_height) <= pos.1 < from_pixels(window_loc.y + window_size.h),
    ensures
        border_edge(pos, window_loc, window_size, bar_height, border_width) is None,
{
}

/// Size and focus of a title bar as it was last drawn.
#[derive(Clone, Copy, Debug, PartialEq, Eq, Structural)]
pub struct DrawnBar {
    pub width: i32,
    pub focused: bool,
}

impl DrawnBar {
    /// Takes over what the title bar should show. Says whether it has to be
    /// drawn again.
    pub fn update(&mut self, width: i32, focused: bool) -> (r: bool)
        ensures
            *final(self) == (DrawnBar { width, focused }),
            r == (*old(self) != *final(self)),
    {
        if width == self.width && focused == self.focused {
            return false;
        }
        self.width = width;
        self.focused = focused;
        true
    }
}

} // verus!
