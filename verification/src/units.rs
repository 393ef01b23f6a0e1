//! Fixed-point canvas coordinates.
//!
//! Canvas positions are whole numbers of units, [`UNITS_PER_PIXEL`] to the
//! pixel. That granularity holds every 1/256 pixel of the wire format and
//! every thousandth of a pixel of the configuration file exactly.

use vstd::prelude::*;

verus! {

/// Units in one logical pixel.
pub const UNITS_PER_PIXEL: i64 = 32_000;

/// Largest magnitude of a coordinate handed in from outside, in units.
/// It lies far beyond the reach of a 32-bit pixel position and leaves room
/// to add several coordinates without leaving 64 bits.
pub const COORD_LIMIT: i64 = 1_152_921_504_606_846_976;

/// A coordinate or a length that callers may hand in.
pub open spec fn in_range(v: i64) -> bool {
    -COORD_LIMIT <= v <= COORD_LIMIT
}

/// Absolute value.
pub open spec fn magnitude(v: int) -> int {
    if v < 0 {
        -v
    } else {
        v
    }
}

/// The value of the `i32` range that lies closest to `v`.
pub open spec fn clamp_i32(v: int) -> int {
    if v < i32::MIN {
        i32::MIN as int
    } else if v > i32::MAX {
        i32::MAX as int
    } else {
        v
    }
}

/// The largest whole number of pixels that is not above `v` units.
pub open spec fn floor_pixels(v: int) -> int {
    v / (UNITS_PER_PIXEL as int)
}

/// The smallest whole number of pixels that is not below `v` units.
pub open spec fn ceil_pixels(v: int) -> int {
    -floor_pixels(-v)
}

/// The whole number of pixels that is left of `v` units without the fraction.
pub open spec fn trunc_pixels(v: int) -> int {
    if v < 0 {
        ceil_pixels(v)
    } else {
        floor_pixels(v)
    }
}

/// Pixels to units.
pub open spec fn from_pixels(p: int) -> int {
    p * UNITS_PER_PIXEL
}

/// Brings a wide value back into the `i32` range.
pub fn saturate_i32(v: i64) -> (r: i32)
    ensures
        r == clamp_i32(v as int),
{
    if v < i32::MIN as i64 {
        i32::MIN
    } else if v > i32::MAX as i64 {
        i32::MAX
    } else {
        v as i32
    }
}

/// Adds two `i32` values, staying at the end of the range where the sum
/// would leave it.
pub fn saturating_sum(a: i32, b: i32) -> (r: i32)
    ensures
        r == clamp_i32(a + b),
{
    saturate_i32(a as i64 + b as i64)
}

/// Absolute value of a difference.
pub fn distance(a: i64, b: i64) -> (r: i64)
    requires
        i64::MIN < a - b <= i64::MAX,
    ensures
        r == magnitude(a - b),
{
    if a < b {
        -(a - b)
    } else {
        a - b
    }
}

/// Units of a whole number of pixels.
pub fn pixels(p: i32) -> (r: i64)
    ensures
        r == from_pixels(p as int),
{
    p as i64 * UNITS_PER_PIXEL
}

/// Rounds down to whole pixels.
pub fn floor_to_pixels(v: i64) -> (r: i32)
    requires
        v > i64::MIN,
    ensures
        r == clamp_i32(floor_pixels(v as int)),
{
    if v >= 0 {
        saturate_i32(v / UNITS_PER_PIXEL)
    } else {
        let up: i64 = (-(v + 1)) / UNITS_PER_PIXEL;
        proof {
            let u = UNITS_PER_PIXEL as int;
            assert(floor_pixels(v as int) == -up - 1) by (nonlinear_arith)
                requires
                    v < 0,
                    u == 32_000,
                    up == (-(v + 1)) / u,
                    floor_pixels(v as int) == (v as int) / u,
            ;
        }
        saturate_i32(-up - 1)
    }
}

/// Rounds up to whole pixels.
pub fn ceil_to_pixels(v: i64) -> (r: i32)
    requires
        v > i64::MIN,
    ensures
        r == clamp_i32(ceil_pixels(v as int)),
{
    if v <= 0 {
        saturate_i32(-((-v) / UNITS_PER_PIXEL))
    } else {
        let down: i64 = (v - 1) / UNITS_PER_PIXEL;
        proof {
            let u = UNITS_PER_PIXEL as int;
            assert((-(v as int)) / u == -down - 1) by (nonlinear_arith)
                requires
                    v > 0,
                    u == 32_000,
                    down == (v - 1) / u,
            ;
        }
        saturate_i32(down + 1)
    }
}

/// Drops the fraction of a pixel.
pub fn trunc_to_pixels(v: i64) -> (r: i32)
    requires
        v > i64::MIN,
    ensures
        r == clamp_i32(trunc_pixels(v as int)),
{
    if v < 0 {
        ceil_to_pixels(v)
    } else {
        floor_to_pixels(v)
    }
}

/// Whole pixels survive every way of rounding.
pub proof fn whole_pixels_round_to_themselves(p: int)
    ensures
        floor_pixels(from_pixels(p)) == p,
        ceil_pixels(from_pixels(p)) == p,
        trunc_pixels(from_pixels(p)) == p,
{
    assert((p * 32_000) / 32_000 == p) by (nonlinear_arith);
    assert((-(p * 32_000)) / 32_000 == -p) by (nonlinear_arith);
}

/// Rounding up lands at or above a length and less than a pixel past it.
pub proof fn ceil_is_tight(v: int)
    ensures
        from_pixels(ceil_pixels(v)) >= v,
        from_pixels(ceil_pixels(v)) < v + UNITS_PER_PIXEL,
        v > 0 ==> ceil_pixels(v) > 0,
        v <= 0 ==> ceil_pixels(v) <= 0,
{
}

/// Rounding down lands at or below a length and less than a pixel short of it.
pub proof fn floor_is_tight(v: int)
    ensures
        from_pixels(floor_pixels(v)) <= v,
        from_pixels(floor_pixels(v)) > v - UNITS_PER_PIXEL,
        v < 0 ==> floor_pixels(v) < 0,
        v >= 0 ==> floor_pixels(v) >= 0,
{
}

} // verus!
