//! The background: a picture laid out in tiles, or a shader.

use crate::canvas::CanvasPos;
use crate::config::types::BackgroundConfig;
use crate::geometry::Size;
use crate::units::UNITS_PER_PIXEL;
use vstd::prelude::*;

verus! {

use crate::units::{ceil_pixels, floor_pixels, in_range};

/// What the background is made from.
#[derive(Debug)]
pub enum BackgroundSource {
    /// A picture at a path.
    Tile(String),
    /// A shader at a path.
    Shader(String),
    /// The shader that is built in.
    BuiltIn,
}

/// What the background is made from: a shader where one is set, else a picture
/// where one is set, else the shader that is built in. A picture that cannot be
/// read counts as none.
pub fn background_source(config: &BackgroundConfig, tile_readable: bool) -> (r: BackgroundSource)
    ensures
        match (config.shader_path, config.tile_path) {
            (Some(shader), _) => r matches BackgroundSource::Shader(p) && p@ == shader@,
            (None, Some(tile)) => if tile_readable {
                r matches BackgroundSource::Tile(p) && p@ == tile@
            } else {
                r is BuiltIn
            },
            (None, None) => r is BuiltIn,
        },
{
    if let Some(shader) = &config.shader_path {
        return BackgroundSource::Shader(String::from_str(shader.as_str()));
    }
    if let Some(tile) = &config.tile_path {
        if tile_readable {
            return BackgroundSource::Tile(String::from_str(tile.as_str()));
        }
    }
    BackgroundSource::BuiltIn
}

/// Pixels that are added to a tile on the right and below, so that no gap
/// opens between tiles at any zoom.
pub const TILE_PAD: usize = 2;

/// A byte of a tile: a channel of the pixel at a place, where places past the
/// last column or row show that column or row.
pub open spec fn tile_byte(raw: Seq<u8>, w: int, h: int, x: int, y: int, channel: int) -> u8 {
    let column = if x < w {
        x
    } else {
        w - 1
    };
    let row = if y < h {
        y
    } else {
        h - 1
    };
    raw[(row * w + column) * 4 + channel]
}

/// The bytes of a padded tile up to a length, row by row.
pub open spec fn padded(raw: Seq<u8>, w: int, h: int, n: nat) -> Seq<u8> {
    let ew = w + TILE_PAD;
    Seq::new(
        n,
        |i: int| tile_byte(raw, w, h, (i / 4) % ew, (i / 4) / ew, i % 4),
    )
}

/// A tile with its last column and row repeated. Each pixel has four bytes.
pub fn expand_tile(raw: &Vec<u8>, w: usize, h: usize) -> (r: Vec<u8>)
    requires
        0 < w,
        0 < h,
        raw@.len() == w * h * 4,
        (w + TILE_PAD) * (h + TILE_PAD) * 4 <= usize::MAX,
    ensures
        r@ == padded(
            raw@,
            w as int,
            h as int,
            ((w + TILE_PAD) * (h + TILE_PAD) * 4) as nat,
        ),
{
    proof {
        let ew = w + TILE_PAD;
        let eh = h + TILE_PAD;
        assert(w * h * 4 <= ew * eh * 4 && ew <= ew * eh * 4 && eh <= ew * eh * 4) by (nonlinear_arith)
            requires
                0 < w,
                0 < h,
                ew == w + 2,
                eh == h + 2,
        ;
    }
    let ew: usize = w + TILE_PAD;
    let eh: usize = h + TILE_PAD;
    let mut out: Vec<u8> = Vec::new();
    let mut y: usize = 0;
    while y < eh
        invariant
            ew == w + TILE_PAD,
            eh == h + TILE_PAD,
            0 < w,
            0 < h,
            w * h * 4 <= usize::MAX,
            raw@.len() == w * h * 4,
            y <= eh,
            out@ == padded(raw@, w as int, h as int, (y * ew * 4) as nat),
        decreases eh - y,
    {
        let row: usize = if y < h {
            y
        } else {
            h - 1
        };
        let mut x: usize = 0;
        while x < ew
            invariant
                ew == w + TILE_PAD,
                0 < w,
                0 < h,
                w * h * 4 <= usize::MAX,
                raw@.len() == w * h * 4,
                y < eh,
                eh == h + TILE_PAD,
                row == if y < h {
                    y as int
                } else {
                    h - 1
                },
                x <= ew,
                out@ == padded(raw@, w as int, h as int, ((y * ew + x) * 4) as nat),
            decreases ew - x,
        {
            let column: usize = if x < w {
                x
            } else {
                w - 1
            };
            let at: usize = tile_offset(row, w, column, h);
            let ghost before = out@;
            out.push(raw[at]);
            out.push(raw[at + 1]);
            out.push(raw[at + 2]);
            out.push(raw[at + 3]);
            proof {
                let n = ((y * ew + x) * 4) as int;
                let m = ((y * ew + (x + 1)) * 4) as int;
                let now = padded(raw@, w as int, h as int, m as nat);
                assert(y * ew >= 0) by (nonlinear_arith)
                    requires
                        y >= 0,
                        ew >= 0,
                ;
                assert(m == n + 4);
                assert forall|i: int| 0 <= i < m implies out@[i] == now[i] by {
                    if i < n {
                        assert(before[i] == now[i]);
                    } else {
                        let c = i - n;
                        assert(i / 4 == y * ew + x && i % 4 == c) by {
                            assert(i == 4 * (y * ew + x) + c);
                        }
                        assert((y * ew + x) % (ew as int) == x && (y * ew + x) / (ew as int) == y) by {
                            vstd::arithmetic::div_mod::lemma_fundamental_div_mod_converse(
                                (y * ew + x) as int,
                                ew as int,
                                y as int,
                                x as int,
                            );
                        }
                        assert(now[i] == raw@[at + c]);
                    }
                }
                assert(out@ =~= now);
            }
            x += 1;
        }
        assert((y * ew + ew) == (y + 1) * ew) by (nonlinear_arith);
        y += 1;
    }
    assert(ew * eh == y * ew) by (nonlinear_arith)
        requires
            y == eh,
    ;
    out
}

fn tile_offset(row: usize, w: usize, column: usize, h: usize) -> (r: usize)
    requires
        row < h,
        column < w,
        w * h * 4 <= usize::MAX,
    ensures
        r == (row * w + column) * 4,
        r + 4 <= w * h * 4,
{
    proof {
        assert((row * w + column) * 4 + 4 <= w * h * 4) by (nonlinear_arith)
            requires
                0 <= row,
                row + 1 <= h,
                0 <= column,
                column + 1 <= w,
        ;
        assert(0 <= row * w) by (nonlinear_arith)
            requires
                0 <= row,
                0 <= w,
        ;
    }
    (row * w + column) * 4
}

/// The first tile coordinate at or before a camera coordinate, in pixels.
pub open spec fn first_tile(camera: int, length: int) -> int {
    (floor_pixels(camera) / length) * length
}

/// The number of tiles that are a step apart from a start to an end.
pub open spec fn tile_count(start: int, end: int, step: int) -> int {
    if end <= start {
        0
    } else {
        (end - start + step - 1) / step
    }
}

/// The tile coordinates along one axis.
pub open spec fn tile_axis(start: int, end: int, step: int) -> Seq<int> {
    Seq::new(tile_count(start, end, step) as nat, |k: int| start + k * step)
}

/// Tiles that lie a step apart leave no gap, as long as a tile is no shorter
/// than the step.
pub proof fn tiles_leave_no_gap(start: int, end: int, step: int, x: int) -> (k: int)
    requires
        step > 0,
        start <= x < end,
    ensures
        0 <= k < tile_axis(start, end, step).len(),
        tile_axis(start, end, step)[k] <= x < tile_axis(start, end, step)[k] + step,
{
    let k = (x - start) / step;
    let n = tile_count(start, end, step);
    vstd::arithmetic::div_mod::lemma_fundamental_div_mod(x - start, step);
    vstd::arithmetic::div_mod::lemma_fundamental_div_mod(end - start + step - 1, step);
    assert(step * k == k * step) by (nonlinear_arith);
    assert(0 <= k) by {
        vstd::arithmetic::div_mod::lemma_div_pos_is_pos(x - start, step);
    }
    assert(k < n) by (nonlinear_arith)
        requires
            step > 0,
            step * k <= x - start,
            x - start + 1 <= end - start,
            end - start + step - 1 == step * n + (end - start + step - 1) % step,
            0 <= (end - start + step - 1) % step < step,
    ;
    k
}

/// The tiles of the first `n` rows, row by row.
pub open spec fn tile_grid(xs: Seq<int>, ys: Seq<int>, n: nat) -> Seq<(int, int)>
    decreases n,
{
    if n == 0 {
        seq![]
    } else {
        tile_grid(xs, ys, (n - 1) as nat) + xs.map_values(|x: int| (x, ys[n - 1]))
    }
}

/// The tile coordinates along one axis that a viewport shows: the multiples of
/// the length of a tile, from the first at or before the camera to the end of
/// the viewport.
pub open spec fn tiles_in_sight(camera: int, visible: int, length: int) -> Seq<int> {
    tile_axis(first_tile(camera, length), ceil_pixels(camera + visible), length)
}

/// Tiles stand on a grid that does not move with the camera: a place has a tile
/// exactly where it is a multiple of the length of a tile and in sight, and no
/// place has two.
pub proof fn tiles_stand_on_their_grid(camera: int, visible: int, length: int)
    requires
        length > 0,
    ensures
        tiles_in_sight(camera, visible, length).no_duplicates(),
        forall|x: int| #[trigger]
            tiles_in_sight(camera, visible, length).contains(x) <==> x % length == 0
                && first_tile(camera, length) <= x < ceil_pixels(camera + visible),
{
    let start = first_tile(camera, length);
    let end = ceil_pixels(camera + visible);
    let list = tiles_in_sight(camera, visible, length);
    let row = floor_pixels(camera) / length;
    let n = tile_count(start, end, length);
    assert forall|i: int, j: int|
        0 <= i < list.len() && 0 <= j < list.len() && i != j implies list[i] != list[j] by {
        assert(i * length != j * length) by (nonlinear_arith)
            requires
                length > 0,
                i != j,
        ;
    }
    assert forall|x: int|
        (#[trigger] list.contains(x)) == (x % length == 0 && start <= x < end) by {
        if list.contains(x) {
            let k = choose|k: int| 0 <= k < list.len() && list[k] == x;
            assert(x == (row + k) * length + 0) by (nonlinear_arith)
                requires
                    x == row * length + k * length,
            ;
            vstd::arithmetic::div_mod::lemma_fundamental_div_mod_converse(x, length, row + k, 0);
            let m = end - start + length - 1;
            vstd::arithmetic::div_mod::lemma_fundamental_div_mod(m, length);
            assert(0 <= k * length < end - start) by (nonlinear_arith)
                requires
                    0 <= k,
                    k + 1 <= n,
                    length > 0,
                    m == length * n + m % length,
                    0 <= m % length,
                    m == end - start + length - 1,
            ;
        }
        if x % length == 0 && start <= x < end {
            let k = tiles_leave_no_gap(start, end, length, x);
            assert(list[k] <= x < list[k] + length);
            vstd::arithmetic::div_mod::lemma_fundamental_div_mod(x, length);
            let q = x / length;
            assert(q == row + k) by (nonlinear_arith)
                requires
                    length > 0,
                    x == length * q,
                    row * length + k * length <= x < row * length + k * length + length,
            ;
            assert(x == row * length + k * length) by (nonlinear_arith)
                requires
                    x == length * q,
                    q == row + k,
            ;
            assert(list[k] == x);
        }
    }
}

/// Tile positions as integers.
pub open spec fn as_ints(list: Seq<(i64, i64)>) -> Seq<(int, int)> {
    list.map_values(|p: (i64, i64)| (p.0 as int, p.1 as int))
}

fn floor_div(v: i64, d: i64) -> (r: i64)
    requires
        0 < d <= 0x1_0000_0000,
        -0x4000_0000_0000_0000 <= v <= 0x4000_0000_0000_0000,
    ensures
        r == v as int / d as int,
        -0x4000_0000_0000_0000 <= r <= 0x4000_0000_0000_0000,
{
    if v >= 0 {
        let r: i64 = v / d;
        assert(0 <= r <= v) by (nonlinear_arith)
            requires
                v >= 0,
                d > 0,
                r == v as int / d as int,
        ;
        r
    } else {
        let w: i64 = -v;
        let q: i64 = (w + d - 1) / d;
        proof {
            let a = w + d - 1;
            vstd::arithmetic::div_mod::lemma_fundamental_div_mod(a as int, d as int);
            let m = a as int % d as int;
            assert(a == d * q + m);
            assert(v == (-q) * d + (d - 1 - m)) by (nonlinear_arith)
                requires
                    a == d * q + m,
                    a == w + d - 1,
                    w == -v,
            ;
            vstd::arithmetic::div_mod::lemma_fundamental_div_mod_converse(
                v as int,
                d as int,
                -q as int,
                (d - 1 - m) as int,
            );
            assert(0 <= q <= w) by (nonlinear_arith)
                requires
                    a == d * q + m,
                    a == w + d - 1,
                    0 <= m < d,
                    w >= 1,
                    d >= 1,
            ;
        }
        -q
    }
}

/// A start, a count and a step.
struct Axis {
    start: i64,
    count: i64,
    step: i64,
}

impl Axis {
    spec fn positions(self) -> Seq<int> {
        Seq::new(self.count as nat, |k: int| self.start + k * self.step)
    }

    spec fn wf(self) -> bool {
        &&& 0 <= self.count
        &&& 0 < self.step
        &&& forall|k: int|
            #![trigger k * self.step]
            0 <= k < self.count ==> 0 <= k * self.step && i64::MIN <= self.start + k * self.step
                <= i64::MAX && k * self.step <= i64::MAX
    }

    fn at(&self, k: i64) -> (r: i64)
        requires
            self.wf(),
            0 <= k < self.count,
        ensures
            r == self.positions()[k as int],
    {
        assert(0 <= k * self.step <= i64::MAX);
        self.start + k * self.step
    }
}

fn axis(camera: i64, visible: i64, length: i32) -> (r: Axis)
    requires
        in_range(camera),
        0 <= visible,
        in_range(visible),
        length >= 1,
    ensures
        r.wf(),
        r.positions() == tiles_in_sight(camera as int, visible as int, length as int),
{
    let step: i64 = length as i64;
    let column: i64 = floor_div(camera, UNITS_PER_PIXEL);
    let tile: i64 = floor_div(column, length as i64);
    proof {
        vstd::arithmetic::div_mod::lemma_fundamental_div_mod(column as int, length as int);
        assert(tile * length == length * tile) by (nonlinear_arith);
        assert(column - length < tile * length <= column);
    }
    let start: i64 = tile * length as i64;
    let far: i64 = camera + visible;
    let end: i64 = -floor_div(-far, UNITS_PER_PIXEL);
    assert(end == ceil_pixels(far as int));
    let count: i64 = if end <= start {
        0
    } else {
        (end - start + step - 1) / step
    };
    let r = Axis { start, count, step };
    proof {
        let n = end - start + step - 1;
        if end > start {
            vstd::arithmetic::div_mod::lemma_fundamental_div_mod(n as int, step as int);
            vstd::arithmetic::div_mod::lemma_div_pos_is_pos(n as int, step as int);
        }
        assert forall|k: int| #![trigger k * step] 0 <= k < count implies 0 <= k * step && i64::MIN
            <= start + k * step <= i64::MAX && k * step <= i64::MAX by {
            assert(0 <= k * step < end - start) by (nonlinear_arith)
                requires
                    0 <= k,
                    k + 1 <= count,
                    step > 0,
                    n == step * count + n as int % step as int,
                    0 <= n as int % step as int,
                    n == end - start + step - 1,
            ;
        }
        assert(r.positions() =~= tiles_in_sight(camera as int, visible as int, length as int));
    }
    r
}

/// Where the tiles of a background go, in pixels on the canvas, row by row.
/// `visible` is how much of the canvas is in sight, in units. There are none
/// of a tile without size.
pub fn tile_positions(camera: CanvasPos, visible: (i64, i64), tile: Size) -> (r: Vec<(i64, i64)>)
    requires
        camera.wf(),
        0 <= visible.0,
        0 <= visible.1,
        in_range(visible.0),
        in_range(visible.1),
    ensures
        tile.w <= 0 || tile.h <= 0 ==> r@.len() == 0,
        tile.w > 0 && tile.h > 0 ==> ({
            let xs = tiles_in_sight(camera.x as int, visible.0 as int, tile.w as int);
            let ys = tiles_in_sight(camera.y as int, visible.1 as int, tile.h as int);
            as_ints(r@) == tile_grid(xs, ys, ys.len())
        }),
{
    let mut list: Vec<(i64, i64)> = Vec::new();
    if tile.w <= 0 || tile.h <= 0 {
        return list;
    }
    let columns = axis(camera.x, visible.0, tile.w);
    let rows = axis(camera.y, visible.1, tile.h);
    let ghost xs = columns.positions();
    let ghost ys = rows.positions();
    let mut j: i64 = 0;
    assert(as_ints(list@) =~= tile_grid(xs, ys, 0));
    while j < rows.count
        invariant
            0 <= j <= rows.count,
            rows.wf(),
            columns.wf(),
            xs == columns.positions(),
            ys == rows.positions(),
            as_ints(list@) == tile_grid(xs, ys, j as nat),
        decreases rows.count - j,
    {
        let y: i64 = rows.at(j);
        let mut i: i64 = 0;
        let ghost before = tile_grid(xs, ys, j as nat);
        let ghost row = xs.map_values(|x: int| (x, ys[j as int]));
        assert(before + row.take(0) =~= before);
        while i < columns.count
            invariant
                0 <= i <= columns.count,
                columns.wf(),
                xs == columns.positions(),
                row == xs.map_values(|x: int| (x, ys[j as int])),
                y == ys[j as int],
                as_ints(list@) == before + row.take(i as int),
            decreases columns.count - i,
        {
            let x: i64 = columns.at(i);
            let ghost now = as_ints(list@);
            list.push((x, y));
            assert(row[i as int] == (x as int, y as int));
            assert(as_ints(list@) =~= now.push(row[i as int]));
            i += 1;
            assert(as_ints(list@) =~= before + row.take(i as int));
        }
        assert(row.take(i as int) =~= row);
        j += 1;
    }
    list
}

} // verus!
