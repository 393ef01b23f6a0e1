//! What is drawn: background, windows, effects, captures and cursors.

use crate::config::types::DecorationMode;
use crate::cursors::BitmapView;
use crate::geometry::{Point, Rect, Size};
use crate::render::blur::{BlurCache, Generations};
use crate::render::frame::{
    BlurLayer,
    BlurRequest,
    FrameGroups,
    Prefixes,
    RenderOptions,
    SceneView,
    WindowInfo,
};
use vstd::prelude::*;

verus! {

use crate::cursors::{
    claims_too_much,
    has_total,
    is_choice,
    is_closest,
    is_oversized,
    number_at,
    off_by,
    shown_at,
    time_of,
};
use crate::render::background::{first_tile, padded, tile_byte, tile_grid, tiles_in_sight};
use crate::render::blur::{
    behind,
    blur_steps,
    entry_of,
    halved,
    looked_at,
    prefix_of,
    shrunk,
    still_blurred,
};
use crate::render::capture::captured;
use crate::render::corners::corners;
use crate::render::frame::{
    blurred,
    drawn_area,
    group_starts,
    layered,
    window_plan,
    with_window,
};
use crate::render::outlines::{on_screen, outline, strip, strips, strips_on_screen, Edges};

/// A tile keeps its pixels where they were and repeats its last column and its
/// last row in the padding.
pub proof fn padding_repeats_the_last_pixels(
    raw: Seq<u8>,
    w: int,
    h: int,
    n: nat,
    x: int,
    y: int,
    channel: int,
)
    requires
        0 < w,
        0 < h,
        0 <= x < w + 2,
        0 <= y,
        0 <= channel < 4,
        (y * (w + 2) + x) * 4 + channel < n,
    ensures
        ({
            let byte = padded(raw, w, h, n)[(y * (w + 2) + x) * 4 + channel];
            &&& x < w && y < h ==> byte == raw[(y * w + x) * 4 + channel]
            &&& x >= w && y < h ==> byte == raw[(y * w + (w - 1)) * 4 + channel]
            &&& x < w && y >= h ==> byte == raw[((h - 1) * w + x) * 4 + channel]
            &&& x >= w && y >= h ==> byte == raw[((h - 1) * w + (w - 1)) * 4 + channel]
        }),
{
    let ew = w + 2;
    let pixel = y * ew + x;
    let i = pixel * 4 + channel;
    assert(pixel >= 0) by (nonlinear_arith)
        requires
            y >= 0,
            ew > 0,
            x >= 0,
            pixel == y * ew + x,
    ;
    assert(i / 4 == pixel && i % 4 == channel);
    vstd::arithmetic::div_mod::lemma_fundamental_div_mod_converse(pixel, ew, y, x);
    assert(padded(raw, w, h, n)[i] == tile_byte(raw, w, h, x, y, channel));
}

/// The first tile is the one that the camera's corner is on.
pub proof fn first_tiles_hold_the_corner(camera: int, length: int)
    requires
        length > 0,
    ensures
        first_tile(camera, length) % length == 0,
        32_000 * first_tile(camera, length) <= camera,
        camera < 32_000 * (first_tile(camera, length) + length),
{
    let p = crate::units::floor_pixels(camera);
    let q = p / length;
    vstd::arithmetic::div_mod::lemma_fundamental_div_mod(p, length);
    vstd::arithmetic::div_mod::lemma_mod_bound(p, length);
    assert(length * q == q * length) by (nonlinear_arith);
    assert(first_tile(camera, length) == q * length);
    vstd::arithmetic::div_mod::lemma_mod_multiples_basic(q, length);
}

/// Whatever is in sight lies on a tile.
pub proof fn what_is_in_sight_is_tiled(camera: int, visible: int, length: int, x: int)
    requires
        length > 0,
        camera <= 32_000 * x < camera + visible,
    ensures
        exists|k: int|
            0 <= k < tiles_in_sight(camera, visible, length).len() && #[trigger] tiles_in_sight(
                camera,
                visible,
                length,
            )[k] <= x < tiles_in_sight(camera, visible, length)[k] + length,
{
    first_tiles_hold_the_corner(camera, length);
    let end = crate::units::ceil_pixels(camera + visible);
    let k = crate::render::background::tiles_leave_no_gap(first_tile(camera, length), end, length, x);
    assert(tiles_in_sight(camera, visible, length)[k] <= x);
}

/// The tiles of the background are all the columns in all the rows.
pub proof fn tiles_fill_rows_and_columns(xs: Seq<int>, ys: Seq<int>, n: nat, i: int, j: int)
    requires
        0 <= i < xs.len(),
        0 <= j < n <= ys.len(),
    ensures
        tile_grid(xs, ys, n).contains((xs[i], ys[j])),
        tile_grid(xs, ys, n).len() == n * xs.len(),
    decreases n,
{
    let row = xs.map_values(|x: int| (x, ys[n - 1]));
    let before = tile_grid(xs, ys, (n - 1) as nat);
    let all = tile_grid(xs, ys, n);
    assert(all == before + row);
    grids_have_whole_rows(xs, ys, n);
    if j < n - 1 {
        tiles_fill_rows_and_columns(xs, ys, (n - 1) as nat, i, j);
        let k = choose|k: int| 0 <= k < before.len() && before[k] == (xs[i], ys[j]);
        assert(all[k] == before[k]);
    } else {
        assert(all[before.len() + i] == row[i]);
    }
}

proof fn grids_have_whole_rows(xs: Seq<int>, ys: Seq<int>, n: nat)
    requires
        n <= ys.len(),
    ensures
        tile_grid(xs, ys, n).len() == n * xs.len(),
    decreases n,
{
    if n > 0 {
        grids_have_whole_rows(xs, ys, (n - 1) as nat);
        assert(n * xs.len() == (n - 1) * xs.len() + xs.len()) by (nonlinear_arith);
    } else {
        assert(0 * xs.len() == 0) by (nonlinear_arith);
    }
}

/// What is blurred is blurred again once its size, the scene or the layout of
/// windows has changed; on layers of the screen also once the camera has moved.
pub proof fn blur_is_renewed_by_changes(
    c: BlurCache,
    surface: u64,
    size: Size,
    layer: BlurLayer,
    now: Generations,
)
    ensures
        BlurCache::fresh(surface, size).dirty,
        BlurCache::fresh(surface, size).size == size,
        BlurCache::fresh(surface, size).surface == surface,
        c.fitted(size, true).size == size,
        c.fitted(size, true).dirty == (c.dirty || c.size != size),
        c.fitted(size, false) == c,
        c.aged(layer, now).last == now,
        c.aged(layer, now).size == c.size,
        c.aged(layer, now).surface == c.surface,
        c.dirty || c.last.scene != now.scene || c.last.geometry != now.geometry ==> c.aged(
            layer,
            now,
        ).dirty,
        !c.dirty && c.last.scene == now.scene && c.last.geometry == now.geometry ==> c.aged(
            layer,
            now,
        ).dirty == ((layer is Overlay || layer is Top) && c.last.camera != now.camera),
{
}

/// What is asked to be blurred for the first time is blurred where there is
/// memory for it; without a size, or without memory, nothing is.
pub proof fn new_blurs_are_made(
    cache: Seq<BlurCache>,
    r: BlurRequest,
    allocated: bool,
    now: Generations,
)
    ensures
        r.screen_rect.size.w <= 0 || r.screen_rect.size.h <= 0 ==> looked_at(
            cache,
            r,
            allocated,
            now,
        ) == (cache, false),
        r.screen_rect.size.w > 0 && r.screen_rect.size.h > 0 && entry_of(
            cache,
            r.surface,
            cache.len(),
        ) is None ==> {
            let (after, again) = looked_at(cache, r, allocated, now);
            &&& again == allocated
            &&& !allocated ==> after == cache
            &&& allocated ==> after.len() == cache.len() + 1 && after.last().surface == r.surface
                && after.last().size == r.screen_rect.size && after.last().last == now
        },
{
}

/// A cache entry is found by its surface, the first of several.
pub proof fn blurs_go_by_surface(cache: Seq<BlurCache>, surface: u64, n: nat)
    requires
        n <= cache.len(),
    ensures
        match entry_of(cache, surface, n) {
            Some(k) => 0 <= k < n && cache[k].surface == surface && forall|j: int|
                0 <= j < k ==> (#[trigger] cache[j]).surface != surface,
            None => forall|j: int| 0 <= j < n ==> (#[trigger] cache[j]).surface != surface,
        },
    decreases n,
{
    if n > 0 {
        blurs_go_by_surface(cache, surface, (n - 1) as nat);
    }
}

/// What lies behind a surface is what comes after its elements in its layer.
pub proof fn behind_comes_after(p: Prefixes, r: BlurRequest, len: int)
    ensures
        r.layer == BlurLayer::Overlay ==> prefix_of(p, r.layer) == p.overlay,
        r.layer == BlurLayer::Top ==> prefix_of(p, r.layer) == p.top,
        r.layer == BlurLayer::Normal ==> prefix_of(p, r.layer) == p.normal,
        r.layer == BlurLayer::Widget ==> prefix_of(p, r.layer) == p.widget,
        behind(p, r, len) <= len,
        prefix_of(p, r.layer) + r.elem_start + r.elem_count <= len ==> behind(p, r, len) == prefix_of(
            p,
            r.layer,
        ) + r.elem_start + r.elem_count,
{
}

/// Each request that is to be blurred again, and has a size, gets its step, in
/// order; what lies behind is drawn again unless the step before drew it.
pub proof fn blur_goes_step_by_step(
    p: Prefixes,
    requests: Seq<BlurRequest>,
    again: Seq<bool>,
    len: usize,
    n: nat,
)
    requires
        0 < n <= requests.len() <= usize::MAX,
    ensures
        ({
            let before = blur_steps(p, requests, again, len as int, (n - 1) as nat);
            let after = blur_steps(p, requests, again, len as int, n);
            let r = requests[n - 1];
            let due = again[n - 1] && r.screen_rect.size.w > 0 && r.screen_rect.size.h > 0;
            &&& !due ==> after == before
            &&& due ==> after.len() == before.len() + 1 && after.drop_last() == before
                && after.last().request == n - 1 && after.last().behind == behind(p, r, len as int)
            &&& due && before.len() > 0 ==> after.last().draw_behind == (after.last().behind
                != before.last().behind)
            &&& due && before.len() == 0 ==> after.last().draw_behind
        }),
{
    let before = blur_steps(p, requests, again, len as int, (n - 1) as nat);
    let after = blur_steps(p, requests, again, len as int, n);
    if after.len() > 0 && after != before {
        assert(after.drop_last() =~= before);
    }
}

/// A cache entry stays as long as its surface asks for blur.
pub proof fn unasked_blurs_are_dropped(cache: Seq<BlurCache>, requests: Seq<BlurRequest>, c: BlurCache)
    ensures
        still_blurred(Seq::<BlurCache>::empty(), requests) == Seq::<BlurCache>::empty(),
        still_blurred(cache.push(c), requests) == (if exists|k: int|
            0 <= k < requests.len() && (#[trigger] requests[k]).surface == c.surface {
            still_blurred(cache, requests).push(c)
        } else {
            still_blurred(cache, requests)
        }),
{
    assert(cache.push(c).drop_last() =~= cache);
}

/// Each pass halves what is blurred, down to one pixel.
pub proof fn passes_halve(length: int, times: nat)
    requires
        length >= 0,
    ensures
        halved(length, 0) == length,
        0 <= halved(length, times) - 2 * halved(length, times + 1) <= 1,
        shrunk(length, times) >= 1,
        halved(length, times) >= 1 ==> shrunk(length, times) == halved(length, times),
        halved(length, times) >= 0,
    decreases times,
{
    if times > 0 {
        passes_halve(length, (times - 1) as nat);
    }
}

/// A capture holds every element but the cursors, and those too where they are
/// wanted.
pub proof fn captures_hold_what_is_wanted(is_cursor: Seq<bool>, paint: bool, n: nat, k: usize)
    requires
        n <= is_cursor.len() <= usize::MAX,
    ensures
        captured(is_cursor, paint, n).contains(k) <==> k < n && (paint || !is_cursor[k as int]),
        forall|i: int, j: int|
            0 <= i < j < captured(is_cursor, paint, n).len() ==> captured(is_cursor, paint, n)[i]
                < captured(is_cursor, paint, n)[j],
    decreases n,
{
    if n > 0 {
        captures_hold_what_is_wanted(is_cursor, paint, (n - 1) as nat, k);
        let before = captured(is_cursor, paint, (n - 1) as nat);
        let after = captured(is_cursor, paint, n);
        let last = (n - 1) as usize;
        captures_are_below(is_cursor, paint, (n - 1) as nat);
        if paint || !is_cursor[n - 1] {
            assert(after[before.len() as int] == last);
            if before.contains(k) {
                let i = choose|i: int| 0 <= i < before.len() && before[i] == k;
                assert(after[i] == k);
            }
            if after.contains(k) && k != last {
                let i = choose|i: int| 0 <= i < after.len() && after[i] == k;
                assert(before[i] == k);
            }
        }
    }
}

proof fn captures_are_below(is_cursor: Seq<bool>, paint: bool, n: nat)
    requires
        n <= is_cursor.len() <= usize::MAX,
    ensures
        forall|i: int|
            0 <= i < captured(is_cursor, paint, n).len() ==> (#[trigger] captured(
                is_cursor,
                paint,
                n,
            )[i]) < n,
    decreases n,
{
    if n > 0 {
        captures_are_below(is_cursor, paint, (n - 1) as nat);
        let before = captured(is_cursor, paint, (n - 1) as nat);
        let after = captured(is_cursor, paint, n);
        assert forall|i: int| 0 <= i < after.len() implies (#[trigger] after[i]) < n by {
            if i < before.len() {
                assert(before[i] == after[i]);
            }
        }
    }
}

/// The corners that are cut are squares in the corners: the two at the bottom,
/// and the two on top where those are cut too.
pub proof fn corners_lie_in_the_corners(size: Size, r: i32, clip_top: bool)
    requires
        0 <= r,
        2 * r < size.w,
        2 * r < size.h,
    ensures
        ({
            let list = corners(size, r, clip_top);
            let square = Size { w: r, h: r };
            &&& list.len() == if clip_top {
                4nat
            } else {
                2nat
            }
            &&& forall|k: int| #![trigger list[k]]
                0 <= k < list.len() ==> {
                    let c = list[k];
                    &&& c.size == square
                    &&& c.loc.x == 0 || c.loc.x + r == size.w
                    &&& c.loc.y + r == size.h || clip_top && c.loc.y == 0
                }
            &&& exists|k: int| #![trigger list[k]]
                0 <= k < list.len() && list[k].loc.x == 0 && list[k].loc.y + r == size.h
            &&& exists|k: int| #![trigger list[k]]
                0 <= k < list.len() && list[k].loc.x + r == size.w && list[k].loc.y + r == size.h
            &&& clip_top ==> exists|k: int| #![trigger list[k]]
                0 <= k < list.len() && list[k].loc.x == 0 && list[k].loc.y == 0
            &&& clip_top ==> exists|k: int| #![trigger list[k]]
                0 <= k < list.len() && list[k].loc.x + r == size.w && list[k].loc.y == 0
        }),
{
    let list = corners(size, r, clip_top);
    if clip_top {
        assert(list[0].loc.x == 0 && list[0].loc.y == 0);
        assert(list[1].loc.x + r == size.w && list[1].loc.y == 0);
        assert(list[2].loc.x == 0 && list[2].loc.y + r == size.h);
        assert(list[3].loc.x + r == size.w && list[3].loc.y + r == size.h);
    } else {
        assert(list[0].loc.x == 0 && list[0].loc.y + r == size.h);
        assert(list[1].loc.x + r == size.w && list[1].loc.y + r == size.h);
    }
}

/// Whether the numbers of a window are far from the ends of the range.
pub open spec fn is_ordinary(w: WindowInfo) -> bool {
    &&& -0x1000_0000 <= w.location.x <= 0x1000_0000
    &&& -0x1000_0000 <= w.location.y <= 0x1000_0000
    &&& -0x1000_0000 <= w.geometry.loc.x <= 0x1000_0000
    &&& -0x1000_0000 <= w.geometry.loc.y <= 0x1000_0000
    &&& -0x1000_0000 <= w.bbox.loc.x <= 0x1000_0000
    &&& -0x1000_0000 <= w.bbox.loc.y <= 0x1000_0000
    &&& 0 <= w.bbox.size.w <= 0x1000_0000
    &&& 0 <= w.bbox.size.h <= 0x1000_0000
    &&& 0 <= w.geometry.size.w <= 0x1000_0000
    &&& 0 <= w.geometry.size.h <= 0x1000_0000
}

/// A window is drawn from where its geometry begins, and with its bar of 25
/// pixels on top and its shadow of 14 all round where it has them.
pub proof fn windows_are_drawn_with_their_frame(w: WindowInfo)
    requires
        is_ordinary(w),
    ensures
        ({
            let a = drawn_area(w);
            let x = w.location.x - w.geometry.loc.x + w.bbox.loc.x;
            let y = w.location.y - w.geometry.loc.y + w.bbox.loc.y;
            let framed = w.decorated && !w.fullscreen;
            &&& !framed ==> a.loc.x == x && a.loc.y == y && a.size == w.bbox.size
            &&& framed ==> a.loc.x == x - 14 && a.loc.y == y - 25 - 14 && a.loc.x + a.size.w == x
                + w.bbox.size.w + 14 && a.loc.y + a.size.h == y + w.bbox.size.h + 14
        }),
{
}

/// A window is drawn where it is in sight: with a bar where it is decorated and
/// not fullscreen, its corners rounded by the frame that it has, a shadow round
/// a frame where there are shadows, and blur where it is asked for.
pub proof fn windows_in_sight_are_drawn(o: RenderOptions, w: WindowInfo)
    requires
        is_ordinary(w),
    ensures
        window_plan(o, w) is Some <==> o.visible.meets(drawn_area(w)),
        window_plan(o, w) matches Some(p) ==> {
            let framed = w.decorated && !w.fullscreen;
            let rounds = o.corner_clip && o.corner_radius > 0;
            let own = rounds && (w.geometry.loc.x > 0 || w.geometry.loc.y > 0) && (
            w.decoration_rule is None || w.decoration_rule == Some(DecorationMode::Client));
            &&& p.title_bar == framed
            &&& p.blur == (o.blur && w.blur)
            &&& p.clip is Bottom <==> framed && rounds
            &&& p.clip is All <==> !framed && own
            &&& p.shadow is Some <==> o.shadows && (framed || own)
            &&& p.shadow matches Some(s) ==> s.w == w.geometry.size.w + 28 && s.h
                == w.geometry.size.h + 28 + (if framed {
                25int
            } else {
                0
            })
        },
{
}

/// A window goes on top of those drawn so far in its own group, the body before
/// the shadow, and asks for blur behind its body.
pub proof fn windows_join_their_group<T>(
    scene: SceneView<T>,
    id: u64,
    widget: bool,
    body: Seq<T>,
    shadow: Seq<T>,
    blur: Option<Rect>,
)
    requires
        scene.normal.len() <= usize::MAX,
        scene.widgets.len() <= usize::MAX,
        body.len() <= usize::MAX,
    ensures
        ({
            let after = with_window(scene, id, widget, body, shadow, blur);
            &&& widget ==> after.normal == scene.normal && after.widgets == scene.widgets + body
                + shadow
            &&& !widget ==> after.widgets == scene.widgets && after.normal == scene.normal + body
                + shadow
            &&& blur is None ==> after.blur_requests == scene.blur_requests
            &&& blur matches Some(area) ==> after.blur_requests.len() == scene.blur_requests.len()
                + 1 && {
                let q = after.blur_requests.last();
                &&& q.surface == id && q.screen_rect == area
                &&& q.elem_count == body.len()
                &&& widget ==> q.layer is Widget && q.elem_start == scene.widgets.len()
                &&& !widget ==> q.layer is Normal && q.elem_start == scene.normal.len()
            }
        }),
{
}

/// Nothing lies before the cursor, and nothing behind the background. On a
/// fullscreen output the layers above and below the windows are left out, but
/// not the overlay.
pub proof fn frames_go_from_cursor_to_background<T>(g: FrameGroups<T>, s: SceneView<T>, k: int)
    ensures
        ({
            let frame = layered(g, s, false);
            let full = layered(g, s, true);
            let tail = g.outlines@ + g.background@ + g.background_layer@;
            &&& 0 <= k < g.cursor@.len() ==> frame[k] == g.cursor@[k] && full[k] == g.cursor@[k]
            &&& 0 <= k < tail.len() ==> frame[frame.len() - tail.len() + k] == tail[k]
                && full[full.len() - tail.len() + k] == tail[k]
            &&& 0 <= k < g.bottom@.len() ==> frame[frame.len() - tail.len() - g.bottom@.len() + k]
                == g.bottom@[k]
            &&& 0 <= k < s.widgets.len() ==> frame[frame.len() - tail.len() - g.bottom@.len()
                - s.widgets.len() + k] == s.widgets[k] && full[full.len() - tail.len()
                - s.widgets.len() + k] == s.widgets[k]
            &&& 0 <= k < g.override_redirect@.len() ==> frame[g.cursor@.len() + k]
                == g.override_redirect@[k]
            &&& frame.len() == full.len() + g.top.elements@.len() + g.bottom@.len()
        }),
        ({
            let (overlay, top, normal, widget) = group_starts(g, s, false);
            let frame = layered(g, s, false);
            &&& 0 <= k < g.overlay.elements@.len() ==> frame[overlay + k] == g.overlay.elements@[k]
            &&& 0 <= k < g.top.elements@.len() ==> frame[top + k] == g.top.elements@[k]
            &&& 0 <= k < s.normal.len() ==> frame[normal + k] == s.normal[k]
            &&& 0 <= k < s.widgets.len() ==> frame[widget + k] == s.widgets[k]
            &&& 0 <= k < g.canvas_layers@.len() ==> frame[normal + s.normal.len() + k]
                == g.canvas_layers@[k]
        }),
        blurred(g, s, true) == g.overlay.blur_requests@ + s.blur_requests,
        blurred(g, s, false) == g.overlay.blur_requests@ + g.top.blur_requests@ + s.blur_requests,
{
    assert(blurred(g, s, true) =~= g.overlay.blur_requests@ + s.blur_requests);
}

/// Whether a position lies in a rectangle, counted in whole pixels.
pub open spec fn covers(r: Rect, x: int, y: int) -> bool {
    r.loc.x <= x < r.loc.x + r.size.w && r.loc.y <= y < r.loc.y + r.size.h
}

/// What is left of a strip on the screen covers what the strip covers there.
pub proof fn strips_are_cut_at_the_screen(e: Edges, viewport: Size, x: int, y: int)
    requires
        i32::MIN <= e.left <= i32::MAX,
        i32::MIN <= e.top <= i32::MAX,
        i32::MIN <= e.right <= i32::MAX,
        i32::MIN <= e.bottom <= i32::MAX,
    ensures
        (on_screen(e, viewport) matches Some(r) && covers(r, x, y)) <==> e.left <= x < e.right
            && e.top <= y < e.bottom && 0 <= x < viewport.w && 0 <= y < viewport.h,
{
}

/// An outline lies along the inner side of the four edges, as thick as it is:
/// what it covers is what lies in the rectangle less than that from an edge.
pub proof fn outlines_lie_along_the_edges(r: Rect, t: int, x: int, y: int)
    requires
        -0x1000_0000 <= r.loc.x <= 0x1000_0000,
        -0x1000_0000 <= r.loc.y <= 0x1000_0000,
        0 <= r.size.w <= 0x1000_0000,
        0 <= r.size.h <= 0x1000_0000,
        0 < t <= r.size.w,
        t <= r.size.h,
    ensures
        strips(r, t).len() == 4,
        (exists|k: int| #![trigger strips(r, t)[k]]
            0 <= k < 4 && strips(r, t)[k].left <= x < strips(r, t)[k].right && strips(r, t)[k].top
                <= y < strips(r, t)[k].bottom) <==> covers(r, x, y) && (x < r.loc.x + t || y
            < r.loc.y + t || x >= r.loc.x + r.size.w - t || y >= r.loc.y + r.size.h - t),
{
    let all = strips(r, t);
    if covers(r, x, y) {
        if y < r.loc.y + t {
            assert(all[0].left <= x < all[0].right && all[0].top <= y < all[0].bottom);
        } else if y >= r.loc.y + r.size.h - t {
            assert(all[1].left <= x < all[1].right && all[1].top <= y < all[1].bottom);
        } else if x < r.loc.x + t {
            assert(all[2].left <= x < all[2].right && all[2].top <= y < all[2].bottom);
        } else if x >= r.loc.x + r.size.w - t {
            assert(all[3].left <= x < all[3].right && all[3].top <= y < all[3].bottom);
        }
    }
}

/// An outline is what is left of its strips on the screen; one without a
/// thickness, or out of sight, is not drawn.
pub proof fn outlines_are_drawn_in_sight(r: Rect, viewport: Size, t: i32, k: int)
    ensures
        t <= 0 ==> outline(r, viewport, t).len() == 0,
        !(Rect { loc: Point { x: 0, y: 0 }, size: viewport }).meets(r) ==> outline(
            r,
            viewport,
            t,
        ).len() == 0,
        t > 0 && (Rect { loc: Point { x: 0, y: 0 }, size: viewport }).meets(r) && 0 <= k < 4 ==> (
        on_screen(strips(r, t as int)[k], viewport) matches Some(piece) ==> outline(
            r,
            viewport,
            t,
        ).contains(piece)),
{
    if 0 <= k < 4 {
        strips_are_kept(strips(r, t as int), viewport, 4, k);
    }
}

proof fn strips_are_kept(all: Seq<Edges>, viewport: Size, n: nat, k: int)
    requires
        0 <= k < n <= all.len(),
    ensures
        on_screen(all[k], viewport) matches Some(piece) ==> strips_on_screen(
            all,
            viewport,
            n,
        ).contains(piece),
    decreases n,
{
    let before = strips_on_screen(all, viewport, (n - 1) as nat);
    let after = strips_on_screen(all, viewport, n);
    if on_screen(all[k], viewport) is Some {
        let piece = on_screen(all[k], viewport)->0;
        if k < n - 1 {
            strips_are_kept(all, viewport, (n - 1) as nat, k);
            let i = choose|i: int| 0 <= i < before.len() && before[i] == piece;
            assert(after[i] == piece);
        } else {
            assert(after[before.len() as int] == piece);
        }
    }
}

/// The cursor that is taken is no farther from the wanted size than another,
/// either way, and the first of those as close.
pub proof fn cursors_of_the_closest_size_are_taken(
    images: Seq<BitmapView>,
    target: u32,
    k: int,
    j: int,
)
    requires
        is_closest(images, target, k),
        0 <= j < images.len(),
        target <= i32::MAX,
        images[k].size <= i32::MAX,
        images[j].size <= i32::MAX,
    ensures
        ({
            let (a, b) = (images[k].size as int, images[j].size as int);
            let t = target as int;
            let far = if a >= t {
                a - t
            } else {
                t - a
            };
            let other = if b >= t {
                b - t
            } else {
                t - b
            };
            far <= other && (j < k ==> far < other)
        }),
{
    assert(off_by(images[k].size, target) <= off_by(images[j].size, target));
}

/// The frames of a cursor follow one another, each for as long as it takes.
pub proof fn cursor_frames_follow_one_another(delays: Seq<u32>, elapsed: int, k: int)
    requires
        0 <= k < delays.len(),
    ensures
        time_of(delays, 0) == 0,
        time_of(delays, (k + 1) as nat) == time_of(delays, k as nat) + delays[k],
        shown_at(delays, elapsed, k) <==> time_of(delays, k as nat) <= elapsed < time_of(
            delays,
            k as nat,
        ) + delays[k],
{
}

/// Numbers in a file of cursors begin with their lowest byte.
pub proof fn numbers_begin_with_the_lowest_byte(content: Seq<u8>, at: int)
    requires
        0 <= at,
        at + 4 <= content.len(),
    ensures
        number_at(content, at) == content[at] + 0x100 * (content[at + 1] + 0x100 * (content[at + 2]
            + 0x100 * content[at + 3])),
        0 <= number_at(content, at) <= 0xffff_ffff,
{
}

/// A file that claims too much for some room claims too much for less; one that
/// is too short to claim anything does not.
pub proof fn claims_grow_as_room_shrinks(content: Seq<u8>, each: int, room: int, less: int)
    requires
        less <= room,
    ensures
        is_oversized(content, each, room) ==> is_oversized(content, each, less),
        content.len() < 16 ==> !is_oversized(content, each, room),
        content.len() >= 16 && number_at(content, 12) * each > room ==> is_oversized(
            content,
            each,
            room,
        ),
{
    if is_oversized(content, each, room) && !(number_at(content, 12) * each > room) {
        let k = choose|k: int| #![trigger claims_too_much(content, k, room)]
            0 <= k < number_at(content, 12) && claims_too_much(content, k, room);
        assert(claims_too_much(content, k, less));
    }
}

/// A picture of 32767 by 32767 at most claims four bytes for each of its points.
pub proof fn pictures_claim_four_bytes_a_point(content: Seq<u8>, k: int, room: int)
    ensures
        ({
            let entry = number_at(content, 4) + 12 * k;
            let picture = number_at(content, entry + 8);
            let points = number_at(content, picture + 16) * number_at(content, picture + 20);
            &&& claims_too_much(content, k, room) ==> 4 * points > room
            &&& claims_too_much(content, k, room) ==> number_at(content, entry) == 0xfffd_0002
            &&& claims_too_much(content, k, room) ==> entry + 12 <= content.len() && picture + 24
                <= content.len()
            &&& entry + 12 <= content.len() && number_at(content, entry) == 0xfffd_0002 && picture
                + 24 <= content.len() && number_at(content, picture + 16) <= 32767 && number_at(
                content,
                picture + 20,
            ) <= 32767 && 4 * points > room ==> claims_too_much(content, k, room)
        }),
{
    let entry = number_at(content, 4) + 12 * k;
    let picture = number_at(content, entry + 8);
    let w = number_at(content, picture + 16);
    let h = number_at(content, picture + 20);
    assert(4 * w * h == 4 * (w * h)) by (nonlinear_arith);
}

/// The picture that is chosen is one of them, and none is closer to the size
/// that is asked for.
pub proof fn chosen_pictures_are_closest(
    images: Seq<BitmapView>,
    target: u32,
    image: BitmapView,
    j: int,
)
    requires
        is_choice(images, target, image),
        0 <= j < images.len(),
        target <= i32::MAX,
        image.size <= i32::MAX,
        images[j].size <= i32::MAX,
    ensures
        images.contains(image),
        images[j].size == target ==> image.size == target,
        image.size >= target && images[j].size >= target ==> image.size <= images[j].size,
        image.size <= target && images[j].size <= target ==> images[j].size <= image.size,
        image.size >= target && images[j].size <= target ==> image.size - target <= target
            - images[j].size,
        image.size <= target && images[j].size >= target ==> target - image.size
            <= images[j].size - target,
{
    let k = choose|k: int| #[trigger] is_closest(images, target, k) && images[k] == image;
    assert(off_by(images[k].size, target) <= off_by(images[j].size, target));
}

/// A round is as long as all its frames.
pub proof fn rounds_are_as_long_as_their_frames(delays: Seq<u32>, last: u32, total: u32, more: u32)
    requires
        has_total(delays, total),
        has_total(delays.push(last), more),
    ensures
        more == total + last,
        delays.len() == 0 ==> total == 0,
{
    earlier_frames_begin_alike(delays, last, delays.len());
}

proof fn earlier_frames_begin_alike(delays: Seq<u32>, last: u32, n: nat)
    requires
        n <= delays.len(),
    ensures
        time_of(delays.push(last), n) == time_of(delays, n),
    decreases n,
{
    if n > 0 {
        earlier_frames_begin_alike(delays, last, (n - 1) as nat);
    }
}

/// What is drawn before a window, or over a locked screen, is what there is.
pub proof fn pieces_are_drawn_where_there_are_any<T>(piece: T, pieces: Vec<T>)
    ensures
        crate::render::frame::pieces_of(Some(piece)) == seq![piece],
        crate::render::frame::pieces_of(None::<T>).len() == 0,
        crate::render::frame::lock_pieces(Some(pieces)) == pieces@,
        crate::render::frame::lock_pieces(None::<Vec<T>>).len() == 0,
{
}

/// Tiles begin at the start, a step apart, and go on until the end is reached
/// and no longer.
pub proof fn tiles_reach_the_end(start: int, end: int, step: int, k: int)
    requires
        step > 0,
        start < end,
    ensures
        ({
            let tiles = crate::render::background::tile_axis(start, end, step);
            let n = tiles.len();
            &&& 0 <= k < n ==> tiles[k] == start + k * step
            &&& start + n * step >= end
            &&& n > 0 && start + (n - 1) * step < end
        }),
{
    let v = end - start + step - 1;
    let n = v / step;
    assert(n * step <= v && v < n * step + step && n >= 1 && (n - 1) * step == n * step - step)
        by (nonlinear_arith)
        requires
            step > 0,
            v >= step,
            n == v / step,
    ;
}

} // verus!
