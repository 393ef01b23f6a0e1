//! Blurring what is behind a surface: what has to be blurred again, what lies
//! behind what, and where the result goes.

use crate::geometry::Size;
use crate::render::frame::{BlurLayer, BlurRequest, Prefixes};
use vstd::prelude::*;

verus! {

/// Counters of what has changed on the screen.
#[derive(Clone, Copy, Debug, PartialEq, Eq, Structural)]
pub struct Generations {
    /// What windows show.
    pub scene: u64,
    /// Where windows are.
    pub geometry: u64,
    /// Where the viewport is.
    pub camera: u64,
}

/// What is kept of a blurred surface.
#[derive(Clone, Copy, Debug, PartialEq, Eq, Structural)]
pub struct BlurCache {
    pub surface: u64,
    pub size: Size,
    /// Whether it has to be blurred again.
    pub dirty: bool,
    /// What the counters were when it was last looked at.
    pub last: Generations,
}

impl BlurCache {
    /// A surface that was never blurred.
    pub open spec fn fresh(surface: u64, size: Size) -> BlurCache {
        BlurCache {
            surface,
            size,
            dirty: true,
            last: Generations { scene: 0, geometry: 0, camera: 0 },
        }
    }

    /// What is kept once a surface has a size. Without memory for the new size
    /// the old one stays.
    pub open spec fn fitted(self, size: Size, allocated: bool) -> BlurCache {
        if self.size != size && allocated {
            BlurCache { size, dirty: true, ..self }
        } else {
            self
        }
    }

    /// What is kept once the counters were looked at. Surfaces of the screen
    /// do not move with the canvas, so that a moved viewport changes what is
    /// behind them.
    pub open spec fn aged(self, layer: BlurLayer, now: Generations) -> BlurCache {
        let on_screen = layer == BlurLayer::Overlay || layer == BlurLayer::Top;
        BlurCache {
            dirty: self.dirty || self.last.scene != now.scene || self.last.geometry != now.geometry
                || (on_screen && self.last.camera != now.camera),
            last: now,
            ..self
        }
    }

    /// A surface that was never blurred.
    pub fn new(surface: u64, size: Size) -> (r: BlurCache)
        ensures
            r == BlurCache::fresh(surface, size),
    {
        BlurCache {
            surface,
            size,
            dirty: true,
            last: Generations { scene: 0, geometry: 0, camera: 0 },
        }
    }

    /// Takes a new size, where there was memory for it.
    pub fn resize(&mut self, size: Size, allocated: bool)
        ensures
            *final(self) == old(self).fitted(size, allocated),
    {
        if (self.size.w != size.w || self.size.h != size.h) && allocated {
            self.size = size;
            self.dirty = true;
        }
    }
}

/// The place of the first entry of a surface, among the first `n`.
pub open spec fn entry_of(cache: Seq<BlurCache>, surface: u64, n: nat) -> Option<int>
    decreases n,
{
    if n == 0 {
        None
    } else {
        match entry_of(cache, surface, (n - 1) as nat) {
            Some(k) => Some(k),
            None => if cache[n - 1].surface == surface {
                Some(n - 1)
            } else {
                None
            },
        }
    }
}

proof fn entry_of_stays(cache: Seq<BlurCache>, surface: u64, n: nat, m: nat)
    requires
        n <= m,
        entry_of(cache, surface, n) is Some,
    ensures
        entry_of(cache, surface, m) == entry_of(cache, surface, n),
    decreases m,
{
    if n < m {
        entry_of_stays(cache, surface, n, (m - 1) as nat);
    }
}

/// Whether a surface has no size on the screen.
pub open spec fn sizeless(r: BlurRequest) -> bool {
    r.screen_rect.size.w <= 0 || r.screen_rect.size.h <= 0
}

/// The cache after a request was looked at, and whether the surface has to be
/// blurred again. `allocated` says whether there was memory where some was
/// needed.
pub open spec fn looked_at(
    cache: Seq<BlurCache>,
    r: BlurRequest,
    allocated: bool,
    now: Generations,
) -> (Seq<BlurCache>, bool) {
    let size = r.screen_rect.size;
    if sizeless(r) {
        (cache, false)
    } else {
        match entry_of(cache, r.surface, cache.len()) {
            Some(k) => {
                let after = cache[k].fitted(size, allocated).aged(r.layer, now);
                (cache.update(k, after), after.dirty)
            },
            None => if allocated {
                let after = BlurCache::fresh(r.surface, size).aged(r.layer, now);
                (cache.push(after), after.dirty)
            } else {
                (cache, false)
            },
        }
    }
}

fn find_entry(cache: &Vec<BlurCache>, surface: u64) -> (r: Option<usize>)
    ensures
        match r {
            Some(k) => k < cache@.len() && entry_of(cache@, surface, cache@.len()) == Some(k as int),
            None => entry_of(cache@, surface, cache@.len()) is None,
        },
{
    let mut i: usize = 0;
    while i < cache.len()
        invariant
            i <= cache@.len(),
            entry_of(cache@, surface, i as nat) is None,
        decreases cache.len() - i,
    {
        if cache[i].surface == surface {
            proof {
                entry_of_stays(cache@, surface, (i + 1) as nat, cache@.len());
            }
            return Some(i);
        }
        i += 1;
    }
    None
}

/// Whether a request needs memory: for a surface that was never blurred, or
/// one whose size has changed.
pub fn needs_allocation(cache: &Vec<BlurCache>, r: &BlurRequest) -> (needed: bool)
    ensures
        needed == (!sizeless(*r) && match entry_of(cache@, r.surface, cache@.len()) {
            Some(k) => cache@[k].size != r.screen_rect.size,
            None => true,
        }),
{
    if r.screen_rect.size.w <= 0 || r.screen_rect.size.h <= 0 {
        return false;
    }
    match find_entry(cache, r.surface) {
        Some(k) => cache[k].size.w != r.screen_rect.size.w || cache[k].size.h
            != r.screen_rect.size.h,
        None => true,
    }
}

/// Looks at a request. Returns whether its surface has to be blurred again.
pub fn look_at(cache: &mut Vec<BlurCache>, r: &BlurRequest, allocated: bool, now: Generations) -> (again:
    bool)
    ensures
        (final(cache)@, again) == looked_at(old(cache)@, *r, allocated, now),
{
    let size = r.screen_rect.size;
    if size.w <= 0 || size.h <= 0 {
        return false;
    }
    let on_screen = match r.layer {
        BlurLayer::Overlay | BlurLayer::Top => true,
        _ => false,
    };
    let (mut entry, place) = match find_entry(cache, r.surface) {
        Some(k) => (cache[k], Some(k)),
        None => {
            if !allocated {
                return false;
            }
            (BlurCache::new(r.surface, size), None)
        },
    };
    if place.is_some() {
        entry.resize(size, allocated);
    }
    if entry.last.scene != now.scene || entry.last.geometry != now.geometry || (on_screen
        && entry.last.camera != now.camera) {
        entry.dirty = true;
    }
    entry.last = now;
    let again = entry.dirty;
    match place {
        Some(k) => {
            cache.set(k, entry);
        },
        None => {
            cache.push(entry);
        },
    }
    again
}

/// Marks a surface as blurred.
pub fn mark_clean(cache: &mut Vec<BlurCache>, surface: u64)
    ensures
        final(cache)@ == match entry_of(old(cache)@, surface, old(cache)@.len()) {
            Some(k) => old(cache)@.update(k, BlurCache { dirty: false, ..old(cache)@[k] }),
            None => old(cache)@,
        },
{
    if let Some(k) = find_entry(cache, surface) {
        let mut entry = cache[k];
        entry.dirty = false;
        cache.set(k, entry);
    }
}

/// A surface that is still clean is not blurred again while nothing changes.
pub proof fn nothing_changed_nothing_blurred(
    cache: Seq<BlurCache>,
    r: BlurRequest,
    allocated: bool,
    now: Generations,
    k: int,
)
    requires
        entry_of(cache, r.surface, cache.len()) == Some(k),
        0 <= k < cache.len(),
        !cache[k].dirty,
        cache[k].last == now,
        cache[k].size == r.screen_rect.size,
    ensures
        !looked_at(cache, r, allocated, now).1,
{
}

/// Where the group of a request begins.
pub open spec fn prefix_of(p: Prefixes, layer: BlurLayer) -> usize {
    match layer {
        BlurLayer::Overlay => p.overlay,
        BlurLayer::Top => p.top,
        BlurLayer::Normal => p.normal,
        BlurLayer::Widget => p.widget,
    }
}

fn prefix(p: &Prefixes, layer: BlurLayer) -> (r: usize)
    ensures
        r == prefix_of(*p, layer),
{
    match layer {
        BlurLayer::Overlay => p.overlay,
        BlurLayer::Top => p.top,
        BlurLayer::Normal => p.normal,
        BlurLayer::Widget => p.widget,
    }
}

/// The first piece behind a surface in a frame of some length.
pub open spec fn behind(p: Prefixes, r: BlurRequest, len: int) -> int {
    let at = prefix_of(p, r.layer) + r.elem_start + r.elem_count;
    if at < len {
        at
    } else {
        len
    }
}

/// A request whose pieces can be counted.
pub open spec fn countable(p: Prefixes, r: BlurRequest) -> bool {
    prefix_of(p, r.layer) + r.elem_start + r.elem_count <= usize::MAX
}

/// One surface to blur.
#[derive(Clone, Copy, Debug, PartialEq, Eq, Structural)]
pub struct BlurStep {
    /// Its place among the requests.
    pub request: usize,
    /// The first piece behind it.
    pub behind: usize,
    /// Whether what is behind it has to be drawn, or is there from the step
    /// before.
    pub draw_behind: bool,
    /// Its own pieces: from here to `behind`.
    pub own_start: usize,
}

/// The depth that was drawn last, after some steps.
pub open spec fn last_depth(steps: Seq<BlurStep>) -> Option<usize> {
    if steps.len() == 0 {
        None
    } else {
        Some(steps.last().behind)
    }
}

/// The surfaces to blur among the first `n` requests, top first. What is
/// behind a surface is drawn once for all that lie at one depth.
pub open spec fn blur_steps(
    p: Prefixes,
    requests: Seq<BlurRequest>,
    again: Seq<bool>,
    len: int,
    n: nat,
) -> Seq<BlurStep>
    decreases n,
{
    if n == 0 {
        seq![]
    } else {
        let before = blur_steps(p, requests, again, len, (n - 1) as nat);
        let r = requests[n - 1];
        if again[n - 1] && !sizeless(r) {
            let depth = behind(p, r, len) as usize;
            before.push(
                BlurStep {
                    request: (n - 1) as usize,
                    behind: depth,
                    draw_behind: last_depth(before) != Some(depth),
                    own_start: (prefix_of(p, r.layer) + r.elem_start) as usize,
                },
            )
        } else {
            before
        }
    }
}

/// Plans the blurring of a frame of some length. `again` says of each request
/// whether its surface has to be blurred again.
pub fn plan_blur(p: &Prefixes, requests: &Vec<BlurRequest>, again: &Vec<bool>, len: usize) -> (r: Vec<
    BlurStep,
>)
    requires
        again@.len() == requests@.len(),
        forall|k: int| 0 <= k < requests@.len() ==> countable(*p, #[trigger] requests@[k]),
    ensures
        r@ == blur_steps(*p, requests@, again@, len as int, requests@.len()),
{
    let mut steps: Vec<BlurStep> = Vec::new();
    let mut drawn: Option<usize> = None;
    let mut i: usize = 0;
    while i < requests.len()
        invariant
            i <= requests@.len(),
            again@.len() == requests@.len(),
            forall|k: int| 0 <= k < requests@.len() ==> countable(*p, #[trigger] requests@[k]),
            steps@ == blur_steps(*p, requests@, again@, len as int, i as nat),
            drawn == last_depth(steps@),
        decreases requests.len() - i,
    {
        let r = requests[i];
        assert(countable(*p, requests@[i as int]));
        if again[i] && r.screen_rect.size.w > 0 && r.screen_rect.size.h > 0 {
            let own_start: usize = prefix(p, r.layer) + r.elem_start;
            let at: usize = own_start + r.elem_count;
            let depth: usize = if at < len {
                at
            } else {
                len
            };
            let draw_behind = match drawn {
                Some(d) => d != depth,
                None => true,
            };
            steps.push(BlurStep { request: i, behind: depth, draw_behind, own_start });
            drawn = Some(depth);
        }
        i += 1;
    }
    steps
}

/// A frame after the first `n` blurred pieces were put in. Each goes behind
/// the pieces of its surface; those that were put in before push it back.
pub open spec fn with_blurs<T>(elements: Seq<T>, places: Seq<int>, blurs: Seq<T>, n: nat) -> Seq<T>
    decreases n,
{
    if n == 0 {
        elements
    } else {
        let before = with_blurs(elements, places, blurs, (n - 1) as nat);
        let at = places[n - 1] + (n - 1);
        before.insert(
            if at < before.len() {
                at
            } else {
                before.len() as int
            },
            blurs[n - 1],
        )
    }
}

/// Where the blurred pieces of some requests go.
pub open spec fn blur_places(p: Prefixes, requests: Seq<BlurRequest>) -> Seq<int> {
    requests.map_values(
        |r: BlurRequest| (prefix_of(p, r.layer) + r.elem_start + r.elem_count) as int,
    )
}

/// Puts blurred pieces into a frame, each behind the pieces of its surface.
/// The requests are those that have a blurred piece, top first.
pub fn insert_blurs<T>(elements: &mut Vec<T>, p: &Prefixes, requests: &Vec<BlurRequest>, blurs: Vec<T>)
    requires
        requests@.len() == blurs@.len(),
        forall|k: int|
            0 <= k < requests@.len() ==> prefix_of(*p, (#[trigger] requests@[k]).layer)
                + requests@[k].elem_start + requests@[k].elem_count + requests@.len() <= usize::MAX,
    ensures
        final(elements)@ == with_blurs(
            old(elements)@,
            blur_places(*p, requests@),
            blurs@,
            blurs@.len(),
        ),
{
    let ghost all = blurs@;
    let ghost places = blur_places(*p, requests@);
    let mut rest = blurs;
    let mut shift: usize = 0;
    while rest.len() > 0
        invariant
            shift <= all.len(),
            all.len() == requests@.len(),
            rest@ == all.skip(shift as int),
            places == blur_places(*p, requests@),
            forall|k: int|
                0 <= k < requests@.len() ==> prefix_of(*p, (#[trigger] requests@[k]).layer)
                    + requests@[k].elem_start + requests@[k].elem_count + requests@.len()
                    <= usize::MAX,
            elements@ == with_blurs(old(elements)@, places, all, shift as nat),
        decreases rest.len(),
    {
        let blur = rest.remove(0);
        let r = requests[shift];
        assert(requests@[shift as int] == r);
        assert(places[shift as int] == prefix_of(*p, r.layer) + r.elem_start + r.elem_count);
        let at: usize = prefix(p, r.layer) + r.elem_start + r.elem_count + shift;
        if at < elements.len() {
            elements.insert(at, blur);
        } else {
            elements.push(blur);
            assert(elements@ =~= with_blurs(old(elements)@, places, all, shift as nat).insert(
                with_blurs(old(elements)@, places, all, shift as nat).len() as int,
                all[shift as int],
            ));
        }
        shift += 1;
        assert(rest@ =~= all.skip(shift as int));
    }
}

/// How many of the first `n` places are at or before a position.
pub open spec fn places_before(places: Seq<int>, at: int, n: nat) -> int
    decreases n,
{
    if n == 0 {
        0
    } else {
        places_before(places, at, (n - 1) as nat) + if places[n - 1] <= at {
            1int
        } else {
            0int
        }
    }
}

/// Whether places are in the frame and in order.
pub open spec fn in_order(places: Seq<int>, len: int) -> bool {
    &&& forall|i: int| 0 <= i < places.len() ==> 0 <= #[trigger] places[i] <= len
    &&& forall|i: int, j: int| 0 <= i <= j < places.len() ==> places[i] <= places[j]
}

proof fn places_before_all(places: Seq<int>, at: int, n: nat)
    requires
        n <= places.len(),
        forall|i: int| 0 <= i < n ==> places[i] <= at,
    ensures
        places_before(places, at, n) == n,
    decreases n,
{
    if n > 0 {
        places_before_all(places, at, (n - 1) as nat);
    }
}

proof fn places_before_bounded(places: Seq<int>, at: int, n: nat)
    ensures
        0 <= places_before(places, at, n) <= n,
    decreases n,
{
    if n > 0 {
        places_before_bounded(places, at, (n - 1) as nat);
    }
}

/// Blurred pieces lie directly behind the pieces of their surfaces, and every
/// other piece is still there, in the same order.
pub proof fn blurs_lie_behind_their_surfaces<T>(
    elements: Seq<T>,
    places: Seq<int>,
    blurs: Seq<T>,
    n: nat,
    i: int,
    j: int,
)
    requires
        n <= places.len(),
        n <= blurs.len(),
        in_order(places, elements.len() as int),
    ensures
        with_blurs(elements, places, blurs, n).len() == elements.len() + n,
        0 <= i < n ==> with_blurs(elements, places, blurs, n)[places[i] + i] == blurs[i],
        0 <= j < elements.len() ==> with_blurs(elements, places, blurs, n)[j + places_before(
            places,
            j,
            n,
        )] == elements[j],
    decreases n,
{
    if n > 0 {
        let m = (n - 1) as nat;
        blurs_lie_behind_their_surfaces(elements, places, blurs, m, i, j);
        let before = with_blurs(elements, places, blurs, m);
        let at = places[m as int] + m;
        assert(0 <= places[m as int] <= elements.len());
        assert(at <= before.len());
        if 0 <= i < m {
            assert(places[i] <= places[m as int]);
        }
        if 0 <= j < elements.len() {
            places_before_bounded(places, j, m);
            if places[m as int] <= j {
                assert forall|k: int| 0 <= k < m implies places[k] <= j by {
                    assert(places[k] <= places[m as int]);
                }
                places_before_all(places, j, m);
            }
        }
    }
}

/// The entries of surfaces that are still blurred.
pub open spec fn still_blurred(cache: Seq<BlurCache>, requests: Seq<BlurRequest>) -> Seq<BlurCache>
    decreases cache.len(),
{
    if cache.len() == 0 {
        seq![]
    } else {
        let before = still_blurred(cache.drop_last(), requests);
        if asks_for(requests, cache.last().surface) {
            before.push(cache.last())
        } else {
            before
        }
    }
}

/// Whether one of the requests is of a surface.
pub open spec fn asks_for(requests: Seq<BlurRequest>, surface: u64) -> bool {
    exists|k: int| 0 <= k < requests.len() && (#[trigger] requests[k]).surface == surface
}

fn is_asked_for(requests: &Vec<BlurRequest>, surface: u64) -> (r: bool)
    ensures
        r == asks_for(requests@, surface),
{
    let mut i: usize = 0;
    while i < requests.len()
        invariant
            i <= requests@.len(),
            forall|k: int| 0 <= k < i ==> (#[trigger] requests@[k]).surface != surface,
        decreases requests.len() - i,
    {
        if requests[i].surface == surface {
            assert(requests@[i as int].surface == surface);
            return true;
        }
        i += 1;
    }
    false
}

/// Forgets the surfaces that are not blurred any more.
pub fn prune(cache: &mut Vec<BlurCache>, requests: &Vec<BlurRequest>)
    ensures
        final(cache)@ == still_blurred(old(cache)@, requests@),
{
    let mut kept: Vec<BlurCache> = Vec::new();
    let mut i: usize = 0;
    while i < cache.len()
        invariant
            i <= cache@.len(),
            cache@ == old(cache)@,
            kept@ == still_blurred(cache@.take(i as int), requests@),
        decreases cache.len() - i,
    {
        assert(cache@.take(i + 1).drop_last() =~= cache@.take(i as int));
        let entry = cache[i];
        if is_asked_for(requests, entry.surface) {
            kept.push(entry);
        }
        i += 1;
    }
    assert(cache@.take(i as int) =~= cache@);
    *cache = kept;
}

/// A length after some halvings, never below one.
pub open spec fn shrunk(length: int, times: nat) -> int {
    let v = halved(length, times);
    if v < 1 {
        1
    } else {
        v
    }
}

/// A length after some halvings, rounded down.
pub open spec fn halved(length: int, times: nat) -> int
    decreases times,
{
    if times == 0 {
        length
    } else {
        halved(length, (times - 1) as nat) / 2
    }
}

fn shrink(length: i32, times: usize) -> (r: i32)
    requires
        length >= 0,
    ensures
        r == shrunk(length as int, times as nat),
{
    let mut v: i32 = length;
    let mut i: usize = 0;
    while i < times
        invariant
            i <= times,
            0 <= v,
            v == halved(length as int, i as nat),
        decreases times - i,
    {
        v = v / 2;
        i += 1;
    }
    if v < 1 {
        1
    } else {
        v
    }
}

/// How often the source and the target of a pass are halved. The picture is
/// made smaller pass by pass and then larger again.
pub open spec fn pass_shifts(i: int, passes: int, downscale: bool) -> (int, int) {
    if downscale {
        (i, i + 1)
    } else {
        (passes - i, passes - i - 1)
    }
}

/// The sizes of the source and the target of a pass.
pub fn blur_pass_sizes(size: Size, i: usize, passes: usize, downscale: bool) -> (r: (Size, Size))
    requires
        size.w >= 0,
        size.h >= 0,
        i < passes,
    ensures
        ({
            let (src, dst) = pass_shifts(i as int, passes as int, downscale);
            &&& r.0.w == shrunk(size.w as int, src as nat)
            &&& r.0.h == shrunk(size.h as int, src as nat)
            &&& r.1.w == shrunk(size.w as int, dst as nat)
            &&& r.1.h == shrunk(size.h as int, dst as nat)
        }),
{
    let (src, dst): (usize, usize) = if downscale {
        (i, i + 1)
    } else {
        (passes - i, passes - i - 1)
    };
    (
        Size { w: shrink(size.w, src), h: shrink(size.h, src) },
        Size { w: shrink(size.w, dst), h: shrink(size.h, dst) },
    )
}

/// Every pass goes on where the one before it ended, the first begins at the
/// full size and the last ends there.
pub proof fn passes_fit_together(i: int, passes: int)
    requires
        0 <= i < passes,
    ensures
        pass_shifts(0, passes, true).0 == 0,
        i + 1 < passes ==> pass_shifts(i, passes, true).1 == pass_shifts(i + 1, passes, true).0,
        pass_shifts(passes - 1, passes, true).1 == pass_shifts(0, passes, false).0,
        i + 1 < passes ==> pass_shifts(i, passes, false).1 == pass_shifts(i + 1, passes, false).0,
        pass_shifts(passes - 1, passes, false).1 == 0,
{
}

} // verus!
