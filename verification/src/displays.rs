//! Displays that come and go, and the frames that they are owed.
//!
//! Each display is driven by a display controller. Controllers and outputs are
//! known by number.

use crate::config::types::Transform;
use crate::desk::retain_others;
use crate::gestures::Gestures;
use crate::geometry::Point;
use crate::text::same_text;
use std::collections::HashSet;
use vstd::prelude::*;

verus! {

use crate::desk::{without, without_holds_the_others};
use crate::gestures::GesturesView;

broadcast use vstd::std_specs::hash::group_hash_axioms;

/// A search for a graphics card that can be used.
#[derive(Clone, Copy, Debug, PartialEq, Eq, Structural)]
pub struct GpuSearch {
    pub candidates: usize,
    /// The one that is being tried.
    pub at: usize,
}

/// What follows a trial of a card.
#[derive(Clone, Copy, Debug, PartialEq, Eq, Structural)]
pub enum SearchStep {
    /// The card at this place is used.
    Use(usize),
    /// The card at this place is tried.
    Try(usize),
    /// No card can be used.
    GiveUp,
}

impl GpuSearch {
    /// Starts a search with the first card. There is none without cards.
    pub fn new(candidates: usize) -> (r: Option<GpuSearch>)
        ensures
            r == if candidates == 0 {
                None
            } else {
                Some(GpuSearch { candidates, at: 0 })
            },
    {
        if candidates == 0 {
            None
        } else {
            Some(GpuSearch { candidates, at: 0 })
        }
    }

    /// Takes the result of a trial. Cards are tried in order until one has a
    /// display and can be set up.
    pub fn report(&mut self, usable: bool) -> (r: SearchStep)
        requires
            old(self).at < old(self).candidates,
        ensures
            r == if usable {
                SearchStep::Use(old(self).at)
            } else if old(self).at + 1 < old(self).candidates {
                SearchStep::Try((old(self).at + 1) as usize)
            } else {
                SearchStep::GiveUp
            },
            final(self).candidates == old(self).candidates,
            final(self).at == match r {
                SearchStep::Try(k) => k,
                _ => old(self).at,
            },
    {
        if usable {
            SearchStep::Use(self.at)
        } else if self.at + 1 < self.candidates {
            self.at += 1;
            SearchStep::Try(self.at)
        } else {
            SearchStep::GiveUp
        }
    }
}

/// The displays.
pub struct Displays {
    /// Controllers with the outputs that they drive.
    pub surfaces: Vec<(u64, u64)>,
    /// Outputs on the canvas, in the order in which they came.
    pub mapped: Vec<u64>,
    /// Outputs that are kept without a display.
    pub disconnected: Vec<u64>,
    pub focused: Option<u64>,
    /// Controllers that show a frame that was handed to them.
    pub frames_pending: HashSet<u64>,
    /// Controllers that need a new frame.
    pub redraws_needed: HashSet<u64>,
}

/// The displays, as sequences and sets.
#[verifier::ext_equal]
pub struct DisplaysView {
    pub surfaces: Seq<(u64, u64)>,
    pub mapped: Seq<u64>,
    pub disconnected: Seq<u64>,
    pub focused: Option<u64>,
    pub frames_pending: Set<u64>,
    pub redraws_needed: Set<u64>,
}

impl View for Displays {
    type V = DisplaysView;

    open spec fn view(&self) -> DisplaysView {
        DisplaysView {
            surfaces: self.surfaces@,
            mapped: self.mapped@,
            disconnected: self.disconnected@,
            focused: self.focused,
            frames_pending: self.frames_pending@,
            redraws_needed: self.redraws_needed@,
        }
    }
}

impl DisplaysView {
    /// Whether a controller drives the output at a place.
    pub open spec fn drives(self, crtc: u64, k: int) -> bool {
        0 <= k < self.surfaces.len() && self.surfaces[k].0 == crtc
    }

    /// Whether a controller drives an output.
    pub open spec fn drives_any(self, crtc: u64) -> bool {
        exists|k: int| self.drives(crtc, k)
    }

    /// A controller drives one output, an output has one controller, and what
    /// is driven is on the canvas and not kept without a display.
    pub open spec fn wf(self) -> bool {
        &&& forall|i: int, j: int|
            0 <= i < j < self.surfaces.len() ==> (#[trigger] self.surfaces[i]).0 != (
            #[trigger] self.surfaces[j]).0
        &&& forall|i: int, j: int|
            0 <= i < j < self.surfaces.len() ==> (#[trigger] self.surfaces[i]).1 != (
            #[trigger] self.surfaces[j]).1
        &&& forall|i: int|
            0 <= i < self.surfaces.len() ==> self.mapped.contains((#[trigger] self.surfaces[i]).1)
        &&& forall|i: int|
            0 <= i < self.surfaces.len() ==> !self.disconnected.contains(
                (#[trigger] self.surfaces[i]).1,
            )
    }
}

/// The outputs that are, or are not, among some others.
pub open spec fn sifted(list: Seq<u64>, among: Seq<u64>, inside: bool) -> Seq<u64>
    decreases list.len(),
{
    if list.len() == 0 {
        seq![]
    } else {
        let before = sifted(list.drop_last(), among, inside);
        if among.contains(list.last()) == inside {
            before.push(list.last())
        } else {
            before
        }
    }
}

/// Sifting keeps exactly the outputs that it is meant to keep.
pub proof fn sifted_holds(list: Seq<u64>, among: Seq<u64>, inside: bool, w: u64)
    ensures
        sifted(list, among, inside).contains(w) <==> list.contains(w) && among.contains(w) == inside,
    decreases list.len(),
{
    if list.len() > 0 {
        let front = list.drop_last();
        sifted_holds(front, among, inside, w);
        let before = sifted(front, among, inside);
        let after = sifted(list, among, inside);
        if front.contains(w) {
            let k = choose|k: int| 0 <= k < front.len() && front[k] == w;
            assert(list[k] == w);
        }
        if list.contains(w) && list.last() != w {
            let k = choose|k: int| 0 <= k < list.len() && list[k] == w;
            assert(front[k] == w);
        }
        if list.last() == w {
            assert(list[list.len() - 1] == w);
        }
        if among.contains(list.last()) == inside {
            assert(after[before.len() as int] == list.last());
            if before.contains(w) {
                let k = choose|k: int| 0 <= k < before.len() && before[k] == w;
                assert(after[k] == w);
            }
            if after.contains(w) && w != list.last() {
                let k = choose|k: int| 0 <= k < after.len() && after[k] == w;
                assert(before[k] == w);
            }
        }
    }
}

fn holds(list: &Vec<u64>, w: u64) -> (r: bool)
    ensures
        r == list@.contains(w),
{
    let mut i: usize = 0;
    while i < list.len()
        invariant
            i <= list@.len(),
            forall|j: int| 0 <= j < i ==> list@[j] != w,
        decreases list.len() - i,
    {
        if list[i] == w {
            assert(list@[i as int] == w);
            return true;
        }
        i += 1;
    }
    false
}

fn sift(list: &Vec<u64>, among: &Vec<u64>, inside: bool) -> (r: Vec<u64>)
    ensures
        r@ == sifted(list@, among@, inside),
{
    let mut kept: Vec<u64> = Vec::new();
    let mut i: usize = 0;
    while i < list.len()
        invariant
            i <= list@.len(),
            kept@ == sifted(list@.take(i as int), among@, inside),
        decreases list.len() - i,
    {
        assert(list@.take(i + 1).drop_last() =~= list@.take(i as int));
        if holds(among, list[i]) == inside {
            kept.push(list[i]);
        }
        i += 1;
    }
    assert(list@.take(i as int) =~= list@);
    kept
}

/// What becomes of a display that was connected.
#[derive(Debug)]
pub enum Connect {
    /// Its controller drives an output already.
    Known,
    /// An output is to be created for it, after these have left the canvas.
    Create(Vec<u64>),
}

/// What becomes of a display that was disconnected.
#[derive(Clone, Copy, Debug, PartialEq, Eq)]
pub enum Disconnect {
    /// Its controller drove nothing.
    Unknown,
    /// It was the last one: its output stays on the canvas.
    Last(u64),
    /// Its output has left the canvas.
    Gone {
        output: u64,
        /// Whether the focus was on it and has moved.
        refocused: bool,
    },
}

impl Displays {
    /// No display is there.
    pub fn new() -> (r: Displays)
        ensures
            r@ == (DisplaysView {
                surfaces: seq![],
                mapped: seq![],
                disconnected: seq![],
                focused: None,
                frames_pending: Set::empty(),
                redraws_needed: Set::empty(),
            }),
            r@.wf(),
    {
        Displays {
            surfaces: Vec::new(),
            mapped: Vec::new(),
            disconnected: Vec::new(),
            focused: None,
            frames_pending: HashSet::new(),
            redraws_needed: HashSet::new(),
        }
    }

    fn place_of(&self, crtc: u64) -> (r: Option<usize>)
        ensures
            match r {
                Some(k) => self@.drives(crtc, k as int) && forall|j: int|
                    0 <= j < k ==> (#[trigger] self.surfaces@[j]).0 != crtc,
                None => !self@.drives_any(crtc),
            },
    {
        let mut i: usize = 0;
        while i < self.surfaces.len()
            invariant
                i <= self.surfaces@.len(),
                forall|j: int| 0 <= j < i ==> (#[trigger] self.surfaces@[j]).0 != crtc,
            decreases self.surfaces.len() - i,
        {
            if self.surfaces[i].0 == crtc {
                assert(self@.drives(crtc, i as int));
                return Some(i);
            }
            i += 1;
        }
        assert forall|k: int| !self@.drives(crtc, k) by {
            if 0 <= k < self.surfaces@.len() {
                assert(self.surfaces@[k].0 != crtc);
            }
        }
        None
    }

    /// Takes a display that was connected. Outputs that were kept without a
    /// display make room for it.
    pub fn connect(&mut self, crtc: u64) -> (r: Connect)
        requires
            old(self)@.wf(),
        ensures
            ({
                let before = old(self)@;
                if before.drives_any(crtc) {
                    r is Known && final(self)@ == before
                } else if before.disconnected.len() == 0 {
                    r matches Connect::Create(gone) && gone@ == Seq::<u64>::empty() && final(self)@
                        == before
                } else {
                    r matches Connect::Create(gone) && gone@ == sifted(
                        before.mapped,
                        before.disconnected,
                        true,
                    ) && final(self)@ == (DisplaysView {
                        mapped: sifted(before.mapped, before.disconnected, false),
                        disconnected: seq![],
                        focused: None,
                        ..before
                    })
                }
            }),
            final(self)@.wf(),
    {
        if self.place_of(crtc).is_some() {
            return Connect::Known;
        }
        if self.disconnected.len() == 0 {
            return Connect::Create(Vec::new());
        }
        let gone = sift(&self.mapped, &self.disconnected, true);
        let kept = sift(&self.mapped, &self.disconnected, false);
        proof {
            let before = self@;
            assert forall|i: int| 0 <= i < before.surfaces.len() implies kept@.contains(
                (#[trigger] before.surfaces[i]).1,
            ) by {
                sifted_holds(before.mapped, before.disconnected, false, before.surfaces[i].1);
            }
        }
        self.mapped = kept;
        self.disconnected = Vec::new();
        self.focused = None;
        assert(self.disconnected@ =~= seq![]);
        Connect::Create(gone)
    }

    /// Takes the output that was created for a display. The first one gets the
    /// focus; then it returns true, and the pointer goes there.
    pub fn created(&mut self, crtc: u64, output: u64) -> (r: bool)
        requires
            old(self)@.wf(),
            !old(self)@.drives_any(crtc),
            !old(self)@.mapped.contains(output),
            !old(self)@.disconnected.contains(output),
        ensures
            r == (old(self)@.focused is None),
            final(self)@ == (DisplaysView {
                surfaces: old(self)@.surfaces.push((crtc, output)),
                mapped: old(self)@.mapped.push(output),
                focused: if r {
                    Some(output)
                } else {
                    old(self)@.focused
                },
                ..old(self)@
            }),
            final(self)@.wf(),
            final(self)@.mapped.len() > 0,
    {
        proof {
            let before = self@;
            assert forall|i: int| 0 <= i < before.surfaces.len() implies (
            #[trigger] before.surfaces[i]).0 != crtc by {
                assert(!before.drives(crtc, i));
            }
            let mapped = before.mapped.push(output);
            assert forall|i: int| 0 <= i < before.surfaces.len() implies mapped.contains(
                (#[trigger] before.surfaces[i]).1,
            ) && before.surfaces[i].1 != output by {
                let w = before.surfaces[i].1;
                let k = choose|k: int| 0 <= k < before.mapped.len() && before.mapped[k] == w;
                assert(mapped[k] == w);
            }
            assert(mapped[before.mapped.len() as int] == output);
        }
        self.surfaces.push((crtc, output));
        self.mapped.push(output);
        if self.focused.is_none() {
            self.focused = Some(output);
            true
        } else {
            false
        }
    }

    /// Takes a display that was disconnected. The last output stays on the
    /// canvas, so that there is always one to turn to; a gesture on an output
    /// that leaves ends.
    pub fn disconnect<Z>(&mut self, gestures: &mut Gestures<Z>, crtc: u64) -> (r: Disconnect)
        requires
            old(self)@.wf(),
        ensures
            disconnected(old(self)@, old(gestures)@, crtc, final(self)@, final(gestures)@, r),
            final(self)@.wf(),
            r !is Unknown ==> final(self)@.mapped.len() > 0,
            !final(self)@.drives_any(crtc),
    {
        self.frames_pending.remove(&crtc);
        self.redraws_needed.remove(&crtc);
        let k: usize = match self.place_of(crtc) {
            Some(k) => k,
            None => {
                assert(self@.surfaces == old(self)@.surfaces);
                assert forall|k: int| !old(self)@.drives(crtc, k) by {
                    assert(!self@.drives(crtc, k));
                }
                return Disconnect::Unknown;
            },
        };
        let ghost before = self@;
        let (_, output) = self.surfaces[k];
        self.surfaces.remove(k);
        proof {
            let after = self.surfaces@;
            assert(after =~= before.surfaces.remove(k as int));
            assert(before.surfaces[k as int].1 == output);
            assert forall|i: int| 0 <= i < after.len() implies (#[trigger] after[i]).1 != output
                && after[i].0 != crtc && before.mapped.contains(after[i].1)
                && !before.disconnected.contains(after[i].1) by {
                if i < k {
                    assert(after[i] == before.surfaces[i]);
                } else {
                    assert(after[i] == before.surfaces[i + 1]);
                }
            }
            assert forall|i: int, j: int| 0 <= i < j < after.len() implies (#[trigger] after[i]).0
                != (#[trigger] after[j]).0 && after[i].1 != after[j].1 by {
                let a = if i < k {
                    i
                } else {
                    i + 1
                };
                let b = if j < k {
                    j
                } else {
                    j + 1
                };
                assert(after[i] == before.surfaces[a]);
                assert(after[j] == before.surfaces[b]);
            }
        }
        if self.surfaces.len() == 0 {
            proof {
                assert(before.mapped.contains(output));
            }
            self.disconnected.push(output);
            assert(old(self)@.surfaces =~= seq![(crtc, output)]);
            assert(self.surfaces@ =~= Seq::<(u64, u64)>::empty());
            return Disconnect::Last(output);
        }
        proof {
            let after = self.surfaces@;
            assert forall|i: int| 0 <= i < after.len() implies without(
                before.mapped,
                output,
            ).contains((#[trigger] after[i]).1) by {
                without_holds_the_others(before.mapped, output, after[i].1);
            }
            assert(without(before.mapped, output).contains(after[0].1));
        }
        retain_others(&mut self.mapped, output);
        let refocused = match self.focused {
            Some(f) => f == output,
            None => false,
        };
        if refocused {
            self.focused =
            if self.mapped.len() > 0 {
                Some(self.mapped[0])
            } else {
                None
            };
        }
        let on_it = match gestures.output {
            Some(g) => g == output,
            None => false,
        };
        if on_it {
            gestures.output = None;
            gestures.state = None;
        }
        assert(old(self)@.drives(crtc, k as int));
        Disconnect::Gone { output, refocused }
    }

    /// Takes a frame that has been shown. Returns whether the next one is
    /// rendered now.
    pub fn vblank(&mut self, crtc: u64) -> (r: bool)
        ensures
            r == (old(self)@.drives_any(crtc) && old(self)@.redraws_needed.contains(crtc)),
            final(self)@ == (DisplaysView {
                frames_pending: if old(self)@.drives_any(crtc) {
                    old(self)@.frames_pending.remove(crtc)
                } else {
                    old(self)@.frames_pending
                },
                ..old(self)@
            }),
    {
        if self.place_of(crtc).is_none() {
            return false;
        }
        self.frames_pending.remove(&crtc);
        self.redraws_needed.contains(&crtc)
    }

    /// Takes the return to this session: no frame from before will be shown,
    /// and every controller is rendered.
    pub fn resume(&mut self) -> (r: Vec<u64>)
        ensures
            final(self)@ == (DisplaysView { frames_pending: Set::empty(), ..old(self)@ }),
            r@ == old(self)@.surfaces.map_values(|s: (u64, u64)| s.0),
    {
        self.frames_pending = HashSet::new();
        let mut all: Vec<u64> = Vec::new();
        let mut i: usize = 0;
        while i < self.surfaces.len()
            invariant
                i <= self.surfaces@.len(),
                all@.len() == i,
                forall|j: int| 0 <= j < i ==> #[trigger] all@[j] == self.surfaces@[j].0,
            decreases self.surfaces.len() - i,
        {
            all.push(self.surfaces[i].0);
            i += 1;
        }
        assert(all@ =~= self.surfaces@.map_values(|s: (u64, u64)| s.0));
        all
    }

    /// Asks for a new frame on every controller.
    pub fn mark_all_dirty(&mut self)
        ensures
            final(self)@ == (DisplaysView {
                redraws_needed: marked(old(self)@, old(self)@.surfaces.len(), seq![], true),
                ..old(self)@
            }),
    {
        let none: Vec<u64> = Vec::new();
        self.mark(&none, true);
        assert(none@ =~= seq![]);
    }

    fn mark(&mut self, animated: &Vec<u64>, everything: bool)
        ensures
            final(self)@ == (DisplaysView {
                redraws_needed: marked(
                    old(self)@,
                    old(self)@.surfaces.len(),
                    animated@,
                    everything,
                ),
                ..old(self)@
            }),
    {
        let mut i: usize = 0;
        while i < self.surfaces.len()
            invariant
                i <= self.surfaces@.len(),
                self@ == (DisplaysView {
                    redraws_needed: marked(old(self)@, i as nat, animated@, everything),
                    ..old(self)@
                }),
            decreases self.surfaces.len() - i,
        {
            let (crtc, output) = self.surfaces[i];
            if everything || holds(animated, output) {
                self.redraws_needed.insert(crtc);
            }
            i += 1;
        }
    }

    /// The controllers to render now: those that need a frame and do not still
    /// show one that was handed to them. Outputs that are animated need one,
    /// and every output does while something moves that is on all of them.
    pub fn render_if_needed(&mut self, animated: &Vec<u64>, everything: bool) -> (r: Vec<u64>)
        ensures
            final(self)@ == (DisplaysView {
                redraws_needed: marked(
                    old(self)@,
                    old(self)@.surfaces.len(),
                    animated@,
                    everything,
                ),
                ..old(self)@
            }),
            r@ == due(final(self)@, final(self)@.surfaces.len()),
    {
        self.mark(animated, everything);
        let mut list: Vec<u64> = Vec::new();
        let mut i: usize = 0;
        while i < self.surfaces.len()
            invariant
                i <= self.surfaces@.len(),
                list@ == due(self@, i as nat),
            decreases self.surfaces.len() - i,
        {
            let (crtc, _) = self.surfaces[i];
            if self.redraws_needed.contains(&crtc) && !self.frames_pending.contains(&crtc) {
                list.push(crtc);
            }
            i += 1;
        }
        list
    }

    /// Takes a frame that was rendered. `queued` says whether the controller
    /// has taken it.
    pub fn rendered(&mut self, crtc: u64, queued: bool)
        ensures
            final(self)@ == (DisplaysView {
                redraws_needed: old(self)@.redraws_needed.remove(crtc),
                frames_pending: if queued {
                    old(self)@.frames_pending.insert(crtc)
                } else {
                    old(self)@.frames_pending
                },
                ..old(self)@
            }),
    {
        self.redraws_needed.remove(&crtc);
        if queued {
            self.frames_pending.insert(crtc);
        }
    }
}

/// The controllers that need a frame after the first `n` were looked at.
pub open spec fn marked(d: DisplaysView, n: nat, animated: Seq<u64>, everything: bool) -> Set<u64>
    decreases n,
{
    if n == 0 {
        d.redraws_needed
    } else {
        let before = marked(d, (n - 1) as nat, animated, everything);
        if everything || animated.contains(d.surfaces[n - 1].1) {
            before.insert(d.surfaces[n - 1].0)
        } else {
            before
        }
    }
}

/// The controllers to render, among the first `n`.
pub open spec fn due(d: DisplaysView, n: nat) -> Seq<u64>
    decreases n,
{
    if n == 0 {
        seq![]
    } else {
        let before = due(d, (n - 1) as nat);
        let crtc = d.surfaces[n - 1].0;
        if d.redraws_needed.contains(crtc) && !d.frames_pending.contains(crtc) {
            before.push(crtc)
        } else {
            before
        }
    }
}

/// How a disconnected display changes what is there, and the answer.
pub open spec fn disconnected<Z>(
    before: DisplaysView,
    gestures: GesturesView<Z>,
    crtc: u64,
    after: DisplaysView,
    gestures_after: GesturesView<Z>,
    r: Disconnect,
) -> bool {
    &&& after.frames_pending == before.frames_pending.remove(crtc)
    &&& after.redraws_needed == before.redraws_needed.remove(crtc)
    &&& match r {
        Disconnect::Unknown => {
            &&& !before.drives_any(crtc)
            &&& after.surfaces == before.surfaces
            &&& after.mapped == before.mapped
            &&& after.disconnected == before.disconnected
            &&& after.focused == before.focused
            &&& gestures_after == gestures
        },
        Disconnect::Last(output) => {
            &&& before.surfaces == seq![(crtc, output)]
            &&& after.surfaces == Seq::<(u64, u64)>::empty()
            &&& after.mapped == before.mapped
            &&& after.disconnected == before.disconnected.push(output)
            &&& after.focused == before.focused
            &&& gestures_after == gestures
        },
        Disconnect::Gone { output, refocused } => {
            &&& before.surfaces.len() > 1
            &&& exists|k: int| #[trigger]
                before.drives(crtc, k) && before.surfaces[k].1 == output && after.surfaces
                    == before.surfaces.remove(k)
            &&& after.mapped == without(before.mapped, output)
            &&& after.disconnected == before.disconnected
            &&& refocused == (before.focused == Some(output))
            &&& after.focused == if refocused {
                Some(after.mapped[0])
            } else {
                before.focused
            }
            &&& gestures_after == if gestures.output == Some(output) {
                GesturesView { state: None, output: None }
            } else {
                gestures
            }
        },
    }
}

/// A controller that shows a frame is not rendered until the frame was shown,
/// and then it is, if it needs one.
pub proof fn frames_do_not_overtake(d: DisplaysView, n: nat, crtc: u64)
    requires
        n <= d.surfaces.len(),
    ensures
        due(d, n).contains(crtc) ==> d.redraws_needed.contains(crtc) && !d.frames_pending.contains(
            crtc,
        ),
        d.redraws_needed.contains(crtc) && !d.frames_pending.contains(crtc) && (exists|k: int|
            0 <= k < n && d.drives(crtc, k)) ==> due(d, n).contains(crtc),
    decreases n,
{
    if n > 0 {
        frames_do_not_overtake(d, (n - 1) as nat, crtc);
        let before = due(d, (n - 1) as nat);
        let all = due(d, n);
        let last = d.surfaces[n - 1].0;
        if before.contains(crtc) {
            let k = choose|k: int| 0 <= k < before.len() && before[k] == crtc;
            assert(all[k] == crtc);
        }
        if all.contains(crtc) && !before.contains(crtc) {
            let k = choose|k: int| 0 <= k < all.len() && all[k] == crtc;
            assert(k == before.len());
        }
        if d.redraws_needed.contains(crtc) && !d.frames_pending.contains(crtc) {
            if last == crtc {
                assert(all[before.len() as int] == crtc);
            } else if exists|k: int| 0 <= k < n && d.drives(crtc, k) {
                let k = choose|k: int| 0 <= k < n && d.drives(crtc, k);
                assert(0 <= k < n - 1 && d.drives(crtc, k));
            }
        }
    }
}

/// An output as its clients may change it.
#[derive(Debug)]
pub struct OutputHead {
    pub name: String,
    pub transform: Transform,
    /// In millionths.
    pub scale: i64,
    pub layout_position: Point,
}

/// What a client wants of an output. What it leaves out stays.
#[derive(Debug)]
pub struct RequestedHeadConfig {
    pub output_name: String,
    pub transform: Option<Transform>,
    /// In millionths.
    pub scale: Option<i64>,
    pub position: Option<Point>,
}

/// The place of the first output of a name, among the first `n`.
pub open spec fn head_named(heads: Seq<OutputHead>, name: Seq<char>, n: nat) -> Option<int>
    decreases n,
{
    if n == 0 {
        None
    } else {
        match head_named(heads, name, (n - 1) as nat) {
            Some(k) => Some(k),
            None => if heads[n - 1].name@ == name {
                Some(n - 1)
            } else {
                None
            },
        }
    }
}

/// An output after a request.
pub open spec fn changed_head(head: OutputHead, request: RequestedHeadConfig) -> OutputHead {
    OutputHead {
        name: head.name,
        transform: if request.transform is Some {
            request.transform->0
        } else {
            head.transform
        },
        scale: if request.scale is Some {
            request.scale->0
        } else {
            head.scale
        },
        layout_position: if request.position is Some {
            request.position->0
        } else {
            head.layout_position
        },
    }
}

/// The outputs after requests from a place on, and whether all of them could
/// be met. The first that names no output stops the rest.
pub open spec fn changed_heads(heads: Seq<OutputHead>, requests: Seq<RequestedHeadConfig>, from: int) -> (
    Seq<OutputHead>,
    bool,
)
    decreases requests.len() - from,
{
    if from < 0 || from >= requests.len() {
        (heads, true)
    } else {
        match head_named(heads, requests[from].output_name@, heads.len()) {
            Some(k) => changed_heads(
                heads.update(k, changed_head(heads[k], requests[from])),
                requests,
                from + 1,
            ),
            None => (heads, false),
        }
    }
}

proof fn head_named_stays(heads: Seq<OutputHead>, name: Seq<char>, n: nat, m: nat)
    requires
        n <= m,
        head_named(heads, name, n) is Some,
    ensures
        head_named(heads, name, m) == head_named(heads, name, n),
    decreases m,
{
    if n < m {
        head_named_stays(heads, name, n, (m - 1) as nat);
    }
}

fn find_head(heads: &Vec<OutputHead>, name: &str) -> (r: Option<usize>)
    ensures
        match r {
            Some(k) => k < heads@.len() && head_named(heads@, name@, heads@.len()) == Some(k as int),
            None => head_named(heads@, name@, heads@.len()) is None,
        },
{
    let mut i: usize = 0;
    while i < heads.len()
        invariant
            i <= heads@.len(),
            head_named(heads@, name@, i as nat) is None,
        decreases heads.len() - i,
    {
        if same_text(heads[i].name.as_str(), name) {
            proof {
                head_named_stays(heads@, name@, (i + 1) as nat, heads@.len());
            }
            return Some(i);
        }
        i += 1;
    }
    None
}

/// Changes outputs as a client wants. Returns false where a request names no
/// output; those before it are met all the same.
pub fn apply_output_config(heads: &mut Vec<OutputHead>, configs: &Vec<RequestedHeadConfig>) -> (r: bool)
    ensures
        (final(heads)@, r) == changed_heads(old(heads)@, configs@, 0),
{
    let mut i: usize = 0;
    while i < configs.len()
        invariant
            i <= configs@.len(),
            changed_heads(old(heads)@, configs@, 0) == changed_heads(heads@, configs@, i as int),
        decreases configs.len() - i,
    {
        let request = &configs[i];
        match find_head(heads, request.output_name.as_str()) {
            Some(k) => {
                let ghost before = heads@;
                let old_head = heads.remove(k);
                let head = OutputHead {
                    name: old_head.name,
                    transform: match request.transform {
                        Some(t) => t,
                        None => old_head.transform,
                    },
                    scale: match request.scale {
                        Some(s) => s,
                        None => old_head.scale,
                    },
                    layout_position: match request.position {
                        Some(p) => p,
                        None => old_head.layout_position,
                    },
                };
                heads.insert(k, head);
                assert(heads@ =~= before.update(
                    k as int,
                    changed_head(before[k as int], configs@[i as int]),
                ));
            },
            None => {
                return false;
            },
        }
        i += 1;
    }
    true
}

} // verus!
