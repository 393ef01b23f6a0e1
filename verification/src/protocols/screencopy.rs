//! Screen capture: frames that clients ask for, and the copies that they are
//! owed.
//!
//! Managers, frames, buffers and outputs are known by number.

use crate::config::types::Transform;
use crate::geometry::{Point, Rect, Size};
use std::collections::HashSet;
use vstd::prelude::*;

verus! {

broadcast use vstd::std_specs::hash::group_hash_axioms;

/// What a frame shows.
#[derive(Clone, Copy, Debug, PartialEq, Eq, Structural)]
pub struct ScreencopyFrameInfo {
    pub output: u64,
    /// The size of the buffer that takes it.
    pub buffer_size: Size,
    /// Where the captured region begins.
    pub region_loc: Point,
    pub overlay_cursor: bool,
}

/// A frame that a client has asked for.
#[derive(Clone, Copy, Debug, PartialEq, Eq, Structural)]
pub enum ScreencopyFrameState {
    Failed,
    Pending {
        manager: u64,
        info: ScreencopyFrameInfo,
        /// Whether a copy was asked for already.
        copied: bool,
    },
}

/// Memory that takes a copy.
#[derive(Clone, Copy, Debug, PartialEq, Eq, Structural)]
pub enum ScreencopyBuffer {
    /// A buffer in shared memory.
    Shm(u64),
}

/// A copy that is owed.
#[derive(Clone, Copy, Debug, PartialEq, Eq, Structural)]
pub struct Screencopy {
    pub info: ScreencopyFrameInfo,
    pub frame: u64,
    pub buffer: ScreencopyBuffer,
    pub with_damage: bool,
    pub submitted: bool,
}

/// When a copy was made, as a client is told.
#[derive(Clone, Copy, Debug, PartialEq, Eq, Structural)]
pub struct ReadyEvent {
    pub y_invert: bool,
    pub tv_sec_hi: u32,
    pub tv_sec_lo: u32,
    pub tv_nsec: u32,
}

impl Screencopy {
    /// The memory that takes the copy.
    pub fn buffer(&self) -> (r: &ScreencopyBuffer)
        ensures
            *r == self.buffer,
    {
        &self.buffer
    }

    /// The size of the memory that takes the copy.
    pub fn buffer_size(&self) -> (r: Size)
        ensures
            r == self.info.buffer_size,
    {
        self.info.buffer_size
    }

    /// The output that is copied.
    pub fn output(&self) -> (r: u64)
        ensures
            r == self.info.output,
    {
        self.info.output
    }

    /// Whether the cursor is copied too.
    pub fn overlay_cursor(&self) -> (r: bool)
        ensures
            r == self.info.overlay_cursor,
    {
        self.info.overlay_cursor
    }

    /// Marks the copy as made, at a time in seconds and nanoseconds. Returns
    /// what the client is told.
    pub fn submit(&mut self, y_invert: bool, secs: u64, nanos: u32) -> (r: ReadyEvent)
        ensures
            *final(self) == (Screencopy { submitted: true, ..*old(self) }),
            r.y_invert == y_invert,
            r.tv_sec_hi * 0x1_0000_0000 + r.tv_sec_lo == secs,
            r.tv_nsec == nanos,
    {
        self.submitted = true;
        let hi: u64 = secs / 0x1_0000_0000;
        let lo: u64 = secs % 0x1_0000_0000;
        ReadyEvent { y_invert, tv_sec_hi: hi as u32, tv_sec_lo: lo as u32, tv_nsec: nanos }
    }

    /// Whether the client is told that the copy failed when it is given up.
    pub fn fails_when_dropped(&self) -> (r: bool)
        ensures
            r == !self.submitted,
    {
        !self.submitted
    }
}

/// An output that may be captured.
#[derive(Clone, Copy, Debug, PartialEq, Eq, Structural)]
pub struct CaptureSource {
    pub output: u64,
    /// The size of its mode.
    pub mode_size: Size,
    pub transform: Transform,
}

/// What a frame of a whole output shows. There is none of an output that does
/// not exist.
pub fn capture_output(source: Option<CaptureSource>, overlay_cursor: bool) -> (r: Option<
    ScreencopyFrameInfo,
>)
    ensures
        r == match source {
            Some(s) => Some(
                ScreencopyFrameInfo {
                    output: s.output,
                    buffer_size: s.mode_size,
                    region_loc: Point { x: 0, y: 0 },
                    overlay_cursor,
                },
            ),
            None => None,
        },
{
    match source {
        Some(s) => Some(
            ScreencopyFrameInfo {
                output: s.output,
                buffer_size: s.mode_size,
                region_loc: Point { x: 0, y: 0 },
                overlay_cursor,
            },
        ),
        None => None,
    }
}

/// The area of an output as it is seen.
pub open spec fn seen_area(s: CaptureSource) -> Rect {
    Rect { loc: Point { x: 0, y: 0 }, size: s.transform.turned(s.mode_size) }
}

/// What a frame of a region shows: the part of the region that is on the
/// output, in a buffer that lies as the display does. There is none of a
/// region without size, of an output that does not exist, or of a region
/// outside of it.
pub open spec fn region_captured(
    size: (i32, i32),
    source: Option<CaptureSource>,
    physical: Rect,
    overlay_cursor: bool,
) -> Option<ScreencopyFrameInfo> {
    match source {
        Some(s) if size.0 > 0 && size.1 > 0 && physical.meets(seen_area(s)) => {
            let part = physical.shared(seen_area(s));
            Some(
                ScreencopyFrameInfo {
                    output: s.output,
                    buffer_size: s.transform.undoing().turned(part.size),
                    region_loc: part.loc,
                    overlay_cursor,
                },
            )
        },
        _ => None,
    }
}

/// What a frame of a region shows. `size` is the size that the client asks
/// for, and `physical` its region in pixels of the display.
pub fn capture_output_region(
    size: (i32, i32),
    source: Option<CaptureSource>,
    physical: Rect,
    overlay_cursor: bool,
) -> (r: Option<ScreencopyFrameInfo>)
    requires
        physical.size.w >= 0,
        physical.size.h >= 0,
        source matches Some(s) ==> s.mode_size.w >= 0 && s.mode_size.h >= 0,
    ensures
        r == region_captured(size, source, physical, overlay_cursor),
{
    if size.0 <= 0 || size.1 <= 0 {
        return None;
    }
    let s = match source {
        Some(s) => s,
        None => {
            return None;
        },
    };
    let area = s.transform.transform_size(s.mode_size);
    let whole = Rect { loc: Point { x: 0, y: 0 }, size: area };
    let part = match physical.intersection(&whole) {
        Some(part) => part,
        None => {
            return None;
        },
    };
    let lying = s.transform.invert().transform_rect_in(part, &area);
    Some(
        ScreencopyFrameInfo {
            output: s.output,
            buffer_size: lying.size,
            region_loc: part.loc,
            overlay_cursor,
        },
    )
}

/// A captured region is on the output.
pub proof fn captured_region_is_on_the_output(
    size: (i32, i32),
    source: CaptureSource,
    physical: Rect,
    overlay_cursor: bool,
)
    requires
        physical.size.w > 0,
        physical.size.h > 0,
        source.mode_size.w > 0,
        source.mode_size.h > 0,
    ensures
        region_captured(size, Some(source), physical, overlay_cursor) matches Some(info) ==> {
            let part = source.transform.turned(info.buffer_size);
            &&& 0 <= info.region_loc.x && info.region_loc.x + part.w <= seen_area(source).size.w
            &&& 0 <= info.region_loc.y && info.region_loc.y + part.h <= seen_area(source).size.h
            &&& part.w > 0 && part.h > 0
        },
{
}

/// The buffer that a client is told to bring: width, height and bytes per row.
pub fn advertised_buffer(info: &ScreencopyFrameInfo) -> (r: (u32, u32, u32))
    requires
        0 <= info.buffer_size.w < 0x4000_0000,
        0 <= info.buffer_size.h,
    ensures
        r.0 == info.buffer_size.w,
        r.1 == info.buffer_size.h,
        r.2 == info.buffer_size.w * 4,
{
    let w: u32 = info.buffer_size.w as u32;
    (w, info.buffer_size.h as u32, w * 4)
}

/// A buffer that a client brings.
#[derive(Clone, Copy, Debug, PartialEq, Eq, Structural)]
pub struct ShmBuffer {
    pub buffer: u64,
    /// Whether its pixels have the format that was advertised.
    pub right_format: bool,
    pub width: i32,
    pub height: i32,
    pub stride: i32,
    /// The length of its memory.
    pub len: usize,
}

/// Whether a buffer is the one that was advertised.
pub open spec fn takes(b: ShmBuffer, size: Size) -> bool {
    &&& b.right_format
    &&& b.width == size.w
    &&& b.height == size.h
    &&& b.stride == size.w * 4
    &&& b.len == b.stride * b.height
}

fn is_taking(b: &ShmBuffer, size: Size) -> (r: bool)
    ensures
        r == takes(*b, size),
{
    let stride: i64 = b.stride as i64;
    let height: i64 = b.height as i64;
    assert(-0x4000_0000_0000_0000 <= stride * height <= 0x4000_0000_0000_0000) by (nonlinear_arith)
        requires
            -0x8000_0000 <= stride <= 0x7fff_ffff,
            -0x8000_0000 <= height <= 0x7fff_ffff,
    ;
    b.right_format && b.width == size.w && b.height == size.h && stride == size.w as i64 * 4
        && b.len as i128 == (stride * height) as i128
}

/// Frames that wait for a copy request, and copies that wait for a frame.
pub struct ScreencopyQueue {
    pub pending_frames: HashSet<u64>,
    pub screencopies: Vec<Screencopy>,
}

/// Frames and copies that wait, as a set and a sequence.
#[verifier::ext_equal]
pub struct QueueView {
    pub pending_frames: Set<u64>,
    pub screencopies: Seq<Screencopy>,
}

impl View for ScreencopyQueue {
    type V = QueueView;

    open spec fn view(&self) -> QueueView {
        QueueView { pending_frames: self.pending_frames@, screencopies: self.screencopies@ }
    }
}

/// The copies of an output, or those of the others.
pub open spec fn copies_of(copies: Seq<Screencopy>, output: u64, of_it: bool) -> Seq<Screencopy>
    decreases copies.len(),
{
    if copies.len() == 0 {
        seq![]
    } else {
        let before = copies_of(copies.drop_last(), output, of_it);
        if (copies.last().info.output == output) == of_it {
            before.push(copies.last())
        } else {
            before
        }
    }
}

/// The copies without those of a frame.
pub open spec fn copies_without(copies: Seq<Screencopy>, frame: u64) -> Seq<Screencopy>
    decreases copies.len(),
{
    if copies.len() == 0 {
        seq![]
    } else {
        let before = copies_without(copies.drop_last(), frame);
        if copies.last().frame != frame {
            before.push(copies.last())
        } else {
            before
        }
    }
}

/// Whether one of the copies is of an output.
pub open spec fn copies_any(copies: Seq<Screencopy>, output: u64) -> bool {
    exists|k: int| 0 <= k < copies.len() && (#[trigger] copies[k]).info.output == output
}

/// Taking the copies of an output leaves none of it, and every other copy is
/// still there.
pub proof fn copies_are_parted(copies: Seq<Screencopy>, output: u64)
    ensures
        copies_of(copies, output, true).len() + copies_of(copies, output, false).len()
            == copies.len(),
        !copies_any(copies_of(copies, output, false), output),
        forall|k: int|
            0 <= k < copies_of(copies, output, true).len() ==> (#[trigger] copies_of(
                copies,
                output,
                true,
            )[k]).info.output == output,
        copies_any(copies, output) <==> copies_of(copies, output, true).len() > 0,
    decreases copies.len(),
{
    if copies.len() > 0 {
        let front = copies.drop_last();
        copies_are_parted(front, output);
        if copies_any(front, output) {
            let k = choose|k: int|
                0 <= k < front.len() && (#[trigger] front[k]).info.output == output;
            assert(copies[k].info.output == output);
        }
        if copies_any(copies, output) && copies.last().info.output != output {
            let k = choose|k: int|
                0 <= k < copies.len() && (#[trigger] copies[k]).info.output == output;
            assert(front[k].info.output == output);
        }
        if copies.last().info.output == output {
            assert(copies[copies.len() - 1].info.output == output);
        }
    }
}

impl QueueView {
    /// Whether nothing waits.
    pub open spec fn rests(self) -> bool {
        self.pending_frames.is_empty() && self.screencopies.len() == 0
    }
}

impl ScreencopyQueue {
    /// Nothing waits.
    pub fn new() -> (r: ScreencopyQueue)
        ensures
            r@ == (QueueView { pending_frames: Set::empty(), screencopies: seq![] }),
    {
        ScreencopyQueue { pending_frames: HashSet::new(), screencopies: Vec::new() }
    }

    /// Whether nothing waits.
    pub fn is_empty(&self) -> (r: bool)
        ensures
            r == self@.rests(),
    {
        self.pending_frames.is_empty() && self.screencopies.len() == 0
    }

    /// Takes the copies of an output out.
    fn take_output(&mut self, output: u64) -> (r: Vec<Screencopy>)
        ensures
            r@ == copies_of(old(self)@.screencopies, output, true),
            final(self)@ == (QueueView {
                pending_frames: old(self)@.pending_frames,
                screencopies: copies_of(old(self)@.screencopies, output, false),
            }),
    {
        let mut taken: Vec<Screencopy> = Vec::new();
        let mut kept: Vec<Screencopy> = Vec::new();
        let mut i: usize = 0;
        while i < self.screencopies.len()
            invariant
                i <= self.screencopies@.len(),
                *self == *old(self),
                taken@ == copies_of(self.screencopies@.take(i as int), output, true),
                kept@ == copies_of(self.screencopies@.take(i as int), output, false),
            decreases self.screencopies.len() - i,
        {
            let copy = self.screencopies[i];
            assert(self.screencopies@.take(i + 1).drop_last() =~= self.screencopies@.take(i as int));
            if copy.info.output == output {
                taken.push(copy);
            } else {
                kept.push(copy);
            }
            i += 1;
        }
        assert(self.screencopies@.take(i as int) =~= self.screencopies@);
        self.screencopies = kept;
        taken
    }

    /// Forgets a frame and its copies.
    fn remove_frame(&mut self, frame: u64)
        ensures
            final(self)@ == (QueueView {
                pending_frames: old(self)@.pending_frames.remove(frame),
                screencopies: copies_without(old(self)@.screencopies, frame),
            }),
    {
        self.pending_frames.remove(&frame);
        let ghost all = self.screencopies@;
        let mut kept: Vec<Screencopy> = Vec::new();
        let mut i: usize = 0;
        while i < self.screencopies.len()
            invariant
                i <= self.screencopies@.len(),
                self.screencopies@ == all,
                all == old(self)@.screencopies,
                self.pending_frames@ == old(self)@.pending_frames.remove(frame),
                kept@ == copies_without(all.take(i as int), frame),
            decreases self.screencopies.len() - i,
        {
            let copy = self.screencopies[i];
            assert(all.take(i + 1).drop_last() =~= all.take(i as int));
            if copy.frame != frame {
                kept.push(copy);
            }
            i += 1;
        }
        assert(all.take(i as int) =~= all);
        self.screencopies = kept;
    }
}

/// A manager with its queue.
pub struct ManagerQueue {
    pub manager: u64,
    pub queue: ScreencopyQueue,
}

/// The queues of all managers.
pub struct ScreencopyManagerState {
    pub queues: Vec<ManagerQueue>,
}

/// Managers with their queues, as sequences and sets.
pub open spec fn queues_seen(queues: Seq<ManagerQueue>) -> Seq<(u64, QueueView)> {
    queues.map_values(|q: ManagerQueue| (q.manager, q.queue@))
}

impl View for ScreencopyManagerState {
    type V = Seq<(u64, QueueView)>;

    open spec fn view(&self) -> Seq<(u64, QueueView)> {
        queues_seen(self.queues@)
    }
}

/// The place of the first queue of a manager, among the first `n`.
pub open spec fn queue_of(queues: Seq<(u64, QueueView)>, manager: u64, n: nat) -> Option<int>
    decreases n,
{
    if n == 0 {
        None
    } else {
        match queue_of(queues, manager, (n - 1) as nat) {
            Some(k) => Some(k),
            None => if queues[n - 1].0 == manager {
                Some(n - 1)
            } else {
                None
            },
        }
    }
}

proof fn queue_of_stays(queues: Seq<(u64, QueueView)>, manager: u64, n: nat, m: nat)
    requires
        n <= m,
        queue_of(queues, manager, n) is Some,
    ensures
        queue_of(queues, manager, m) == queue_of(queues, manager, n),
    decreases m,
{
    if n < m {
        queue_of_stays(queues, manager, n, (m - 1) as nat);
    }
}

/// The queues without the copies of an output.
pub open spec fn swept(queues: Seq<(u64, QueueView)>, output: u64) -> Seq<(u64, QueueView)> {
    queues.map_values(
        |q: (u64, QueueView)|
            (
                q.0,
                QueueView {
                    pending_frames: q.1.pending_frames,
                    screencopies: copies_of(q.1.screencopies, output, false),
                },
            ),
    )
}

/// The copies of an output in the first `n` queues, in order.
pub open spec fn gathered(queues: Seq<(u64, QueueView)>, output: u64, n: nat) -> Seq<Screencopy>
    decreases n,
{
    if n == 0 {
        seq![]
    } else {
        gathered(queues, output, (n - 1) as nat) + copies_of(
            queues[n - 1].1.screencopies,
            output,
            true,
        )
    }
}

/// The queues that are kept: those of managers that live, and those in which
/// something waits.
pub open spec fn kept_queues(queues: Seq<(u64, QueueView)>, alive: Seq<u64>) -> Seq<(u64, QueueView)>
    decreases queues.len(),
{
    if queues.len() == 0 {
        seq![]
    } else {
        let before = kept_queues(queues.drop_last(), alive);
        if alive.contains(queues.last().0) || !queues.last().1.rests() {
            before.push(queues.last())
        } else {
            before
        }
    }
}

/// Whether a copy of an output waits in one of the queues.
pub open spec fn anything_pending(queues: Seq<(u64, QueueView)>, output: u64) -> bool {
    exists|k: int|
        0 <= k < queues.len() && copies_any((#[trigger] queues[k]).1.screencopies, output)
}

/// The queues after the one of a manager has changed.
pub open spec fn with_queue(queues: Seq<(u64, QueueView)>, k: int, queue: QueueView) -> Seq<
    (u64, QueueView),
> {
    queues.update(k, (queues[k].0, queue))
}

/// The queues after the one at a place has changed; it goes when nothing waits
/// in it and its manager is gone.
pub open spec fn settled_queue(
    queues: Seq<(u64, QueueView)>,
    k: int,
    queue: QueueView,
    manager_alive: bool,
) -> Seq<(u64, QueueView)> {
    if queue.rests() && !manager_alive {
        queues.remove(k)
    } else {
        with_queue(queues, k, queue)
    }
}

/// What becomes of a request to copy a frame.
#[derive(Clone, Copy, Debug, PartialEq, Eq, Structural)]
pub enum CopyOutcome {
    /// The frame has failed; nothing happens.
    Ignored,
    /// The client is at fault: it has asked before.
    AlreadyUsed,
    /// The client is at fault: the buffer is not the one that was advertised.
    InvalidBuffer,
    /// The copy is owed.
    Accepted(Screencopy),
}

/// What becomes of a request to copy a frame.
pub open spec fn copy_outcome(
    state: ScreencopyFrameState,
    frame: u64,
    buffer: Option<ShmBuffer>,
    with_damage: bool,
) -> CopyOutcome {
    match state {
        ScreencopyFrameState::Failed => CopyOutcome::Ignored,
        ScreencopyFrameState::Pending { info, copied, .. } => if copied {
            CopyOutcome::AlreadyUsed
        } else {
            match buffer {
                Some(b) if takes(b, info.buffer_size) => CopyOutcome::Accepted(
                    Screencopy {
                        info,
                        frame,
                        buffer: ScreencopyBuffer::Shm(b.buffer),
                        with_damage,
                        submitted: false,
                    },
                ),
                _ => CopyOutcome::InvalidBuffer,
            }
        },
    }
}

impl ScreencopyFrameState {
    /// The frame once its copy was asked for.
    pub open spec fn used(self) -> ScreencopyFrameState {
        match self {
            ScreencopyFrameState::Pending { manager, info, .. } => ScreencopyFrameState::Pending {
                manager,
                info,
                copied: true,
            },
            other => other,
        }
    }
}

/// A frame is copied at most once.
pub proof fn frames_are_copied_once(
    state: ScreencopyFrameState,
    frame: u64,
    buffer: Option<ShmBuffer>,
    with_damage: bool,
    again: Option<ShmBuffer>,
)
    requires
        copy_outcome(state, frame, buffer, with_damage) is Accepted,
    ensures
        copy_outcome(state.used(), frame, again, with_damage) is AlreadyUsed,
{
}

fn among(list: &Vec<u64>, w: u64) -> (r: bool)
    ensures
        r == list@.contains(w),
{
    let mut i: usize = 0;
    while i < list.len()
        invariant
            i <= list@.len(),
            forall|j: int| 0 <= j < i ==> list@[j] != w,
        decreases list.len() - i,
    {
        if list[i] == w {
            assert(list@[i as int] == w);
            return true;
        }
        i += 1;
    }
    false
}

impl ScreencopyManagerState {
    /// No manager is there.
    pub fn new() -> (r: ScreencopyManagerState)
        ensures
            r@ == Seq::<(u64, QueueView)>::empty(),
    {
        let r = ScreencopyManagerState { queues: Vec::new() };
        assert(r@ =~= Seq::empty());
        r
    }

    fn place_of(&self, manager: u64) -> (r: Option<usize>)
        ensures
            match r {
                Some(k) => k < self@.len() && queue_of(self@, manager, self@.len()) == Some(
                    k as int,
                ),
                None => queue_of(self@, manager, self@.len()) is None,
            },
    {
        let mut i: usize = 0;
        while i < self.queues.len()
            invariant
                i <= self.queues@.len(),
                queue_of(self@, manager, i as nat) is None,
            decreases self.queues.len() - i,
        {
            assert(self@[i as int].0 == self.queues@[i as int].manager);
            if self.queues[i].manager == manager {
                proof {
                    queue_of_stays(self@, manager, (i + 1) as nat, self@.len());
                }
                return Some(i);
            }
            i += 1;
        }
        None
    }

    /// Takes a new manager. Nothing waits for it.
    pub fn bind(&mut self, manager: u64)
        ensures
            final(self)@ == match queue_of(old(self)@, manager, old(self)@.len()) {
                Some(k) => with_queue(
                    old(self)@,
                    k,
                    QueueView { pending_frames: Set::empty(), screencopies: seq![] },
                ),
                None => old(self)@.push(
                    (manager, QueueView { pending_frames: Set::empty(), screencopies: seq![] }),
                ),
            },
    {
        let ghost before = self@;
        match self.place_of(manager) {
            Some(k) => {
                let entry = self.queues.remove(k);
                self.queues.insert(
                    k,
                    ManagerQueue { manager: entry.manager, queue: ScreencopyQueue::new() },
                );
                assert(self@ =~= with_queue(
                    before,
                    k as int,
                    QueueView { pending_frames: Set::empty(), screencopies: seq![] },
                ));
            },
            None => {
                self.queues.push(ManagerQueue { manager, queue: ScreencopyQueue::new() });
                assert(self@ =~= before.push(
                    (manager, QueueView { pending_frames: Set::empty(), screencopies: seq![] }),
                ));
            },
        }
    }

    /// Takes a frame that a manager has promised.
    pub fn start_frame(&mut self, manager: u64, frame: u64)
        requires
            queue_of(old(self)@, manager, old(self)@.len()) is Some,
        ensures
            ({
                let k = queue_of(old(self)@, manager, old(self)@.len())->0;
                let queue = old(self)@[k].1;
                final(self)@ == with_queue(
                    old(self)@,
                    k,
                    QueueView { pending_frames: queue.pending_frames.insert(frame), ..queue },
                )
            }),
    {
        let ghost before = self@;
        if let Some(k) = self.place_of(manager) {
            let mut entry = self.queues.remove(k);
            entry.queue.pending_frames.insert(frame);
            self.queues.insert(k, entry);
            assert(self@ =~= with_queue(
                before,
                k as int,
                QueueView {
                    pending_frames: before[k as int].1.pending_frames.insert(frame),
                    ..before[k as int].1
                },
            ));
        }
    }

    fn settle(&mut self, k: usize, entry: ManagerQueue, manager_alive: bool)
        requires
            k <= old(self)@.len(),
        ensures
            final(self)@ == if entry.queue@.rests() && !manager_alive {
                old(self)@
            } else {
                old(self)@.insert(k as int, (entry.manager, entry.queue@))
            },
    {
        let ghost before = self@;
        if !entry.queue.is_empty() || manager_alive {
            self.queues.insert(k, entry);
            assert(self@ =~= before.insert(k as int, (entry.manager, entry.queue@)));
        }
    }

    /// Takes a request to copy a frame into a buffer. What the buffer is like
    /// is unknown where it is not in shared memory. The manager of a frame
    /// that is copied has a queue, unless it is gone.
    pub fn copy(
        &mut self,
        state: &mut ScreencopyFrameState,
        frame: u64,
        buffer: Option<ShmBuffer>,
        with_damage: bool,
        manager_alive: bool,
    ) -> (r: CopyOutcome)
        ensures
            r == copy_outcome(*old(state), frame, buffer, with_damage),
            r !is Accepted ==> *final(state) == *old(state) && final(self)@ == old(self)@,
            r is Accepted ==> *final(state) == old(state).used() && (*old(state) matches
                ScreencopyFrameState::Pending { manager, .. } && final(self)@ == match queue_of(
                old(self)@,
                manager,
                old(self)@.len(),
            ) {
                Some(k) => settled_queue(
                    old(self)@,
                    k,
                    QueueView {
                        pending_frames: old(self)@[k].1.pending_frames.remove(frame),
                        ..old(self)@[k].1
                    },
                    manager_alive,
                ),
                None => old(self)@,
            }),
    {
        let (manager, info, copied) = match *state {
            ScreencopyFrameState::Failed => {
                return CopyOutcome::Ignored;
            },
            ScreencopyFrameState::Pending { manager, info, copied } => (manager, info, copied),
        };
        if copied {
            return CopyOutcome::AlreadyUsed;
        }
        let b = match buffer {
            Some(b) => b,
            None => {
                return CopyOutcome::InvalidBuffer;
            },
        };
        if !is_taking(&b, info.buffer_size) {
            return CopyOutcome::InvalidBuffer;
        }
        *state = ScreencopyFrameState::Pending { manager, info, copied: true };
        let ghost before = self@;
        if let Some(k) = self.place_of(manager) {
            let mut entry = self.queues.remove(k);
            assert(self@ =~= before.remove(k as int));
            entry.queue.pending_frames.remove(&frame);
            self.settle(k, entry, manager_alive);
            let ghost queue = QueueView {
                pending_frames: before[k as int].1.pending_frames.remove(frame),
                ..before[k as int].1
            };
            assert(entry.queue@ =~= queue);
            assert(self@ =~= settled_queue(before, k as int, queue, manager_alive));
        }
        CopyOutcome::Accepted(
            Screencopy {
                info,
                frame,
                buffer: ScreencopyBuffer::Shm(b.buffer),
                with_damage,
                submitted: false,
            },
        )
    }

    /// Forgets a frame that is gone, and its copies.
    pub fn frame_destroyed(&mut self, state: &ScreencopyFrameState, frame: u64, manager_alive: bool)
        ensures
            final(self)@ == match *state {
                ScreencopyFrameState::Failed => old(self)@,
                ScreencopyFrameState::Pending { manager, .. } => match queue_of(
                    old(self)@,
                    manager,
                    old(self)@.len(),
                ) {
                    Some(k) => settled_queue(
                        old(self)@,
                        k,
                        QueueView {
                            pending_frames: old(self)@[k].1.pending_frames.remove(frame),
                            screencopies: copies_without(old(self)@[k].1.screencopies, frame),
                        },
                        manager_alive,
                    ),
                    None => old(self)@,
                },
            },
    {
        let manager: u64 = match *state {
            ScreencopyFrameState::Failed => {
                return;
            },
            ScreencopyFrameState::Pending { manager, .. } => manager,
        };
        let ghost before = self@;
        if let Some(k) = self.place_of(manager) {
            let mut entry = self.queues.remove(k);
            assert(self@ =~= before.remove(k as int));
            entry.queue.remove_frame(frame);
            self.settle(k, entry, manager_alive);
            let ghost queue = QueueView {
                pending_frames: before[k as int].1.pending_frames.remove(frame),
                screencopies: copies_without(before[k as int].1.screencopies, frame),
            };
            assert(self@ =~= settled_queue(before, k as int, queue, manager_alive));
        }
    }

    /// Forgets a manager that is gone, unless something still waits for it.
    pub fn manager_destroyed(&mut self, manager: u64)
        ensures
            final(self)@ == match queue_of(old(self)@, manager, old(self)@.len()) {
                Some(k) => settled_queue(old(self)@, k, old(self)@[k].1, false),
                None => old(self)@,
            },
    {
        let ghost before = self@;
        if let Some(k) = self.place_of(manager) {
            let entry = self.queues.remove(k);
            assert(self@ =~= before.remove(k as int));
            self.settle(k, entry, false);
            assert(self@ =~= settled_queue(before, k as int, before[k as int].1, false));
        }
    }

    fn cleanup_queues(&mut self, alive: &Vec<u64>)
        ensures
            final(self)@ == kept_queues(old(self)@, alive@),
    {
        let ghost before = self@;
        let ghost mut done: int = 0;
        let mut kept = ScreencopyManagerState { queues: Vec::new() };
        assert(kept@ =~= kept_queues(before.take(0), alive@));
        assert(self@ =~= before.skip(0));
        while self.queues.len() > 0
            invariant
                0 <= done <= before.len(),
                self@ == before.skip(done),
                kept@ == kept_queues(before.take(done), alive@),
            decreases self.queues.len(),
        {
            let ghost rest = self@;
            assert(rest.len() == self.queues@.len());
            assert(rest.len() == before.len() - done);
            let entry = self.queues.remove(0);
            assert(before[done] == rest[0]);
            assert(self@ =~= rest.skip(1));
            assert(before.take(done + 1).drop_last() =~= before.take(done));
            let ghost list = kept@;
            if among(alive, entry.manager) || !entry.queue.is_empty() {
                kept.queues.push(entry);
                assert(kept@ =~= list.push(before[done]));
            }
            proof {
                done = done + 1;
            }
            assert(self@ =~= before.skip(done));
        }
        assert(before.take(done) =~= before);
        self.queues = kept.queues;
    }

    fn sweep(&mut self, output: u64) -> (r: Vec<Screencopy>)
        ensures
            r@ == gathered(old(self)@, output, old(self)@.len()),
            final(self)@ == swept(old(self)@, output),
    {
        let ghost before = self@;
        let ghost mut done: int = 0;
        let mut kept = ScreencopyManagerState { queues: Vec::new() };
        let mut taken: Vec<Screencopy> = Vec::new();
        assert(kept@ =~= swept(before, output).take(0));
        assert(self@ =~= before.skip(0));
        while self.queues.len() > 0
            invariant
                0 <= done <= before.len(),
                self@ == before.skip(done),
                kept@ == swept(before, output).take(done),
                taken@ == gathered(before, output, done as nat),
            decreases self.queues.len(),
        {
            let ghost rest = self@;
            assert(rest.len() == self.queues@.len());
            assert(rest.len() == before.len() - done);
            let mut entry = self.queues.remove(0);
            assert(before[done] == rest[0]);
            assert(self@ =~= rest.skip(1));
            let mut copies = entry.queue.take_output(output);
            taken.append(&mut copies);
            let ghost list = kept@;
            kept.queues.push(entry);
            assert(kept@ =~= list.push(swept(before, output)[done]));
            proof {
                done = done + 1;
            }
            assert(self@ =~= before.skip(done));
            assert(kept@ =~= swept(before, output).take(done));
        }
        assert(swept(before, output).take(done) =~= swept(before, output));
        self.queues = kept.queues;
        taken
    }

    /// Forgets the copies of an output that is gone. `alive` are the managers
    /// that live.
    pub fn remove_output(&mut self, output: u64, alive: &Vec<u64>)
        ensures
            final(self)@ == kept_queues(swept(old(self)@, output), alive@),
    {
        let _ = self.sweep(output);
        self.cleanup_queues(alive);
    }

    /// Takes the copies of an output out of all queues.
    pub fn take_pending_for_output(&mut self, output: u64, alive: &Vec<u64>) -> (r: Vec<Screencopy>)
        ensures
            r@ == gathered(old(self)@, output, old(self)@.len()),
            final(self)@ == kept_queues(swept(old(self)@, output), alive@),
    {
        let taken = self.sweep(output);
        self.cleanup_queues(alive);
        taken
    }

    /// Whether a copy of an output waits.
    pub fn has_pending(&self, output: u64) -> (r: bool)
        ensures
            r == anything_pending(self@, output),
    {
        let mut i: usize = 0;
        while i < self.queues.len()
            invariant
                i <= self.queues@.len(),
                forall|k: int|
                    0 <= k < i ==> !copies_any((#[trigger] self@[k]).1.screencopies, output),
            decreases self.queues.len() - i,
        {
            let copies = &self.queues[i].queue.screencopies;
            assert(self@[i as int].1.screencopies == copies@);
            let mut j: usize = 0;
            while j < copies.len()
                invariant
                    j <= copies@.len(),
                    i < self.queues@.len(),
                    self@[i as int].1.screencopies == copies@,
                    forall|k: int| 0 <= k < j ==> (#[trigger] copies@[k]).info.output != output,
                decreases copies.len() - j,
            {
                if copies[j].info.output == output {
                    assert(copies@[j as int].info.output == output);
                    assert(copies_any(self@[i as int].1.screencopies, output));
                    return true;
                }
                j += 1;
            }
            i += 1;
        }
        false
    }
}

/// Once the copies of an output were taken, none of it waits.
pub proof fn taken_copies_do_not_wait(queues: Seq<(u64, QueueView)>, output: u64, alive: Seq<u64>)
    ensures
        !anything_pending(kept_queues(swept(queues, output), alive), output),
    decreases queues.len(),
{
    let all = swept(queues, output);
    let kept = kept_queues(all, alive);
    if queues.len() > 0 {
        taken_copies_do_not_wait(queues.drop_last(), output, alive);
        assert(swept(queues.drop_last(), output) =~= all.drop_last());
        copies_are_parted(queues.last().1.screencopies, output);
        let before = kept_queues(all.drop_last(), alive);
        if anything_pending(kept, output) {
            let k = choose|k: int|
                0 <= k < kept.len() && copies_any((#[trigger] kept[k]).1.screencopies, output);
            if k < before.len() {
                assert(before[k] == kept[k]);
                assert(anything_pending(before, output));
            } else {
                assert(kept[k] == all.last());
            }
        }
    }
}

} // verus!
