//! Captures for clients, and the list of windows for taskbars.

use crate::geometry::{Rect, Size};
use crate::protocols::foreign_toplevel::{HandleAction, HandleRequest, ListedWindow, ToplevelView};
use crate::protocols::screencopy::{
    CaptureSource, CopyOutcome, QueueView, Screencopy, ScreencopyBuffer, ScreencopyFrameState,
    ShmBuffer,
};
use vstd::prelude::*;

verus! {

use crate::protocols::foreign_toplevel::{
    answered,
    closed_handles,
    entered,
    handle_owner,
    has_handle,
    is_listed,
    listed_others,
    living,
    news,
    refresh_order,
    state_list,
    still_listed,
    without_handle,
};
use crate::protocols::screencopy::{
    anything_pending,
    copies_of,
    copies_without,
    copy_outcome,
    gathered,
    kept_queues,
    queue_of,
    region_captured,
    seen_area,
    settled_queue,
    swept,
    takes,
};

/// A region is captured where it has a size and lies on the output: the part of
/// it that does, from its own corner, in a buffer that is turned back.
pub proof fn regions_are_captured_where_they_are(
    size: (i32, i32),
    s: CaptureSource,
    physical: Rect,
    cursor: bool,
    x: int,
    y: int,
)
    requires
        physical.size.w > 0,
        physical.size.h > 0,
        s.mode_size.w > 0,
        s.mode_size.h > 0,
        physical.loc.x + physical.size.w <= i32::MAX,
        physical.loc.y + physical.size.h <= i32::MAX,
    ensures
        region_captured(size, None, physical, cursor) is None,
        size.0 <= 0 || size.1 <= 0 ==> region_captured(size, Some(s), physical, cursor) is None,
        s.transform is Normal ==> seen_area(s).size == s.mode_size,
        s.transform is Rotated90 ==> seen_area(s).size == (Size {
            w: s.mode_size.h,
            h: s.mode_size.w,
        }),
        region_captured(size, Some(s), physical, cursor) matches Some(info) ==> {
            let part = s.transform.turned(info.buffer_size);
            &&& info.output == s.output
            &&& info.overlay_cursor == cursor
            &&& (info.region_loc.x <= x < info.region_loc.x + part.w && info.region_loc.y <= y
                < info.region_loc.y + part.h) <==> (physical.loc.x <= x < physical.loc.x
                + physical.size.w && physical.loc.y <= y < physical.loc.y + physical.size.h && 0 <= x
                < seen_area(s).size.w && 0 <= y < seen_area(s).size.h)
        },
        size.0 > 0 && size.1 > 0 && physical.loc.x <= x < physical.loc.x + physical.size.w
            && physical.loc.y <= y < physical.loc.y + physical.size.h && 0 <= x
            < seen_area(s).size.w && 0 <= y < seen_area(s).size.h ==> region_captured(
            size,
            Some(s),
            physical,
            cursor,
        ) is Some,
{
}

/// A buffer is taken that has the format and the size, four bytes to a pixel,
/// and is filled by its rows.
pub proof fn fitting_buffers_are_taken(b: ShmBuffer, size: Size)
    requires
        0 <= size.w <= 0xffff,
        0 <= size.h <= 0xffff,
    ensures
        takes(b, size) <==> b.right_format && b.width == size.w && b.height == size.h && b.stride == 4
            * size.w && b.len == 4 * size.w * size.h,
{
    let (w, h) = (size.w as int, size.h as int);
    assert((w * 4) * h == 4 * w * h) by (nonlinear_arith);
}

/// A frame is copied once, into a buffer that fits; a frame that failed is
/// ignored.
pub proof fn frames_are_copied_into_what_fits(
    state: ScreencopyFrameState,
    frame: u64,
    buffer: Option<ShmBuffer>,
    damage: bool,
)
    ensures
        state is Failed ==> copy_outcome(state, frame, buffer, damage) is Ignored,
        state matches ScreencopyFrameState::Pending { info, copied, .. } ==> {
            let r = copy_outcome(state, frame, buffer, damage);
            &&& copied ==> r is AlreadyUsed
            &&& !copied && buffer is None ==> r is InvalidBuffer
            &&& !copied && buffer is Some && !takes(buffer->0, info.buffer_size)
                ==> r is InvalidBuffer
            &&& !copied && buffer is Some && takes(buffer->0, info.buffer_size) ==> r
                == CopyOutcome::Accepted(
                Screencopy {
                    info,
                    frame,
                    buffer: ScreencopyBuffer::Shm(buffer->0.buffer),
                    with_damage: damage,
                    submitted: false,
                },
            )
        },
        state matches ScreencopyFrameState::Pending { manager, info, .. } ==> state.used() == (
        ScreencopyFrameState::Pending { manager, info, copied: true }),
{
}

/// The copies of an output, and those of the others, in the order in which they
/// were asked for; a frame that is gone leaves none.
pub proof fn copies_keep_their_order(copies: Seq<Screencopy>, c: Screencopy, output: u64, frame: u64)
    ensures
        copies_of(Seq::<Screencopy>::empty(), output, true).len() == 0,
        copies_of(Seq::<Screencopy>::empty(), output, false).len() == 0,
        copies_without(Seq::<Screencopy>::empty(), frame).len() == 0,
        copies_of(copies.push(c), output, true) == (if c.info.output == output {
            copies_of(copies, output, true).push(c)
        } else {
            copies_of(copies, output, true)
        }),
        copies_of(copies.push(c), output, false) == (if c.info.output == output {
            copies_of(copies, output, false)
        } else {
            copies_of(copies, output, false).push(c)
        }),
        copies_without(copies.push(c), frame) == (if c.frame == frame {
            copies_without(copies, frame)
        } else {
            copies_without(copies, frame).push(c)
        }),
{
    assert(copies.push(c).drop_last() =~= copies);
}

/// A queue is found by its manager, the first of several.
pub proof fn queues_go_by_manager(queues: Seq<(u64, QueueView)>, manager: u64, n: nat)
    requires
        n <= queues.len(),
    ensures
        match queue_of(queues, manager, n) {
            Some(k) => 0 <= k < n && queues[k].0 == manager && forall|j: int|
                0 <= j < k ==> (#[trigger] queues[j]).0 != manager,
            None => forall|j: int| 0 <= j < n ==> (#[trigger] queues[j]).0 != manager,
        },
    decreases n,
{
    if n > 0 {
        queues_go_by_manager(queues, manager, (n - 1) as nat);
    }
}

/// Sweeping an output takes its copies out of every queue, all of them, and
/// leaves the frames that still wait.
pub proof fn sweeping_takes_an_output(
    queues: Seq<(u64, QueueView)>,
    q: (u64, QueueView),
    output: u64,
    k: int,
)
    ensures
        gathered(queues, output, 0).len() == 0,
        0 <= k < queues.len() ==> gathered(queues, output, (k + 1) as nat) == gathered(
            queues,
            output,
            k as nat,
        ) + copies_of(queues[k].1.screencopies, output, true),
        swept(queues, output).len() == queues.len(),
        0 <= k < queues.len() ==> swept(queues, output)[k].0 == queues[k].0 && swept(
            queues,
            output,
        )[k].1.screencopies == copies_of(queues[k].1.screencopies, output, false) && swept(
            queues,
            output,
        )[k].1.pending_frames == queues[k].1.pending_frames,
{
}

/// A queue is kept while its manager lives or something waits in it.
pub proof fn idle_queues_of_the_dead_are_dropped(
    queues: Seq<(u64, QueueView)>,
    q: (u64, QueueView),
    alive: Seq<u64>,
)
    ensures
        kept_queues(Seq::<(u64, QueueView)>::empty(), alive).len() == 0,
        kept_queues(queues.push(q), alive) == (if !alive.contains(q.0)
            && q.1.pending_frames.is_empty() && q.1.screencopies.len() == 0 {
            kept_queues(queues, alive)
        } else {
            kept_queues(queues, alive).push(q)
        }),
{
    assert(queues.push(q).drop_last() =~= queues);
}

/// A queue that comes to rest goes where its manager is dead, and else stays as
/// it has become.
pub proof fn queues_settle(queues: Seq<(u64, QueueView)>, k: int, queue: QueueView, j: int)
    requires
        0 <= k < queues.len(),
        0 <= j < queues.len(),
        j != k,
    ensures
        settled_queue(queues, k, queue, true).len() == queues.len(),
        settled_queue(queues, k, queue, true)[k] == (queues[k].0, queue),
        settled_queue(queues, k, queue, true)[j] == queues[j],
        queue.pending_frames.is_empty() && queue.screencopies.len() == 0 ==> settled_queue(
            queues,
            k,
            queue,
            false,
        ) == queues.remove(k),
        !(queue.pending_frames.is_empty() && queue.screencopies.len() == 0) ==> settled_queue(
            queues,
            k,
            queue,
            false,
        ) == settled_queue(queues, k, queue, true),
{
}

/// Something waits for an output where some queue holds a copy of it.
pub proof fn copies_wait_for_their_output(queues: Seq<(u64, QueueView)>, output: u64, k: int, j: int)
    requires
        0 <= k < queues.len(),
        0 <= j < queues[k].1.screencopies.len(),
        queues[k].1.screencopies[j].info.output == output,
    ensures
        anything_pending(queues, output),
        !anything_pending(Seq::<(u64, QueueView)>::empty(), output),
{
    assert(crate::protocols::screencopy::copies_any(queues[k].1.screencopies, output));
}

/// The states of a window by their numbers: 0 maximized, 2 activated, 3
/// fullscreen.
pub proof fn states_have_their_numbers(maximized: bool, fullscreen: bool, focus: bool)
    ensures
        ({
            let list = state_list(maximized, fullscreen, focus);
            &&& list.contains(0) <==> maximized
            &&& list.contains(3) <==> fullscreen
            &&& list.contains(2) <==> focus
            &&& !list.contains(1)
            &&& list.no_duplicates()
        }),
{
    let list = state_list(maximized, fullscreen, focus);
    if maximized {
        assert(list[0] == 0);
    }
    let at: int = if maximized {
        1
    } else {
        0
    };
    if fullscreen {
        assert(list[at] == 3);
    }
    let end: int = if fullscreen {
        at + 1
    } else {
        at
    };
    if focus {
        assert(list[end] == 2);
    }
}

/// Outputs are entered at the end, each once; those that are gone are left; a
/// handle that is gone leaves no instance.
pub proof fn outputs_and_handles_keep_their_order(
    outputs: Seq<u64>,
    more: Seq<u64>,
    alive: Seq<u64>,
    o: u64,
    instances: Seq<(u64, Seq<u64>)>,
    i: (u64, Seq<u64>),
    handle: u64,
)
    ensures
        entered(outputs, Seq::<u64>::empty()) == outputs,
        entered(outputs, more.push(o)) == (if entered(outputs, more).contains(o) {
            entered(outputs, more)
        } else {
            entered(outputs, more).push(o)
        }),
        living(Seq::<u64>::empty(), alive).len() == 0,
        living(outputs.push(o), alive) == (if alive.contains(o) {
            living(outputs, alive).push(o)
        } else {
            living(outputs, alive)
        }),
        without_handle(Seq::<(u64, Seq<u64>)>::empty(), handle).len() == 0,
        without_handle(instances.push(i), handle) == (if i.0 == handle {
            without_handle(instances, handle)
        } else {
            without_handle(instances, handle).push(i)
        }),
{
    assert(more.push(o).drop_last() =~= more);
    assert(outputs.push(o).drop_last() =~= outputs);
    assert(instances.push(i).drop_last() =~= instances);
}

/// A text that has changed is told, as it is now.
pub proof fn changes_are_told(told: Option<Seq<char>>, now: Option<Seq<char>>)
    ensures
        told == now ==> news(told, now) is None,
        told != now ==> news(told, now) == now,
{
}

/// Windows are told of in order, widgets never, and the focused one last.
pub proof fn windows_are_told_of_in_order(windows: Seq<ListedWindow>, w: ListedWindow, f: u64)
    ensures
        listed_others(Seq::<ListedWindow>::empty(), None).len() == 0,
        listed_others(windows.push(w), None) == (if w.widget {
            listed_others(windows, None)
        } else {
            listed_others(windows, None).push(w.window)
        }),
        listed_others(windows.push(w), Some(f)) == (if w.widget || w.window == f {
            listed_others(windows, Some(f))
        } else {
            listed_others(windows, Some(f)).push(w.window)
        }),
        refresh_order(windows, None) == listed_others(windows, None),
        is_listed(windows, f) ==> refresh_order(windows, Some(f)) == listed_others(
            windows,
            Some(f),
        ).push(f),
        !is_listed(windows, f) ==> refresh_order(windows, Some(f)) == listed_others(
            windows,
            Some(f),
        ),
        !w.widget ==> is_listed(windows.push(w), w.window),
{
    assert(windows.push(w).drop_last() =~= windows);
    assert(windows.push(w)[windows.len() as int] == w);
}

/// Windows that are no longer listed are closed: every handle of theirs is told,
/// and the others stay in order.
pub proof fn unlisted_windows_are_closed(
    toplevels: Seq<ToplevelView>,
    t: ToplevelView,
    windows: Seq<ListedWindow>,
    k: int,
)
    ensures
        still_listed(Seq::<ToplevelView>::empty(), windows).len() == 0,
        closed_handles(Seq::<ToplevelView>::empty(), windows).len() == 0,
        is_listed(windows, t.window) ==> still_listed(toplevels.push(t), windows) == still_listed(
            toplevels,
            windows,
        ).push(t) && closed_handles(toplevels.push(t), windows) == closed_handles(
            toplevels,
            windows,
        ),
        !is_listed(windows, t.window) ==> still_listed(toplevels.push(t), windows) == still_listed(
            toplevels,
            windows,
        ),
        !is_listed(windows, t.window) && 0 <= k < t.instances.len() ==> closed_handles(
            toplevels.push(t),
            windows,
        ).len() == closed_handles(toplevels, windows).len() + t.instances.len() && closed_handles(
            toplevels.push(t),
            windows,
        )[closed_handles(toplevels, windows).len() + k] == t.instances[k].0,
{
    assert(toplevels.push(t).drop_last() =~= toplevels);
}

/// A handle belongs to the first window that has it.
pub proof fn handles_belong_to_windows(toplevels: Seq<ToplevelView>, handle: u64, n: nat)
    requires
        n <= toplevels.len(),
    ensures
        match handle_owner(toplevels, handle, n) {
            Some(k) => 0 <= k < n && has_handle(toplevels[k].instances, handle) && forall|j: int|
                0 <= j < k ==> !has_handle((#[trigger] toplevels[j]).instances, handle),
            None => forall|j: int|
                0 <= j < n ==> !has_handle((#[trigger] toplevels[j]).instances, handle),
        },
    decreases n,
{
    if n > 0 {
        handles_belong_to_windows(toplevels, handle, (n - 1) as nat);
    }
}

/// Requests are answered by what they ask for, of the window that they are
/// about; maximizing and minimizing are not answered.
pub proof fn requests_are_answered(q: HandleRequest, w: u64)
    ensures
        q is Activate ==> answered(q, w) == HandleAction::Activate(w),
        q is Close ==> answered(q, w) == HandleAction::Close(w),
        q is SetFullscreen ==> answered(q, w) == HandleAction::SetFullscreen(w),
        q is UnsetFullscreen ==> answered(q, w) == HandleAction::UnsetFullscreen(w),
        q is SetMaximized || q is UnsetMaximized || q is SetMinimized || q is UnsetMinimized
            || q is SetRectangle || q is Destroy ==> answered(q, w) is Nothing,
{
}

/// A handle is among those that were given out, wherever it stands.
pub proof fn handles_are_found(instances: Seq<(u64, Seq<u64>)>, k: int)
    requires
        0 <= k < instances.len(),
    ensures
        crate::protocols::foreign_toplevel::has_handle(instances, instances[k].0),
{
}

} // verus!
