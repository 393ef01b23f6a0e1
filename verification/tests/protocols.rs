use driftwm::config::types::Transform;
use driftwm::geometry::{Point, Rect, Size};
use driftwm::protocols::foreign_toplevel::{
    activate, order_windows, to_state_vec, ForeignToplevelManagerState, HandleAction,
    HandleRequest, Instance, ListedWindow, ToplevelData, STATE_ACTIVATED, STATE_FULLSCREEN,
    STATE_MAXIMIZED,
};
use driftwm::protocols::screencopy::{
    advertised_buffer, capture_output, capture_output_region, CaptureSource, CopyOutcome,
    ScreencopyBuffer, ScreencopyFrameInfo, ScreencopyFrameState, ScreencopyManagerState,
    ScreencopyQueue, ShmBuffer,
};

fn rect(x: i32, y: i32, w: i32, h: i32) -> Rect {
    Rect {
        loc: Point { x, y },
        size: Size { w, h },
    }
}

fn source(transform: Transform) -> CaptureSource {
    CaptureSource {
        output: 3,
        mode_size: Size { w: 1920, h: 1080 },
        transform,
    }
}

fn info(output: u64) -> ScreencopyFrameInfo {
    ScreencopyFrameInfo {
        output,
        buffer_size: Size { w: 10, h: 5 },
        region_loc: Point { x: 0, y: 0 },
        overlay_cursor: true,
    }
}

fn pending(manager: u64, output: u64) -> ScreencopyFrameState {
    ScreencopyFrameState::Pending {
        manager,
        info: info(output),
        copied: false,
    }
}

fn buffer() -> ShmBuffer {
    ShmBuffer {
        buffer: 77,
        right_format: true,
        width: 10,
        height: 5,
        stride: 40,
        len: 200,
    }
}

/// A manager with one copy of an output under way.
fn with_copy(output: u64) -> ScreencopyManagerState {
    let mut state = ScreencopyManagerState::new();
    state.bind(1);
    state.start_frame(1, 100);
    let mut frame = pending(1, output);
    match state.copy(&mut frame, 100, Some(buffer()), true, true) {
        CopyOutcome::Accepted(copy) => state.queues[0].queue.screencopies.push(copy),
        _ => panic!("the copy was refused"),
    }
    state
}

#[test]
fn whole_outputs_are_captured() {
    let frame = capture_output(Some(source(Transform::Rotated90)), true).unwrap();
    assert_eq!(frame.output, 3);
    assert_eq!(frame.buffer_size, Size { w: 1920, h: 1080 });
    assert_eq!(frame.region_loc, Point { x: 0, y: 0 });
    assert_eq!(advertised_buffer(&frame), (1920, 1080, 7680));
    assert!(capture_output(None, true).is_none());
}

#[test]
fn regions_are_captured_where_they_are_on_the_output() {
    let capture = |size: (i32, i32), transform: Transform, at: Rect| {
        capture_output_region(size, Some(source(transform)), at, false)
    };
    let part = capture((100, 100), Transform::Normal, rect(1900, -50, 100, 100)).unwrap();
    assert_eq!(part.buffer_size, Size { w: 20, h: 50 });
    assert_eq!(part.region_loc, Point { x: 1900, y: 0 });
    let turned = capture((40, 30), Transform::Rotated90, rect(0, 0, 40, 30)).unwrap();
    assert_eq!(turned.buffer_size, Size { w: 30, h: 40 });
    assert!(capture((100, 100), Transform::Normal, rect(1920, 0, 100, 100)).is_none());
    assert!(capture((0, 100), Transform::Normal, rect(0, 0, 100, 100)).is_none());
    assert!(capture_output_region((1, 1), None, rect(0, 0, 1, 1), false).is_none());
}

#[test]
fn a_frame_is_copied_once() {
    let mut state = ScreencopyManagerState::new();
    state.bind(1);
    state.start_frame(1, 100);
    let mut frame = pending(1, 3);
    let copy = match state.copy(&mut frame, 100, Some(buffer()), true, true) {
        CopyOutcome::Accepted(copy) => copy,
        _ => panic!("the copy was refused"),
    };
    assert_eq!(*copy.buffer(), ScreencopyBuffer::Shm(77));
    assert_eq!(copy.output(), 3);
    assert_eq!(copy.buffer_size(), Size { w: 10, h: 5 });
    assert!(copy.overlay_cursor());
    assert_eq!(
        state.copy(&mut frame, 100, Some(buffer()), true, true),
        CopyOutcome::AlreadyUsed
    );
    let mut failed = ScreencopyFrameState::Failed;
    assert_eq!(
        state.copy(&mut failed, 101, Some(buffer()), true, true),
        CopyOutcome::Ignored
    );
}

#[test]
fn other_buffers_are_refused() {
    for bad in [
        ShmBuffer {
            right_format: false,
            ..buffer()
        },
        ShmBuffer {
            width: 11,
            ..buffer()
        },
        ShmBuffer {
            stride: 44,
            ..buffer()
        },
        ShmBuffer {
            len: 199,
            ..buffer()
        },
    ] {
        let mut state = ScreencopyManagerState::new();
        state.bind(1);
        state.start_frame(1, 100);
        let mut frame = pending(1, 3);
        assert_eq!(
            state.copy(&mut frame, 100, Some(bad), true, true),
            CopyOutcome::InvalidBuffer
        );
        assert!(!state.has_pending(3));
    }
}

#[test]
fn copies_wait_for_their_output() {
    let mut state = with_copy(3);
    assert!(state.has_pending(3));
    assert!(!state.has_pending(4));
    assert!(state.take_pending_for_output(4, &vec![1]).is_empty());
    let mut taken = state.take_pending_for_output(3, &vec![1]);
    assert_eq!(taken.len(), 1);
    assert!(!state.has_pending(3));
    assert!(taken[0].fails_when_dropped());
    let ready = taken[0].submit(true, 0x1_0000_0002, 7);
    assert!(ready.y_invert);
    assert_eq!((ready.tv_sec_hi, ready.tv_sec_lo, ready.tv_nsec), (1, 2, 7));
    assert!(!taken[0].fails_when_dropped());
}

#[test]
fn gone_outputs_and_frames_leave_no_copy() {
    let mut state = with_copy(3);
    state.remove_output(3, &vec![1]);
    assert!(!state.has_pending(3));
    let mut state = with_copy(3);
    state.frame_destroyed(&pending(1, 3), 100, true);
    assert!(!state.has_pending(3));
    assert_eq!(state.queues.len(), 1);
    // The queue of a manager that is gone goes when nothing waits in it.
    let mut state = with_copy(3);
    state.manager_destroyed(1);
    assert!(state.has_pending(3));
    assert_eq!(state.take_pending_for_output(3, &Vec::new()).len(), 1);
    assert!(state.queues.is_empty());
    assert!(ScreencopyQueue::new().is_empty());
}

#[test]
fn states_are_listed() {
    assert_eq!(
        to_state_vec(true, true, true),
        vec![STATE_MAXIMIZED, STATE_FULLSCREEN, STATE_ACTIVATED]
    );
    assert!(to_state_vec(false, false, false).is_empty());
    assert_eq!(to_state_vec(false, false, true), vec![2]);
}

#[test]
fn an_output_is_entered_once() {
    let mut instance = Instance {
        handle: 5,
        outputs: vec![1],
    };
    assert_eq!(instance.enter(&vec![1, 2, 2, 3]), vec![2, 3]);
    assert_eq!(instance.outputs, vec![1, 2, 3]);
    assert!(instance.enter(&vec![1, 2, 3]).is_empty());
}

#[test]
fn clients_hear_what_is_new() {
    let text = |s: &str| Some(String::from(s));
    let mut data = ToplevelData::new(7, text("a"), text("foot"), vec![]);
    data.add_instance(50, vec![1, 2]);
    let changes = data.refresh(text("a"), text("foot"), vec![], &vec![1, 2]);
    assert!(changes.title.is_none() && changes.app_id.is_none() && !changes.states);
    let changes = data.refresh(text("b"), None, vec![STATE_ACTIVATED], &vec![2]);
    assert_eq!(changes.title, text("b"));
    assert_eq!(changes.app_id, None);
    assert!(changes.states);
    assert_eq!(data.instances[0].outputs, vec![2]);
    assert!(data.has(50));
    data.handle_gone(50);
    assert!(!data.has(50));
}

#[test]
fn every_listed_window_is_told_once() {
    let listed = |window: u64, widget: bool| ListedWindow { window, widget };
    let windows = vec![
        listed(1, false),
        listed(2, true),
        listed(3, false),
        listed(4, false),
    ];
    assert_eq!(order_windows(&windows, Some(3)), vec![1, 4, 3]);
    assert_eq!(order_windows(&windows, None), vec![1, 3, 4]);
    assert_eq!(order_windows(&windows, Some(2)), vec![1, 3, 4]);
}

#[test]
fn handles_are_answered() {
    let mut state = ForeignToplevelManagerState::new();
    let mut data = ToplevelData::new(7, None, None, vec![]);
    data.add_instance(50, vec![]);
    state.toplevels.push(data);
    let mut gone = ToplevelData::new(8, None, None, vec![]);
    gone.add_instance(51, vec![]);
    gone.add_instance(52, vec![]);
    state.toplevels.push(gone);
    state.instances = vec![1, 2];
    assert_eq!(
        state.request(50, HandleRequest::Activate),
        HandleAction::Activate(7)
    );
    assert_eq!(
        state.request(51, HandleRequest::Close),
        HandleAction::Close(8)
    );
    assert_eq!(
        state.request(50, HandleRequest::SetFullscreen),
        HandleAction::SetFullscreen(7)
    );
    assert_eq!(
        state.request(50, HandleRequest::SetMinimized),
        HandleAction::Nothing
    );
    assert_eq!(
        state.request(99, HandleRequest::Activate),
        HandleAction::Nothing
    );
    let windows = vec![ListedWindow {
        window: 7,
        widget: false,
    }];
    assert_eq!(state.retain_listed(&windows), vec![51, 52]);
    assert_eq!(state.toplevels.len(), 1);
    state.manager_gone(1);
    assert_eq!(state.instances, vec![2]);
    assert_eq!(activate(true, Some(7)), None);
    assert_eq!(activate(false, Some(7)), Some(7));
}
