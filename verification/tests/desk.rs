use driftwm::config::defaults::{KEY_Q, KEY_RIGHT};
use driftwm::config::types::{Action, Direction, Modifiers, KEY_TAB};
use driftwm::config::Config;
use driftwm::desk::{
    diagonal_step, nudged, ActionEnv, Desk, Effect, ExecCursor, Focus, NavTarget,
};
use driftwm::geometry::{Point, ResizeEdge, Size};
use driftwm::grabs::{
    edges_from_position, has_bottom, has_left, has_right, has_top, keep_on_output, moved,
    resize_cursor, resized, CursorIcon, MoveSurfaceGrab, PanGrab, ResizeState, ResizeSurfaceGrab,
};
use driftwm::keyboard::{filter_key, KeyOutcome, KeyRepeat};
use driftwm::units::UNITS_PER_PIXEL;

const WINDOWS: [(u64, (i32, i32)); 2] = [(1, (100, 200)), (2, (-50, 0))];

fn px(v: i64) -> i64 {
    v * UNITS_PER_PIXEL
}

fn env(view: u32, focus: Option<Focus>) -> ActionEnv<'static, u32> {
    ActionEnv {
        now: 1000,
        view,
        focus,
        windows: &WINDOWS,
        nudge_step: 20,
        at_home: false,
        closest: Some(2),
        nearest: None,
        anything_to_fit: true,
        target_output: None,
    }
}

fn on(window: u64) -> Option<Focus> {
    Some(Focus {
        window: Some(window),
        widget: false,
    })
}

fn pinned(window: u64) -> Option<Focus> {
    Some(Focus {
        window: Some(window),
        widget: true,
    })
}

fn act(desk: &mut Desk<u32>, action: Action, env: &ActionEnv<'_, u32>) -> Effect<u32> {
    let left = desk.begin_action(&action).map(|fs| fs.window);
    desk.execute_action(&action, left, env)
}

#[test]
fn the_latest_window_comes_first() {
    let mut desk: Desk<u32> = Desk::new();
    for w in [1, 2, 3, 2] {
        desk.update_focus_history(w);
    }
    assert_eq!(desk.focus_history, vec![2, 3, 1]);
    desk.focus_changed(Some(1));
    assert_eq!(desk.focus_history, vec![1, 2, 3]);
    desk.focus_changed(None);
    assert_eq!(desk.focus_history, vec![1, 2, 3]);
}

#[test]
fn cycling_there_and_back_ends_where_it_began() {
    let mut desk: Desk<u32> = Desk::new();
    for w in [3, 2, 1] {
        desk.update_focus_history(w);
    }
    assert_eq!(desk.cycle(false), Some(2));
    assert_eq!(desk.cycle(false), Some(3));
    assert_eq!(desk.cycle(true), Some(2));
    assert_eq!(desk.cycle(true), Some(1));
    assert_eq!(desk.cycle(true), Some(3));
    // Focus changes on the way do not count.
    desk.focus_changed(Some(2));
    assert_eq!(desk.focus_history, vec![1, 2, 3]);
    desk.end_cycle();
    assert_eq!(desk.focus_history, vec![3, 1, 2]);
    assert_eq!(desk.cycle_state, None);
    let mut empty: Desk<u32> = Desk::new();
    assert_eq!(empty.cycle(false), None);
}

#[test]
fn a_window_that_goes_leaves_the_history() {
    let mut desk: Desk<u32> = Desk::new();
    for w in [3, 2, 1] {
        desk.update_focus_history(w);
    }
    desk.cycle(false);
    desk.enter_fullscreen(2, (5, 5), 77);
    assert_eq!(desk.remove_window(2), Some(77));
    assert_eq!(desk.focus_history, vec![1, 3]);
    assert!(desk.fullscreen.is_none());
    assert_eq!(desk.remove_window(3), None);
    assert_eq!(desk.focus_history, vec![1]);
}

#[test]
fn fullscreen_goes_back_to_where_it_came_from() {
    let mut desk: Desk<u32> = Desk::new();
    assert!(desk.enter_fullscreen(1, (100, 200), 7).is_none());
    let before = desk.enter_fullscreen(2, (-50, 0), 8).unwrap();
    assert_eq!((before.window, before.saved_location), (1, (100, 200)));
    let fs = desk.exit_fullscreen().unwrap();
    assert_eq!(fs.window, 2);
    assert_eq!(fs.saved_location, (-50, 0));
    assert_eq!(fs.saved_view, 7);
    assert!(desk.exit_fullscreen().is_none());
}

#[test]
fn the_fullscreen_switch_goes_on_and_off() {
    let mut desk: Desk<u32> = Desk::new();
    let e = env(7, on(1));
    assert!(matches!(
        act(&mut desk, Action::ToggleFullscreen, &e),
        Effect::EnterFullscreen(None, 1)
    ));
    match act(&mut desk, Action::ToggleFullscreen, &env(99, None)) {
        Effect::LeaveFullscreen(fs) => {
            assert_eq!(fs.saved_location, (100, 200));
            assert_eq!(fs.saved_view, 7);
        }
        _ => panic!("fullscreen did not end"),
    }
}

#[test]
fn the_home_key_goes_home_and_returns() {
    let mut desk: Desk<u32> = Desk::new();
    assert!(matches!(
        act(&mut desk, Action::HomeToggle, &env(7, None)),
        Effect::GoHome
    ));
    let home = ActionEnv {
        at_home: true,
        ..env(0, None)
    };
    assert!(matches!(
        act(&mut desk, Action::HomeToggle, &home),
        Effect::Animate(7)
    ));
    assert!(matches!(
        act(&mut desk, Action::HomeToggle, &home),
        Effect::Nothing
    ));
    // From fullscreen, it returns to fullscreen.
    act(&mut desk, Action::ToggleFullscreen, &env(7, on(1)));
    act(&mut desk, Action::HomeToggle, &env(8, on(1)));
    assert!(desk.fullscreen.is_none());
    assert!(matches!(
        act(&mut desk, Action::HomeToggle, &home),
        Effect::RestoreFullscreen(8, 1)
    ));
    assert_eq!(desk.fullscreen.unwrap().window, 1);
}

#[test]
fn the_overview_returns() {
    let mut desk: Desk<u32> = Desk::new();
    assert!(matches!(
        act(&mut desk, Action::ZoomToFit, &env(7, None)),
        Effect::Overview
    ));
    assert!(matches!(
        act(&mut desk, Action::ZoomToFit, &env(8, None)),
        Effect::Animate(7)
    ));
    let nothing = ActionEnv {
        anything_to_fit: false,
        ..env(7, None)
    };
    assert!(matches!(
        act(&mut desk, Action::ZoomToFit, &nothing),
        Effect::Nothing
    ));
    act(&mut desk, Action::ZoomToFit, &env(7, None));
    act(&mut desk, Action::PanViewport(Direction::Up), &env(8, None));
    assert_eq!(desk.overview_return, None);
    desk.overview_return = Some(5);
    assert_eq!(desk.navigate(), Some(5));
    assert_eq!(desk.overview_return, None);
    act(&mut desk, Action::ZoomToFit, &env(7, None));
    desk.panned();
    assert!(matches!(
        act(&mut desk, Action::ZoomToFit, &env(8, None)),
        Effect::Overview
    ));
}

#[test]
fn pinned_windows_are_not_moved() {
    let mut desk: Desk<u32> = Desk::new();
    assert!(matches!(
        act(&mut desk, Action::NudgeWindow(Direction::Right), &env(0, on(1))),
        Effect::Place(1, (120, 200))
    ));
    assert!(matches!(
        act(&mut desk, Action::NudgeWindow(Direction::Right), &env(0, pinned(1))),
        Effect::Nothing
    ));
    let e = ActionEnv {
        target_output: Some(9),
        ..env(0, pinned(1))
    };
    assert!(matches!(
        act(&mut desk, Action::SendToOutput(Direction::Left), &e),
        Effect::Nothing
    ));
    let e = ActionEnv {
        target_output: Some(9),
        ..env(0, on(1))
    };
    assert!(matches!(
        act(&mut desk, Action::SendToOutput(Direction::Left), &e),
        Effect::SendTo(1, 9)
    ));
}

#[test]
fn other_actions_have_their_effects() {
    let mut desk: Desk<u32> = Desk::new();
    match act(&mut desk, Action::Exec(String::from("foot")), &env(0, None)) {
        Effect::Spawn(cmd) => assert_eq!(cmd, "foot"),
        _ => panic!("nothing was started"),
    }
    assert_eq!(
        desk.exec_cursor,
        Some(ExecCursor {
            show_at: 1150,
            deadline: 6000,
        })
    );
    assert!(matches!(
        act(&mut desk, Action::CloseWindow, &env(0, pinned(2))),
        Effect::Close(2)
    ));
    assert!(matches!(
        act(&mut desk, Action::CenterWindow, &env(0, on(1))),
        Effect::Navigate(1, true)
    ));
    assert!(matches!(
        act(&mut desk, Action::CenterWindow, &env(0, None)),
        Effect::Navigate(2, true)
    ));
    let e = ActionEnv {
        nearest: Some(NavTarget::Anchor(5, 6)),
        ..env(0, None)
    };
    assert!(matches!(
        act(&mut desk, Action::CenterNearest(Direction::Up), &e),
        Effect::CenterOn(5, 6)
    ));
    assert!(matches!(
        act(&mut desk, Action::GoToPosition(3, 4), &env(0, None)),
        Effect::CenterOn(3, -4)
    ));
    assert!(matches!(
        act(&mut desk, Action::Quit, &env(0, None)),
        Effect::Quit
    ));
}

#[test]
fn diagonal_nudges_are_as_long_as_straight_ones() {
    assert_eq!(diagonal_step(20), 14);
    assert_eq!(diagonal_step(-20), -14);
    assert_eq!(diagonal_step(1), 1);
    assert_eq!(diagonal_step(0), 0);
    for step in -300..300i64 {
        let expected = (step as f64 * std::f64::consts::FRAC_1_SQRT_2).round() as i64;
        assert_eq!(diagonal_step(step), expected);
    }
    assert_eq!(nudged((0, 0), Direction::UpRight, 20), (14, -14));
    assert_eq!(nudged((i32::MAX, 0), Direction::Right, 20), (i32::MAX, 0));
}

#[test]
fn keys_end_cycling_act_or_go_on() {
    let config = Config::defaults(String::from("foot"), String::from("fuzzel"));
    let logo = Modifiers {
        logo: true,
        ..Modifiers::default()
    };
    assert!(matches!(
        filter_key(&config, false, &logo, true, KEY_Q),
        KeyOutcome::Intercept(Action::CloseWindow)
    ));
    assert!(matches!(
        filter_key(&config, false, &logo, false, KEY_Q),
        KeyOutcome::Forward
    ));
    assert!(matches!(
        filter_key(&config, false, &Modifiers::default(), true, KEY_Q),
        KeyOutcome::Forward
    ));
    assert!(matches!(
        filter_key(&config, true, &Modifiers::default(), false, KEY_TAB),
        KeyOutcome::EndCycle
    ));
    let alt = Modifiers {
        alt: true,
        ..Modifiers::default()
    };
    assert!(matches!(
        filter_key(&config, true, &alt, true, KEY_RIGHT),
        KeyOutcome::Forward
    ));
}

#[test]
fn held_keys_repeat() {
    let mut repeat = KeyRepeat::new();
    repeat.action_started(105, &Action::ZoomIn, 1000, 200);
    assert!(repeat.tick(1199, 25).is_none());
    assert!(matches!(repeat.tick(1200, 25), Some(Action::ZoomIn)));
    assert!(repeat.tick(1239, 25).is_none());
    assert!(matches!(repeat.tick(1240, 25), Some(Action::ZoomIn)));
    repeat.key_released(106);
    assert!(repeat.held.is_some());
    repeat.key_released(105);
    assert!(repeat.tick(9000, 25).is_none());
    repeat.action_started(105, &Action::ZoomIn, 1000, 200);
    repeat.action_started(106, &Action::CloseWindow, 1000, 200);
    assert!(repeat.held.is_none());
}

#[test]
fn every_edge_is_one_bit() {
    for e in [
        ResizeEdge::Empty,
        ResizeEdge::Top,
        ResizeEdge::Bottom,
        ResizeEdge::Left,
        ResizeEdge::TopLeft,
        ResizeEdge::BottomLeft,
        ResizeEdge::Right,
        ResizeEdge::TopRight,
        ResizeEdge::BottomRight,
    ] {
        assert_eq!(has_top(e), e.mask() & 1 != 0);
        assert_eq!(has_bottom(e), e.mask() & 2 != 0);
        assert_eq!(has_left(e), e.mask() & 4 != 0);
        assert_eq!(has_right(e), e.mask() & 8 != 0);
    }
    assert_eq!(resize_cursor(ResizeEdge::TopRight), CursorIcon::NeResize);
    assert_eq!(resize_cursor(ResizeEdge::Empty), CursorIcon::Default);
}

#[test]
fn a_resize_keeps_the_other_edges() {
    let at = Point { x: 100, y: 100 };
    let size = Size { w: 300, h: 200 };
    let mut grab = ResizeSurfaceGrab::new((0, 0), ResizeEdge::TopLeft, at, size);
    assert_eq!(grab.motion((px(-50), px(20))), Some(Size { w: 350, h: 180 }));
    assert_eq!(grab.motion((px(-50), px(20) + 7)), None);
    let mut state = grab.released();
    assert_eq!(
        state.commit(Size { w: 350, h: 180 }),
        Some(Point { x: 50, y: 120 })
    );
    assert_eq!(state, ResizeState::Idle);
    assert_eq!(state.commit(Size { w: 1, h: 1 }), None);
}

#[test]
fn a_resize_goes_on_until_it_is_released() {
    let at = Point { x: 0, y: 0 };
    let size = Size { w: 100, h: 100 };
    let mut state = ResizeState::begin(ResizeEdge::Right, at, size);
    assert_eq!(state.commit(Size { w: 150, h: 100 }), Some(at));
    assert_ne!(state, ResizeState::Idle);
    state.release();
    assert_eq!(state.commit(Size { w: 160, h: 100 }), Some(at));
    assert_eq!(state, ResizeState::default());
    assert_eq!(
        resized(ResizeEdge::BottomRight, size, (px(-500), px(10))),
        Size { w: 1, h: 110 }
    );
}

#[test]
fn the_grid_tells_the_edges() {
    let at = Point { x: 0, y: 0 };
    let size = Size { w: 300, h: 300 };
    let edge = |x: i64, y: i64| edges_from_position((px(x), px(y)), at, size);
    assert_eq!(edge(50, 50), ResizeEdge::TopLeft);
    assert_eq!(edge(150, 50), ResizeEdge::Top);
    assert_eq!(edge(250, 150), ResizeEdge::Right);
    assert_eq!(edge(150, 150), ResizeEdge::BottomRight);
    assert_eq!(edge(50, 250), ResizeEdge::BottomLeft);
}

#[test]
fn dragging_back_puts_a_window_back() {
    let at = Point { x: 10, y: -10 };
    let grab = MoveSurfaceGrab::new((px(5), px(5)), at);
    assert_eq!(grab.motion((px(25), px(4))), Point { x: 30, y: -11 });
    assert_eq!(grab.motion((px(5), px(5))), at);
    assert_eq!(moved(at, (-1, px(1) + 1)), Point { x: 10, y: -9 });
    assert_eq!(keep_on_output(-5, 100), 0);
    assert_eq!(keep_on_output(px(100), 100), px(99));
    assert_eq!(keep_on_output(px(50), 100), px(50));
}

#[test]
fn a_short_press_on_the_canvas_is_a_click() {
    let mut grab = PanGrab::new((px(10), px(10)), true);
    assert_eq!(grab.motion((px(13), px(13))), (px(-3), px(-3)));
    assert!(grab.unfocuses());
    assert_eq!(grab.motion((px(13), px(14))), (0, px(-1)));
    assert!(!grab.unfocuses());
    grab.motion((px(10), px(10)));
    assert!(!grab.unfocuses());
    assert!(!PanGrab::new((0, 0), false).unfocuses());
}
