use driftwm::config::types::{
    Action, BindingContext, ContinuousAction, Direction, GestureBinding, GestureConfigEntry,
    GestureTrigger, Modifiers, MouseAction, MouseBinding, MouseTrigger, ThresholdAction, BTN_LEFT,
    BTN_MIDDLE, BTN_RIGHT,
};
use driftwm::config::{AxisSource, Config};
use driftwm::decorations::DecorationHit;
use driftwm::geometry::{Point, ResizeEdge, Size};
use driftwm::gestures::{
    build_swipe_threshold, clamped_delta, direction_from_vector, dragged_in_layout,
    fullscreen_pinch, has_swipe_direction_bindings, swipe_leaves_fullscreen, FullscreenPinch,
    GestureEnv, GestureState, GestureWindow, Gestures, HoldEnd, PinchBegin, PinchEnd, PinchUpdate,
    SwipeBegin, SwipeEnd, SwipeMotion, SwipeStart, SwipeUpdate,
};
use driftwm::pointer::{
    axis_part, fullscreen_press, pointer_context, press, route_scroll, AxisPart, FullscreenPress,
    PendingMiddleClick, PointerMemory, PressEnv, PressOutcome, Refocus, ScrollOutcome, ScrollRoute,
    WindowUnder,
};
use driftwm::units::UNITS_PER_PIXEL;

fn px(v: i64) -> i64 {
    v * UNITS_PER_PIXEL
}

fn config() -> Config {
    Config::defaults(String::from("foot"), String::from("fuzzel"))
}

fn alt() -> Modifiers {
    Modifiers {
        alt: true,
        ..Modifiers::default()
    }
}

fn logo() -> Modifiers {
    Modifiers {
        logo: true,
        ..Modifiers::default()
    }
}

fn under(widget: bool, no_focus: bool) -> WindowUnder {
    WindowUnder {
        id: 7,
        has_surface: true,
        widget,
        no_focus,
    }
}

fn press_env(window: Option<WindowUnder>) -> PressEnv {
    PressEnv {
        over_layer: false,
        decoration: None,
        window,
        canvas_layer: false,
    }
}

fn gesture_env(modifiers: Modifiers, widget: Option<bool>) -> GestureEnv {
    GestureEnv {
        modifiers,
        context: if widget.is_some() {
            BindingContext::OnWindow
        } else {
            BindingContext::OnCanvas
        },
        pos: (px(50), px(50)),
        window: widget.map(|widget| GestureWindow {
            id: 7,
            has_surface: true,
            widget,
            location: Point { x: 0, y: 0 },
            size: Size { w: 300, h: 300 },
        }),
        active_output: Some(2),
    }
}

fn motion(x: i64, y: i64) -> SwipeMotion {
    SwipeMotion {
        delta: (px(x), px(y)),
        canvas_delta: (px(x), px(y)),
        x11: false,
        now: 0,
    }
}

#[test]
fn windows_that_take_no_focus_count_as_canvas() {
    assert_eq!(
        pointer_context(Some(under(false, false)), false),
        BindingContext::OnWindow
    );
    assert_eq!(
        pointer_context(Some(under(false, true)), false),
        BindingContext::OnCanvas
    );
    assert_eq!(pointer_context(None, true), BindingContext::OnWindow);
    assert_eq!(pointer_context(None, false), BindingContext::OnCanvas);
}

#[test]
fn a_middle_click_is_held_back() {
    let mut memory = PointerMemory::new();
    memory.last_scroll_pan = Some(5);
    let down = memory.button(BTN_MIDDLE, true, 100, false, true);
    assert!(down.held && down.flush.is_none());
    assert_eq!(memory.last_scroll_pan, None);
    assert!(memory.button(BTN_MIDDLE, false, 130, false, true).held);
    let click = PendingMiddleClick {
        press_time: 100,
        release_time: Some(130),
    };
    // A second one sends the first.
    let again = memory.button(BTN_MIDDLE, true, 200, false, false);
    assert_eq!(again.flush, Some(click));
    assert!(!again.held);
    assert_eq!(memory.take_middle_click(), None);
    memory.button(BTN_MIDDLE, true, 100, false, true);
    memory.button(BTN_MIDDLE, false, 130, false, true);
    assert_eq!(memory.take_middle_click(), Some(click));
    assert_eq!(memory.take_middle_click(), None);
    assert!(!memory.button(BTN_MIDDLE, true, 100, true, true).held);
    assert!(!memory.button(BTN_LEFT, true, 100, false, true).held);
}

#[test]
fn presses_leave_fullscreen_when_bound() {
    let mut config = config();
    assert_eq!(
        fullscreen_press(&config, &Modifiers::default(), BTN_LEFT),
        FullscreenPress::Forward
    );
    assert_eq!(
        fullscreen_press(&config, &alt(), BTN_LEFT),
        FullscreenPress::LeaveAndGoOn
    );
    config.mouse.insert(
        BindingContext::OnWindow,
        MouseBinding {
            modifiers: alt(),
            trigger: MouseTrigger::Button(BTN_MIDDLE),
        },
        MouseAction::Action(Action::ToggleFullscreen),
    );
    assert_eq!(
        fullscreen_press(&config, &alt(), BTN_MIDDLE),
        FullscreenPress::Leave
    );
}

#[test]
fn presses_drag_windows_and_the_canvas() {
    let config = config();
    let none = Modifiers::default();
    assert!(matches!(
        press(&config, &alt(), BTN_LEFT, &press_env(Some(under(false, false)))),
        (None, PressOutcome::Move { window: 7, cluster: false })
    ));
    assert!(matches!(
        press(&config, &alt(), BTN_RIGHT, &press_env(Some(under(false, false)))),
        (None, PressOutcome::Resize { window: 7, edge: None, cluster: false })
    ));
    assert!(matches!(
        press(&config, &logo(), BTN_LEFT, &press_env(None)),
        (None, PressOutcome::Pan { from_empty_canvas: true })
    ));
    assert!(matches!(
        press(&config, &none, BTN_LEFT, &press_env(Some(under(false, false)))),
        (None, PressOutcome::Forward(Refocus::RaiseAndFocus(7)))
    ));
    assert!(matches!(
        press(&config, &none, BTN_LEFT, &press_env(None)),
        (None, PressOutcome::Pan { from_empty_canvas: true })
    ));
    // A binding that finds no window to drag leaves the press to the canvas.
    assert!(matches!(
        press(&config, &alt(), BTN_LEFT, &press_env(None)),
        (None, PressOutcome::Pan { from_empty_canvas: true })
    ));
    assert!(matches!(
        press(&config, &none, BTN_RIGHT, &press_env(None)),
        (None, PressOutcome::Forward(Refocus::Nothing))
    ));
    let card = PressEnv {
        canvas_layer: true,
        ..press_env(None)
    };
    assert!(matches!(
        press(&config, &none, BTN_LEFT, &card),
        (None, PressOutcome::Forward(Refocus::FocusCanvasLayer))
    ));
    let layer = PressEnv {
        over_layer: true,
        ..press_env(Some(under(false, false)))
    };
    assert!(matches!(
        press(&config, &alt(), BTN_LEFT, &layer),
        (None, PressOutcome::Forward(Refocus::Nothing))
    ));
}

#[test]
fn pinned_windows_are_not_dragged() {
    let config = config();
    for button in [BTN_LEFT, BTN_RIGHT] {
        let (_, outcome) = press(&config, &alt(), button, &press_env(Some(under(true, false))));
        assert!(!matches!(outcome, PressOutcome::Move { .. }));
        assert!(!matches!(outcome, PressOutcome::Resize { .. }));
    }
    let bar = PressEnv {
        decoration: Some((under(true, false), DecorationHit::TitleBar)),
        ..press_env(None)
    };
    let (first, outcome) = press(&config, &Modifiers::default(), BTN_LEFT, &bar);
    assert_eq!(first, Some(7));
    assert!(matches!(outcome, PressOutcome::Forward(_)));
}

#[test]
fn decorations_take_the_left_button() {
    let config = config();
    let hit = |hit: DecorationHit, button: u32| {
        press(
            &config,
            &Modifiers::default(),
            button,
            &PressEnv {
                decoration: Some((under(false, false), hit)),
                ..press_env(None)
            },
        )
        .1
    };
    assert!(matches!(
        hit(DecorationHit::CloseButton, BTN_LEFT),
        PressOutcome::Close(7)
    ));
    assert!(matches!(
        hit(DecorationHit::TitleBar, BTN_LEFT),
        PressOutcome::Move { window: 7, cluster: false }
    ));
    assert!(matches!(
        hit(DecorationHit::ResizeBorder(ResizeEdge::Left), BTN_LEFT),
        PressOutcome::Resize {
            window: 7,
            edge: Some(ResizeEdge::Left),
            cluster: false,
        }
    ));
    assert!(matches!(
        hit(DecorationHit::CloseButton, BTN_RIGHT),
        PressOutcome::Forward(_)
    ));
}

#[test]
fn scrolling_sticks_to_the_canvas() {
    let config = config();
    let none = Modifiers::default();
    let mut memory = PointerMemory::new();
    let finger = AxisSource::Finger;
    let window = BindingContext::OnWindow;
    let canvas = BindingContext::OnCanvas;
    assert_eq!(
        memory.scroll(&config, &none, finger, window, 1000),
        ScrollOutcome::Forward
    );
    assert_eq!(
        memory.scroll(&config, &none, finger, canvas, 1000),
        ScrollOutcome::Pan
    );
    assert_eq!(
        memory.scroll(&config, &none, finger, window, 1149),
        ScrollOutcome::Pan
    );
    assert_eq!(
        memory.scroll(&config, &none, finger, window, 1299),
        ScrollOutcome::Forward
    );
    assert_eq!(
        memory.scroll(&config, &none, AxisSource::Wheel, canvas, 9000),
        ScrollOutcome::Zoom
    );
}

#[test]
fn scrolls_are_routed() {
    let config = config();
    let none = Modifiers::default();
    let finger = AxisSource::Finger;
    assert_eq!(
        route_scroll(&config, &none, finger, true, true),
        ScrollRoute::Forward
    );
    assert_eq!(
        route_scroll(&config, &none, finger, false, true),
        ScrollRoute::Forward
    );
    assert_eq!(
        route_scroll(&config, &logo(), finger, false, true),
        ScrollRoute::LeaveFullscreen
    );
    assert_eq!(
        route_scroll(&config, &none, finger, false, false),
        ScrollRoute::GoOn
    );
    assert_eq!(axis_part(true, finger), AxisPart::Value);
    assert_eq!(axis_part(false, finger), AxisPart::Stop);
    assert_eq!(axis_part(false, AxisSource::Wheel), AxisPart::Nothing);
}

#[test]
fn fingers_leave_fullscreen() {
    assert!(swipe_leaves_fullscreen(true, 3));
    assert!(!swipe_leaves_fullscreen(true, 2));
    assert!(!swipe_leaves_fullscreen(false, 3));
    assert_eq!(fullscreen_pinch(false, 2), FullscreenPinch::GoOn);
    assert_eq!(fullscreen_pinch(true, 2), FullscreenPinch::Forward);
    assert_eq!(fullscreen_pinch(true, 4), FullscreenPinch::Leave);
}

#[test]
fn a_swipe_pans() {
    let config = config();
    let mut gestures: Gestures<u32> = Gestures::new();
    let env = gesture_env(Modifiers::default(), None);
    assert_eq!(
        gestures.swipe_begin(&config, &env, 3, false),
        SwipeBegin {
            flush_middle_click: false,
            cancel_animations: true,
            start: SwipeStart::Follow,
        }
    );
    assert!(matches!(
        gestures.swipe_update(&motion(3, 4)),
        SwipeUpdate::Pan
    ));
    assert!(matches!(gestures.swipe_end(), SwipeEnd::Drift(Some(2))));
    assert!(gestures.state.is_none());
    assert_eq!(gestures.output, None);
    // Two fingers are the client's.
    let begin = gestures.swipe_begin(&config, &env, 2, true);
    assert_eq!(begin.start, SwipeStart::Forward);
    assert!(begin.flush_middle_click);
    assert!(matches!(
        gestures.swipe_update(&motion(3, 4)),
        SwipeUpdate::Forward
    ));
    assert!(matches!(gestures.swipe_end(), SwipeEnd::Forward));
}

#[test]
fn a_double_tap_drags_a_window() {
    let config = config();
    let mut gestures: Gestures<u32> = Gestures::new();
    let none = Modifiers::default();
    let begin = gestures.swipe_begin(&config, &gesture_env(none, Some(false)), 3, true);
    assert_eq!(begin.start, SwipeStart::Move(7));
    assert!(!begin.flush_middle_click);
    assert!(matches!(
        gestures.swipe_update(&motion(3, 4)),
        SwipeUpdate::Move
    ));
    let (output, at) = gestures.drag_pointer(
        2,
        (px(95), px(10)),
        (px(10), 0),
        Point { x: 0, y: 0 },
        Size { w: 100, h: 100 },
        Some((3, Point { x: 100, y: 0 })),
    );
    assert_eq!((output, at), (3, (px(5), px(10))));
    assert_eq!(gestures.output, Some(3));
    assert!(matches!(gestures.swipe_end(), SwipeEnd::Release));
    // A pinned window is panned over.
    let begin = gestures.swipe_begin(&config, &gesture_env(none, Some(true)), 3, true);
    assert_eq!(begin.start, SwipeStart::Follow);
    assert!(matches!(gestures.swipe_end(), SwipeEnd::Drift(_)));
}

#[test]
fn a_swipe_resizes() {
    let config = config();
    let mut gestures: Gestures<u32> = Gestures::new();
    let begin = gestures.swipe_begin(&config, &gesture_env(alt(), Some(false)), 3, false);
    assert_eq!(
        begin.start,
        SwipeStart::Resize {
            window: 7,
            edges: ResizeEdge::TopLeft,
            cluster: false,
        }
    );
    assert!(matches!(
        gestures.swipe_update(&motion(10, -20)),
        SwipeUpdate::Resize(Some(Size { w: 290, h: 320 }))
    ));
    assert!(matches!(
        gestures.swipe_update(&motion(0, 0)),
        SwipeUpdate::Resize(None)
    ));
    let x11 = |now| SwipeMotion {
        x11: true,
        now,
        ..motion(1, 0)
    };
    assert!(matches!(
        gestures.swipe_update(&x11(100)),
        SwipeUpdate::Resize(Some(Size { w: 289, h: 320 }))
    ));
    assert!(matches!(
        gestures.swipe_update(&x11(110)),
        SwipeUpdate::Resize(None)
    ));
    assert!(matches!(
        gestures.swipe_update(&x11(116)),
        SwipeUpdate::Resize(Some(Size { w: 287, h: 320 }))
    ));
    assert!(matches!(
        gestures.swipe_end(),
        SwipeEnd::FinishResize {
            window: 7,
            edges: ResizeEdge::TopLeft,
            ..
        }
    ));
}

#[test]
fn a_swipe_fires_once() {
    let config = config();
    let mut gestures: Gestures<u32> = Gestures::new();
    let env = gesture_env(Modifiers::default(), None);
    gestures.swipe_begin(&config, &env, 4, false);
    assert!(matches!(
        gestures.swipe_update(&motion(10, 0)),
        SwipeUpdate::Nothing
    ));
    assert!(matches!(
        gestures.swipe_update(&motion(6, 0)),
        SwipeUpdate::Act(Action::CenterNearest(Direction::Right))
    ));
    assert!(matches!(
        gestures.swipe_update(&motion(60, 0)),
        SwipeUpdate::Nothing
    ));
    assert!(matches!(gestures.swipe_end(), SwipeEnd::Nothing));
}

#[test]
fn a_direction_has_its_own_action() {
    let mut config = config();
    let env = gesture_env(Modifiers::default(), None);
    assert!(!has_swipe_direction_bindings(&config, &env, 5));
    config.gestures.insert(
        BindingContext::Anywhere,
        GestureBinding {
            modifiers: Modifiers::default(),
            trigger: GestureTrigger::SwipeUp { fingers: 5 },
        },
        GestureConfigEntry::Threshold(ThresholdAction::Fixed(Action::Quit)),
    );
    assert!(has_swipe_direction_bindings(&config, &env, 5));
    let state: GestureState<u32> = build_swipe_threshold(&config, &env, 5, None);
    assert!(matches!(
        state,
        GestureState::SwipeThreshold {
            fired: false,
            up: Some(ThresholdAction::Fixed(Action::Quit)),
            down: None,
            left: None,
            right: None,
            directional: None,
            ..
        }
    ));
    let mut gestures: Gestures<u32> = Gestures::new();
    assert_eq!(
        gestures.swipe_begin(&config, &env, 5, false).start,
        SwipeStart::Follow
    );
    assert!(matches!(
        gestures.swipe_update(&motion(0, -20)),
        SwipeUpdate::Act(Action::Quit)
    ));
    gestures.swipe_end();
    gestures.swipe_begin(&config, &env, 5, false);
    assert!(matches!(
        gestures.swipe_update(&motion(0, 20)),
        SwipeUpdate::Nothing
    ));
}

#[test]
fn opposite_vectors_point_opposite_ways() {
    assert_eq!(direction_from_vector((10, 0)), Direction::Right);
    assert_eq!(direction_from_vector((-10, 0)), Direction::Left);
    assert_eq!(direction_from_vector((10, 10)), Direction::DownRight);
    assert_eq!(direction_from_vector((-10, -10)), Direction::UpLeft);
    assert_eq!(direction_from_vector((10_000, 4_142)), Direction::Right);
    assert_eq!(direction_from_vector((10_000, 4_143)), Direction::DownRight);
    for x in -12..13i64 {
        for y in -12..13i64 {
            if (x, y) != (0, 0) {
                let (a, b) = direction_from_vector((x, y)).signs();
                assert_eq!(direction_from_vector((-x, -y)).signs(), (-a, -b));
            }
        }
    }
}

#[test]
fn the_pointer_stays_on_its_output() {
    let size = Size { w: 100, h: 50 };
    assert_eq!(
        clamped_delta((px(90), px(10)), (px(20), px(-20)), size),
        (px(9), px(-10))
    );
    assert_eq!(
        dragged_in_layout((px(1), px(2)), (px(3), px(4)), Point { x: 5, y: 6 }),
        (px(9), px(12))
    );
    let mut gestures: Gestures<u32> = Gestures::new();
    let at = gestures.drag_pointer(
        2,
        (px(95), px(10)),
        (px(10), 0),
        Point { x: 0, y: 0 },
        size,
        None,
    );
    assert_eq!(at, (2, (px(99), px(10))));
    assert_eq!(gestures.output, None);
}

#[test]
fn a_pinch_zooms_or_fires() {
    let config = config();
    let env = gesture_env(Modifiers::default(), None);
    let mut gestures: Gestures<u32> = Gestures::new();
    assert_eq!(gestures.pinch_begin(&config, &env, 2, 40), PinchBegin::Zoom);
    assert!(matches!(
        gestures.pinch_update(1_100_000),
        PinchUpdate::Zoom(40)
    ));
    assert_eq!(gestures.pinch_end(), PinchEnd::SnapZoom(Some(2)));
    assert_eq!(
        gestures.pinch_begin(&config, &env, 4, 40),
        PinchBegin::Threshold
    );
    assert!(matches!(
        gestures.pinch_update(800_000),
        PinchUpdate::Nothing
    ));
    assert!(matches!(
        gestures.pinch_update(799_999),
        PinchUpdate::Act(Action::ZoomToFit)
    ));
    assert!(matches!(
        gestures.pinch_update(700_000),
        PinchUpdate::Nothing
    ));
    assert!(matches!(
        gestures.pinch_update(1_200_001),
        PinchUpdate::Act(Action::HomeToggle)
    ));
    assert!(matches!(
        gestures.pinch_update(1_300_000),
        PinchUpdate::Nothing
    ));
    assert_eq!(gestures.pinch_end(), PinchEnd::Nothing);
    assert_eq!(
        gestures.pinch_begin(&config, &env, 5, 40),
        PinchBegin::Forward
    );
    assert!(matches!(gestures.pinch_update(1), PinchUpdate::Forward));
    assert_eq!(gestures.pinch_end(), PinchEnd::Forward);
}

#[test]
fn a_hold_acts_when_it_ends() {
    let config = config();
    let env = gesture_env(Modifiers::default(), None);
    let mut gestures: Gestures<u32> = Gestures::new();
    assert!(!gestures.hold_begin(&config, &env, 4));
    assert!(matches!(
        gestures.hold_end(false),
        HoldEnd::Act(Action::CenterWindow)
    ));
    gestures.hold_begin(&config, &env, 4);
    assert!(matches!(gestures.hold_end(true), HoldEnd::Nothing));
    assert!(gestures.hold_begin(&config, &env, 2));
    assert!(matches!(gestures.hold_end(false), HoldEnd::Forward));
}

#[test]
fn continuous_bindings_without_a_window_pan() {
    let mut config = config();
    config.gestures.insert(
        BindingContext::Anywhere,
        GestureBinding {
            modifiers: Modifiers::default(),
            trigger: GestureTrigger::Swipe { fingers: 5 },
        },
        GestureConfigEntry::Continuous(ContinuousAction::MoveWindow),
    );
    let mut gestures: Gestures<u32> = Gestures::new();
    let begin = gestures.swipe_begin(
        &config,
        &gesture_env(Modifiers::default(), None),
        5,
        false,
    );
    assert_eq!(begin.start, SwipeStart::Follow);
    assert!(matches!(gestures.state, Some(GestureState::SwipePan)));
}
