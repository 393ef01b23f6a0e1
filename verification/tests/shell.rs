use driftwm::config::parse::WindowRuleFile;
use driftwm::config::types::{Action, DecorationMode};
use driftwm::config::{Config, ConfigFile};
use driftwm::desk::{Desk, ExecCursor};
use driftwm::geometry::{Point, Rect, Size};
use driftwm::gestures::{GestureState, Gestures};
use driftwm::grabs::CursorIcon;
use driftwm::keyboard::KeyRepeat;
use driftwm::layers::{
    commit_canvas_layer, commit_taker, focus_after_layer, layer_needs, layer_output,
    unconstrain_popup, CanvasLayer, CommitTaker, LayerNeeds, PopupParent,
};
use driftwm::pointer::{PendingMiddleClick, PointerMemory};
use driftwm::session::{Session, SessionLock};
use driftwm::shell::{
    configure_request, corner_from_middle, cursor_image, may_grab, popup_grab_denied,
    request_activation, token_created, x11_placement, Activation, CursorImage, Shell,
};

fn rule(app_id: &str, position: Option<(i32, i32)>, decoration: Option<&str>) -> WindowRuleFile {
    WindowRuleFile {
        app_id: String::from(app_id),
        position,
        widget: false,
        no_focus: false,
        decoration: decoration.map(String::from),
        blur: false,
        opacity: None,
    }
}

fn config() -> Config {
    let mut raw = ConfigFile::default();
    raw.window_rules = Some(vec![
        rule("placed", Some((100, 50)), None),
        WindowRuleFile {
            widget: true,
            ..rule("clock", Some((0, 0)), Some("none"))
        },
        WindowRuleFile {
            no_focus: true,
            ..rule("osd", None, None)
        },
        rule("framed", None, Some("server")),
    ]);
    Config::from_raw(raw, String::from("foot"), String::from("fuzzel"))
}

fn size(w: i32, h: i32) -> Size {
    Size { w, h }
}

fn rect(x: i32, y: i32, w: i32, h: i32) -> Rect {
    Rect {
        loc: Point { x, y },
        size: Size { w, h },
    }
}

#[test]
fn a_window_appears_once_it_has_a_size() {
    let config = config();
    let mut shell = Shell::new();
    let mut desk: Desk<u32> = Desk::new();
    desk.exec_cursor = Some(ExecCursor {
        show_at: 0,
        deadline: 1,
    });
    shell.new_toplevel(1);
    let middle = Some(Point { x: 500, y: 400 });
    assert!(shell
        .commit_window(&mut desk, &config, 1, Some("foot"), size(0, 0), middle)
        .is_none());
    let p = shell
        .commit_window(&mut desk, &config, 1, Some("foot"), size(201, 100), middle)
        .unwrap();
    assert_eq!(p.at, Point { x: 400, y: 350 });
    assert!(p.activate && !p.navigate && p.clear_exec_cursor);
    assert_eq!(p.rule, None);
    assert_eq!(p.decorate, None);
    assert!(desk.exec_cursor.is_none());
    assert!(shell
        .commit_window(&mut desk, &config, 1, Some("foot"), size(201, 100), middle)
        .is_none());
}

#[test]
fn a_rule_places_the_middle_of_a_window() {
    let config = config();
    let mut shell = Shell::new();
    let mut desk: Desk<u32> = Desk::new();
    shell.new_toplevel(1);
    let p = shell
        .commit_window(&mut desk, &config, 1, Some("placed"), size(201, 100), None)
        .unwrap();
    assert_eq!(p.at, Point { x: 0, y: -100 });
    assert!(p.navigate);
    assert_eq!(
        corner_from_middle((100, 50), size(201, 100)),
        Point { x: 0, y: -100 }
    );
    let (at, activate) = x11_placement(&config, "clock", size(100, 100), None);
    assert_eq!(at, Point { x: -50, y: -50 });
    assert!(!activate);
}

#[test]
fn unfocused_windows_leave_the_history() {
    let config = config();
    let mut shell = Shell::new();
    let mut desk: Desk<u32> = Desk::new();
    for w in [9, 1, 2] {
        desk.update_focus_history(w);
    }
    shell.new_toplevel(2);
    let p = shell
        .commit_window(&mut desk, &config, 2, Some("clock"), size(10, 10), None)
        .unwrap();
    assert!(!p.activate && p.lower_widgets && !p.navigate);
    assert_eq!(p.refocus, Some(1));
    assert_eq!(desk.focus_history, vec![1, 9]);
    // Without a frame, but the client is told not to draw one.
    assert!(p.force_server_side);
    assert_eq!(p.decorate, None);
    assert_eq!(p.rule.unwrap().decoration, DecorationMode::Off);
    shell.new_toplevel(1);
    let p = shell
        .commit_window(&mut desk, &config, 1, Some("osd"), size(10, 10), None)
        .unwrap();
    assert!(p.activate);
    assert_eq!(p.refocus, Some(9));
    assert_eq!(desk.focus_history, vec![9]);
}

#[test]
fn windows_are_decorated_once() {
    let config = config();
    let mut shell = Shell::new();
    let mut desk: Desk<u32> = Desk::new();
    shell.new_toplevel(1);
    assert_eq!(shell.request_mode(1, true, Some(0)), None);
    let p = shell
        .commit_window(&mut desk, &config, 1, None, size(300, 10), None)
        .unwrap();
    assert_eq!(p.decorate, Some(300));
    assert_eq!(shell.request_mode(1, true, Some(300)), None);
    assert_eq!(shell.request_mode(1, false, Some(300)), None);
    assert_eq!(shell.request_mode(1, true, Some(300)), Some(300));
    shell.new_toplevel(2);
    let p = shell
        .commit_window(&mut desk, &config, 2, Some("framed"), size(20, 10), None)
        .unwrap();
    assert!(p.force_server_side);
    assert_eq!(p.decorate, Some(20));
}

#[test]
fn gone_windows_are_forgotten() {
    let mut shell = Shell::new();
    let mut desk: Desk<u32> = Desk::new();
    shell.new_toplevel(1);
    shell.request_mode(1, true, Some(10));
    desk.update_focus_history(1);
    desk.enter_fullscreen(1, (0, 0), 5);
    assert_eq!(shell.toplevel_destroyed(&mut desk, 1, true), Some(5));
    assert!(desk.focus_history.is_empty());
    assert!(shell.pending_center.is_empty());
    assert!(shell.pending_ssd.is_empty());
    assert!(shell.decorated.is_empty());
    desk.update_focus_history(2);
    assert_eq!(shell.toplevel_destroyed(&mut desk, 2, false), None);
    assert_eq!(desk.focus_history, vec![2]);
    shell.request_mode(2, true, Some(10));
    assert_eq!(shell.x11_unmapped(&mut desk, 2, false), None);
    assert!(desk.focus_history.is_empty());
    assert!(shell.decorated.contains(&2));
    shell.x11_unmapped(&mut desk, 2, true);
    assert!(shell.decorated.is_empty());
}

#[test]
fn x11_windows_get_focus_and_frame() {
    let config = config();
    let mut shell = Shell::new();
    let mut desk: Desk<u32> = Desk::new();
    desk.update_focus_history(9);
    let a = shell.surface_associated(&mut desk, &config, 1, "xterm", true, 300);
    assert_eq!(a.focus, Some(1));
    assert_eq!(a.decorate, Some(300));
    assert!(a.rule.is_none());
    let a = shell.surface_associated(&mut desk, &config, 2, "osd", false, 300);
    assert_eq!(a.focus, Some(9));
    assert_eq!(a.decorate, None);
    let a = shell.surface_associated(&mut desk, &config, 3, "clock", true, 300);
    assert_eq!(a.decorate, None);
}

#[test]
fn x11_geometry_moves_the_window_along() {
    let old = rect(10, 10, 100, 100);
    let (geo, to) = configure_request(
        old,
        Some(15),
        None,
        None,
        Some(120),
        Some(Point { x: 500, y: 500 }),
    );
    assert_eq!(geo, rect(15, 10, 100, 120));
    assert_eq!(to, Some(Point { x: 505, y: 500 }));
    let (geo, to) = configure_request(old, None, None, Some(50), None, Some(old.loc));
    assert_eq!(geo, rect(10, 10, 50, 100));
    assert_eq!(to, None);
    assert_eq!(
        configure_request(old, Some(0), Some(0), None, None, None).1,
        None
    );
}

#[test]
fn the_waiting_cursor_replaces_the_default_one() {
    let exec = Some(ExecCursor {
        show_at: 100,
        deadline: 5000,
    });
    let default = CursorImage::Named(CursorIcon::Default);
    let mine = CursorImage::Surface(4);
    assert_eq!(cursor_image(mine, default, false, exec, 99), default);
    assert_eq!(
        cursor_image(mine, default, false, exec, 100),
        CursorImage::Named(CursorIcon::Wait)
    );
    assert_eq!(cursor_image(default, mine, false, exec, 100), mine);
    assert_eq!(cursor_image(mine, default, true, exec, 100), mine);
    let mut desk: Desk<u32> = Desk::new();
    token_created(&mut desk, false, 1000);
    assert!(desk.exec_cursor.is_none());
    token_created(&mut desk, true, 1000);
    assert_eq!(
        desk.exec_cursor,
        Some(ExecCursor {
            show_at: 1150,
            deadline: 6000,
        })
    );
}

#[test]
fn activation_needs_input() {
    assert_eq!(
        request_activation(false, false, Some(1), true),
        Activation::Ignore
    );
    assert_eq!(
        request_activation(true, true, Some(1), true),
        Activation::Ignore
    );
    assert_eq!(
        request_activation(true, false, Some(1), true),
        Activation::RaiseAndFocus(1)
    );
    assert_eq!(
        request_activation(true, false, Some(1), false),
        Activation::Navigate(1)
    );
    assert_eq!(request_activation(true, false, None, true), Activation::Ignore);
}

#[test]
fn grabs_are_granted_and_denied() {
    assert!(may_grab(false, true, true));
    assert!(!may_grab(true, true, true));
    assert!(!may_grab(false, false, true));
    assert!(!may_grab(false, true, false));
    assert!(popup_grab_denied(true, false, Some(false)));
    assert!(!popup_grab_denied(true, false, Some(true)));
    assert!(!popup_grab_denied(true, true, Some(false)));
    assert!(!popup_grab_denied(true, false, None));
    assert!(!popup_grab_denied(false, false, Some(false)));
}

#[test]
fn layers_on_the_canvas_stay() {
    let mut layers = vec![
        CanvasLayer {
            surface: 1,
            rule_position: (0, 0),
            position: None,
        },
        CanvasLayer {
            surface: 2,
            rule_position: (100, 100),
            position: None,
        },
    ];
    assert!(!commit_canvas_layer(&mut layers, 3, size(10, 10)));
    assert!(commit_canvas_layer(&mut layers, 2, size(0, 10)));
    assert_eq!(layers[1].position, None);
    assert!(commit_canvas_layer(&mut layers, 2, size(20, 10)));
    assert_eq!(layers[1].position, Some(Point { x: 90, y: -105 }));
    assert!(commit_canvas_layer(&mut layers, 2, size(200, 100)));
    assert_eq!(layers[1].position, Some(Point { x: 90, y: -105 }));
    assert_eq!(layers[0].position, None);
}

#[test]
fn commits_have_a_taker() {
    assert_eq!(commit_taker(true, true, true), CommitTaker::Lock);
    assert_eq!(commit_taker(false, true, true), CommitTaker::CanvasLayer);
    assert_eq!(commit_taker(false, false, true), CommitTaker::Layer);
    assert_eq!(commit_taker(false, false, false), CommitTaker::Toplevel);
    assert_eq!(
        layer_needs(false, true, false),
        LayerNeeds {
            configure: true,
            focus: true,
        }
    );
    assert_eq!(
        layer_needs(true, true, true),
        LayerNeeds {
            configure: false,
            focus: false,
        }
    );
    assert_eq!(layer_output(Some(5), &[1, 2]), Some(5));
    assert_eq!(layer_output(None, &[1, 2]), Some(1));
    assert_eq!(layer_output(None, &[]), None);
    assert_eq!(focus_after_layer(false, &[1]), None);
    assert_eq!(focus_after_layer(true, &[1]), Some(Some(1)));
    assert_eq!(focus_after_layer(true, &[]), Some(None));
}

#[test]
fn popups_stay_in_sight() {
    let output = Some(rect(0, 0, 1920, 1080));
    let sight = rect(500, 500, 960, 540);
    let at = Point { x: 100, y: 50 };
    let nested = Point { x: 10, y: 5 };
    assert_eq!(
        unconstrain_popup(PopupParent::Window(at), output, sight, nested),
        Some(rect(-110, -55, 1920, 1080))
    );
    assert_eq!(
        unconstrain_popup(PopupParent::CanvasLayer(at), output, sight, nested),
        Some(rect(390, 445, 960, 540))
    );
    assert_eq!(
        unconstrain_popup(
            PopupParent::Layer(at),
            Some(rect(7, 7, 1920, 1080)),
            sight,
            nested
        ),
        Some(rect(-110, -55, 1920, 1080))
    );
    assert_eq!(
        unconstrain_popup(PopupParent::Layer(at), None, sight, nested),
        None
    );
}

#[test]
fn the_session_locks_and_unlocks() {
    let mut session = Session::new();
    let mut desk: Desk<u32> = Desk::new();
    let mut gestures: Gestures<u32> = Gestures::new();
    let mut repeat = KeyRepeat::new();
    let mut pointer = PointerMemory::new();
    desk.update_focus_history(4);
    desk.exec_cursor = Some(ExecCursor {
        show_at: 0,
        deadline: 1,
    });
    gestures.state = Some(GestureState::SwipePan);
    repeat.action_started(1, &Action::ZoomIn, 0, 200);
    pointer.pending_middle_click = Some(PendingMiddleClick {
        press_time: 1,
        release_time: None,
    });
    session.lock(&mut desk, &mut gestures, &mut repeat, &mut pointer);
    assert_eq!(session.lock, SessionLock::Pending);
    assert!(gestures.state.is_none());
    assert!(repeat.held.is_none());
    assert!(pointer.pending_middle_click.is_none());
    assert!(desk.exec_cursor.is_none());
    assert_eq!(session.new_surface(50, Some(1), Some(2)), Some(1));
    assert_eq!(session.new_surface(51, None, Some(2)), Some(2));
    assert_eq!(session.new_surface(52, None, None), None);
    assert!(!session.commit(52));
    assert!(session.commit(51));
    assert_eq!(session.lock, SessionLock::Locked);
    assert!(!session.commit(50));
    assert_eq!(session.unlock(&desk), Some(4));
    assert_eq!(session.lock, SessionLock::Unlocked);
    assert!(session.lock_surfaces.is_empty());
}

#[test]
fn the_last_lock_surface_of_an_output_counts() {
    let mut session = Session::new();
    session.new_surface(50, Some(1), None);
    session.new_surface(51, Some(2), None);
    session.new_surface(52, Some(1), None);
    assert_eq!(session.lock_surfaces, vec![(2, 51), (1, 52)]);
    assert_eq!(session.surface_for(1), Some(52));
    assert_eq!(session.surface_for(2), Some(51));
    assert_eq!(session.surface_for(3), None);
    session.output_gone(2);
    assert_eq!(session.lock_surfaces, vec![(1, 52)]);
}
