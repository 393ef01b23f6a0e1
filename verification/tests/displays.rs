use driftwm::canvas::CanvasPos;
use driftwm::config::parse::OutputRuleFile;
use driftwm::config::types::{OutputMode, Transform};
use driftwm::config::{Config, ConfigFile};
use driftwm::displays::{
    apply_output_config, Connect, Disconnect, Displays, GpuSearch, OutputHead,
    RequestedHeadConfig, SearchStep,
};
use driftwm::geometry::{Point, Size};
use driftwm::gestures::{GestureState, Gestures};
use driftwm::outputs::{
    collect_modes, connector_name, connector_type_name, create_surface, describe_output,
    display_info, gpu_candidates, pick_mode_for_config, pick_preferred_mode, DisplayMode,
    Interface, ModeInfo,
};
use driftwm::runtime::{
    checks_config, choose_backend, find_argument, frame_step, log_err, should_reload, BackendKind,
};
use driftwm::units::UNITS_PER_PIXEL;

fn mode(width: u16, height: u16, vrefresh: u32, preferred: bool) -> DisplayMode {
    DisplayMode {
        width,
        height,
        vrefresh,
        preferred,
    }
}

fn strings(list: &[&str]) -> Vec<String> {
    list.iter().map(|s| String::from(*s)).collect()
}

fn config(entry: Option<OutputRuleFile>) -> Config {
    let mut raw = ConfigFile::default();
    raw.outputs = entry.map(|e| vec![e]);
    Config::from_raw(raw, String::from("foot"), String::from("fuzzel"))
}

#[test]
fn the_preferred_mode_is_taken() {
    let modes = [
        mode(1920, 1080, 60, false),
        mode(1280, 720, 60, true),
        mode(3840, 2160, 30, true),
    ];
    assert_eq!(pick_preferred_mode(&modes), Some(1));
    let modes = [
        mode(1920, 1080, 60, false),
        mode(1080, 1920, 75, false),
        mode(1280, 720, 144, false),
    ];
    assert_eq!(pick_preferred_mode(&modes), Some(1));
    let same = [mode(10, 10, 60, false), mode(10, 10, 60, false)];
    assert_eq!(pick_preferred_mode(&same), Some(1));
    assert_eq!(pick_preferred_mode(&[]), None);
}

#[test]
fn the_configured_mode_is_taken() {
    let modes = [
        mode(1920, 1080, 60, true),
        mode(1280, 720, 60, false),
        mode(1280, 720, 75, false),
        mode(1280, 720, 60, false),
    ];
    assert_eq!(
        pick_mode_for_config(&modes, &OutputMode::Preferred),
        Some(0)
    );
    assert_eq!(
        pick_mode_for_config(&modes, &OutputMode::Size(1280, 720)),
        Some(2)
    );
    assert_eq!(
        pick_mode_for_config(&modes, &OutputMode::SizeRefresh(1280, 720, 60)),
        Some(1)
    );
    // What is not there falls back to the preferred mode.
    assert_eq!(
        pick_mode_for_config(&modes, &OutputMode::SizeRefresh(1280, 720, 90)),
        Some(0)
    );
    assert_eq!(
        pick_mode_for_config(&modes, &OutputMode::Size(640, 480)),
        Some(0)
    );
    assert_eq!(pick_mode_for_config(&[], &OutputMode::Preferred), None);
}

#[test]
fn connectors_are_named() {
    assert_eq!(connector_type_name(Interface::EmbeddedDisplayPort), "eDP");
    assert_eq!(connector_type_name(Interface::Other), "Unknown");
    assert_eq!(connector_name(Interface::HdmiA, 1), "HDMI-A-1");
    assert_eq!(connector_name(Interface::DisplayPort, 12), "DP-12");
}

#[test]
fn an_output_is_set_up() {
    let modes = [mode(1920, 1080, 60, true)];
    let s = create_surface(&config(None), "DP-1", &modes, &[2560, 1280]).unwrap();
    assert_eq!(s.mode, 0);
    assert_eq!(s.size, Size { w: 1920, h: 1080 });
    assert_eq!(s.refresh, 60_000);
    assert_eq!(s.scale, 1_000_000);
    assert_eq!(s.transform, Transform::Normal);
    assert_eq!(s.layout_position, Point { x: 3840, y: 0 });
    assert_eq!(
        s.camera,
        CanvasPos {
            x: -960 * UNITS_PER_PIXEL,
            y: -540 * UNITS_PER_PIXEL,
        }
    );
    assert!(create_surface(&config(None), "DP-1", &[], &[]).is_none());
}

#[test]
fn an_output_follows_its_entry() {
    let modes = [mode(1920, 1080, 60, true), mode(1280, 720, 75, false)];
    let config = config(Some(OutputRuleFile {
        name: String::from("DP-1"),
        scale: Some(2_000_000),
        transform: Some(String::from("90")),
        position: Some(driftwm::config::parse::PositionValue::List(vec![
            Some(-100),
            Some(50),
        ])),
        mode: Some(String::from("1280x720")),
    }));
    let s = create_surface(&config, "DP-1", &modes, &[2560]).unwrap();
    assert_eq!(s.mode, 1);
    assert_eq!(s.scale, 2_000_000);
    assert_eq!(s.transform, Transform::Rotated90);
    assert_eq!(s.layout_position, Point { x: -100, y: 50 });
    let other = create_surface(&config, "DP-2", &modes, &[2560]).unwrap();
    assert_eq!(other.mode, 0);
    assert_eq!(other.layout_position, Point { x: 2560, y: 0 });
}

#[test]
fn displays_are_described() {
    let info = display_info(
        Some(String::from("Dell")),
        None,
        Some(String::from("123")),
        "DP-1",
    );
    assert_eq!(info.make, "Dell");
    assert_eq!(info.serial_number, "123");
    assert_eq!(describe_output("Dell", "U2720", "DP-1"), "Dell U2720 (DP-1)");
    let (list, current) = collect_modes(
        &[mode(1280, 720, 60, false), mode(1920, 1080, 60, true)],
        Size { w: 1920, h: 1080 },
        60_000,
    );
    assert_eq!(list.len(), 2);
    assert_eq!(
        list[1],
        ModeInfo {
            width: 1920,
            height: 1080,
            refresh: 60_000,
            preferred: true,
        }
    );
    assert_eq!(current, Some(1));
    assert_eq!(
        collect_modes(&[], Size { w: 1, h: 1 }, 1).1,
        None
    );
}

#[test]
fn every_card_is_tried_once() {
    let cards = gpu_candidates(
        Some(String::from("/dev/dri/card1")),
        strings(&["/dev/dri/card0", "/dev/dri/card1", "/dev/dri/card0"]),
    );
    assert_eq!(cards, strings(&["/dev/dri/card1", "/dev/dri/card0"]));
    assert!(gpu_candidates(None, Vec::new()).is_empty());
    assert!(GpuSearch::new(0).is_none());
    let mut search = GpuSearch::new(2).unwrap();
    assert_eq!(search.report(false), SearchStep::Try(1));
    assert_eq!(search.report(false), SearchStep::GiveUp);
    let mut search = GpuSearch::new(2).unwrap();
    search.report(false);
    assert_eq!(search.report(true), SearchStep::Use(1));
}

#[test]
fn the_last_output_stays() {
    let mut displays = Displays::new();
    let mut gestures: Gestures<u32> = Gestures::new();
    assert!(matches!(displays.connect(1), Connect::Create(v) if v.is_empty()));
    assert!(displays.created(1, 10));
    assert!(matches!(displays.connect(1), Connect::Known));
    assert!(!displays.created(2, 20));
    gestures.output = Some(10);
    gestures.state = Some(GestureState::SwipePan);
    assert_eq!(
        displays.disconnect(&mut gestures, 1),
        Disconnect::Gone {
            output: 10,
            refocused: true,
        }
    );
    assert_eq!(displays.mapped, vec![20]);
    assert_eq!(displays.focused, Some(20));
    assert!(gestures.state.is_none());
    assert_eq!(displays.disconnect(&mut gestures, 2), Disconnect::Last(20));
    assert_eq!(displays.mapped, vec![20]);
    assert_eq!(displays.disconnect(&mut gestures, 2), Disconnect::Unknown);
    // A new display takes its place.
    assert!(matches!(displays.connect(3), Connect::Create(v) if v == vec![20]));
    assert!(displays.created(3, 30));
    assert_eq!(displays.mapped, vec![30]);
    assert!(displays.disconnected.is_empty());
}

#[test]
fn frames_wait_for_each_other() {
    let mut displays = Displays::new();
    displays.created(1, 10);
    displays.created(2, 20);
    assert_eq!(displays.render_if_needed(&vec![20], false), vec![2]);
    displays.rendered(2, true);
    assert!(displays.render_if_needed(&vec![20], false).is_empty());
    assert!(displays.vblank(2));
    assert_eq!(displays.render_if_needed(&Vec::new(), false), vec![2]);
    displays.rendered(2, false);
    assert!(!displays.vblank(2));
    assert!(!displays.vblank(9));
    displays.mark_all_dirty();
    assert_eq!(displays.render_if_needed(&Vec::new(), false), vec![1, 2]);
    displays.rendered(1, true);
    assert_eq!(displays.resume(), vec![1, 2]);
    assert!(displays.frames_pending.is_empty());
    assert_eq!(displays.render_if_needed(&Vec::new(), true), vec![1, 2]);
}

#[test]
fn clients_change_outputs() {
    let head = |name: &str| OutputHead {
        name: String::from(name),
        transform: Transform::Normal,
        scale: 1_000_000,
        layout_position: Point { x: 0, y: 0 },
    };
    let request = |name: &str, scale: Option<i64>| RequestedHeadConfig {
        output_name: String::from(name),
        transform: Some(Transform::Flipped),
        scale,
        position: None,
    };
    let mut heads = vec![head("DP-1"), head("DP-2")];
    assert!(apply_output_config(
        &mut heads,
        &vec![request("DP-2", Some(2_000_000))]
    ));
    assert_eq!(heads[1].scale, 2_000_000);
    assert_eq!(heads[1].transform, Transform::Flipped);
    assert_eq!(heads[0].scale, 1_000_000);
    assert!(!apply_output_config(
        &mut heads,
        &vec![
            request("DP-1", None),
            request("DP-9", None),
            request("DP-2", Some(3_000_000)),
        ]
    ));
    assert_eq!(heads[0].transform, Transform::Flipped);
    assert_eq!(heads[1].scale, 2_000_000);
}

#[test]
fn arguments_choose_the_backend() {
    let args = strings(&["driftwm", "--backend", "udev"]);
    assert_eq!(find_argument(&args, "--backend"), Some(1));
    assert_eq!(choose_backend(&args, true), BackendKind::Udev);
    let args = strings(&["driftwm", "--backend", "winit"]);
    assert_eq!(choose_backend(&args, false), BackendKind::Winit);
    let args = strings(&["driftwm", "--backend"]);
    assert_eq!(choose_backend(&args, false), BackendKind::Udev);
    assert_eq!(choose_backend(&args, true), BackendKind::Winit);
    assert!(!checks_config(&args));
    assert!(checks_config(&strings(&["driftwm", "--check-config"])));
    assert_eq!(choose_backend(&Vec::new(), true), BackendKind::Winit);
}

#[test]
fn the_file_is_read_again_once_it_is_written() {
    assert!(should_reload(Some(1), Some(2), Some(100)));
    assert!(should_reload(None, Some(2), None));
    assert!(!should_reload(Some(1), Some(2), Some(99)));
    assert!(!should_reload(Some(2), Some(2), Some(500)));
    assert!(!should_reload(Some(2), None, Some(500)));
    assert_eq!(frame_step(100, 116), 16);
    assert_eq!(frame_step(100, 1000), 33);
}

#[test]
fn failures_leave_a_line() {
    assert_eq!(log_err("render", Ok::<u32, String>(1)), None);
    assert_eq!(
        log_err("render", Err::<u32, String>(String::from("no buffer"))),
        Some(String::from("render: no buffer"))
    );
}
