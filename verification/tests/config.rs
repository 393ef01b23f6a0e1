use driftwm::config::bindings::BindingEntry;
use driftwm::config::defaults::{
    detect_launcher, detect_terminal, launcher_candidates, terminal_candidates, KEY_LEFT, KEY_Q,
    KEY_RETURN, KEY_W,
};
use driftwm::config::lines::{
    parse_action, parse_direction, parse_gesture_binding, parse_gesture_config_entry,
    parse_gesture_trigger, parse_modifiers, parse_mouse_action, parse_mouse_binding,
};
use driftwm::config::parse::{
    expand_tilde, parse_color, parse_output_mode, parse_output_position, parse_output_rule, parse_transform,
    parse_window_rule, OutputRuleError, OutputRuleFile, PositionValue, WindowRuleFile,
};
use driftwm::config::types::{
    Action, AppliedWindowRule, BindingContext, ContinuousAction, CycleModifier, DecorationMode,
    Direction, GestureBinding, GestureConfigEntry, GestureTrigger, KeyCombo, ModKey, Modifiers, MouseAction,
    MouseBinding, MouseTrigger, OutputMode, OutputPosition, ThresholdAction, Transform, BTN_LEFT,
    KEY_ISO_LEFT_TAB, KEY_TAB,
};
use driftwm::config::{parse_mod_key, rule_matches, AxisSource, Config, ConfigFile};

fn millionths(v: f64) -> i64 {
    (v * 1_000_000.0).round() as i64
}

fn position_value(v: &toml::Value) -> PositionValue {
    match v {
        toml::Value::String(s) => PositionValue::Text(s.clone()),
        toml::Value::Array(list) => {
            PositionValue::List(list.iter().map(|e| e.as_integer()).collect())
        }
        _ => PositionValue::Other,
    }
}

fn text_of(table: &toml::Table, key: &str) -> Option<String> {
    table.get(key).and_then(|v| v.as_str()).map(String::from)
}

fn output_rule(table: &toml::Table) -> OutputRuleFile {
    OutputRuleFile {
        name: text_of(table, "name").unwrap(),
        scale: table.get("scale").and_then(|v| v.as_float()).map(millionths),
        transform: text_of(table, "transform"),
        position: table.get("position").map(position_value),
        mode: text_of(table, "mode"),
    }
}

fn from_toml(text: &str) -> Config {
    let table: toml::Table = text.parse().unwrap();
    let mut raw = ConfigFile::default();
    raw.outputs = table.get("outputs").and_then(|v| v.as_array()).map(|list| {
        list.iter()
            .map(|v| output_rule(v.as_table().unwrap()))
            .collect()
    });
    Config::from_raw(raw, String::from("foot"), String::from("fuzzel"))
}

fn defaults() -> Config {
    Config::defaults(String::from("foot"), String::from("fuzzel"))
}

fn alt() -> Modifiers {
    Modifiers {
        alt: true,
        ..Modifiers::default()
    }
}

fn super_key() -> Modifiers {
    Modifiers {
        logo: true,
        ..Modifiers::default()
    }
}

#[test]
fn parse_transform_all_variants() {
    let cases = [
        ("normal", Transform::Normal),
        ("90", Transform::Rotated90),
        ("180", Transform::Rotated180),
        ("270", Transform::Rotated270),
        ("flipped", Transform::Flipped),
        ("flipped-90", Transform::Flipped90),
        ("flipped-180", Transform::Flipped180),
        ("flipped-270", Transform::Flipped270),
    ];
    for (input, expected) in cases {
        assert_eq!(parse_transform(input).unwrap(), expected, "input: {input}");
    }
}

#[test]
fn parse_transform_invalid() {
    assert!(parse_transform("upside-down").is_err());
    assert!(parse_transform("").is_err());
}

#[test]
fn parse_mode_preferred() {
    assert_eq!(parse_output_mode("preferred").unwrap(), OutputMode::Preferred);
}

#[test]
fn parse_mode_size() {
    assert_eq!(
        parse_output_mode("1920x1080").unwrap(),
        OutputMode::Size(1920, 1080)
    );
}

#[test]
fn parse_mode_size_refresh() {
    assert_eq!(
        parse_output_mode("2560x1440@144").unwrap(),
        OutputMode::SizeRefresh(2560, 1440, 144)
    );
}

#[test]
fn parse_mode_invalid() {
    assert!(parse_output_mode("big").is_err());
    assert!(parse_output_mode("1920").is_err());
    assert!(parse_output_mode("1920x1080@fast").is_err());
}

#[test]
fn parse_position_auto() {
    let val = position_value(&toml::Value::String("auto".into()));
    assert_eq!(parse_output_position(&val).unwrap(), OutputPosition::Auto);
}

#[test]
fn parse_position_fixed() {
    let val = position_value(&toml::Value::Array(vec![
        toml::Value::Integer(100),
        toml::Value::Integer(-200),
    ]));
    assert_eq!(
        parse_output_position(&val).unwrap(),
        OutputPosition::Fixed(100, -200)
    );
}

#[test]
fn parse_position_invalid_string() {
    let val = position_value(&toml::Value::String("left".into()));
    assert!(parse_output_position(&val).is_err());
}

#[test]
fn parse_position_wrong_array_length() {
    let val = position_value(&toml::Value::Array(vec![toml::Value::Integer(1)]));
    assert!(parse_output_position(&val).is_err());
}

#[test]
fn parse_output_rule_negative_scale() {
    let toml_str = r#"
        [[outputs]]
        name = "eDP-1"
        scale = -1.0
    "#;
    let config = from_toml(toml_str);
    assert!(config.output_configs.is_empty());
}

#[test]
fn parse_output_rule_zero_scale() {
    let toml_str = r#"
        [[outputs]]
        name = "eDP-1"
        scale = 0.0
    "#;
    let config = from_toml(toml_str);
    assert!(config.output_configs.is_empty());
}

#[test]
fn parse_output_rule_valid() {
    let toml_str = r#"
        [[outputs]]
        name = "eDP-1"
        scale = 1.5
        transform = "90"
        mode = "2560x1440@144"
        position = [1920, 0]
    "#;
    let config = from_toml(toml_str);
    assert_eq!(config.output_configs.len(), 1);
    let oc = &config.output_configs[0];
    assert_eq!(oc.name, "eDP-1");
    assert_eq!(oc.scale, Some(millionths(1.5)));
    assert_eq!(oc.transform, Some(Transform::Rotated90));
    assert_eq!(oc.mode, OutputMode::SizeRefresh(2560, 1440, 144));
    assert_eq!(oc.position, OutputPosition::Fixed(1920, 0));
}

#[test]
fn parse_output_rule_defaults() {
    let toml_str = r#"
        [[outputs]]
        name = "HDMI-A-1"
    "#;
    let config = from_toml(toml_str);
    assert_eq!(config.output_configs.len(), 1);
    let oc = &config.output_configs[0];
    assert_eq!(oc.scale, None);
    assert_eq!(oc.transform, None);
    assert_eq!(oc.mode, OutputMode::Preferred);
    assert_eq!(oc.position, OutputPosition::Auto);
}

#[test]
fn duplicate_output_names_keeps_first() {
    let toml_str = r#"
        [[outputs]]
        name = "eDP-1"
        scale = 1.5

        [[outputs]]
        name = "eDP-1"
        scale = 2.0
    "#;
    let config = from_toml(toml_str);
    assert_eq!(config.output_configs.len(), 1);
    assert_eq!(config.output_configs[0].scale, Some(millionths(1.5)));
}

#[test]
fn output_config_lookup() {
    let toml_str = r#"
        [[outputs]]
        name = "eDP-1"
        scale = 1.5

        [[outputs]]
        name = "HDMI-A-1"
        scale = 1.0
    "#;
    let config = from_toml(toml_str);
    assert!(config.output_config("eDP-1").is_some());
    assert!(config.output_config("HDMI-A-1").is_some());
    assert!(config.output_config("DP-2").is_none());
}

#[test]
fn no_outputs_section_produces_empty_vec() {
    let config = from_toml("");
    assert!(config.output_configs.is_empty());
}

#[test]
fn complaints_name_what_is_wrong() {
    assert_eq!(
        parse_transform("upside-down").unwrap_err(),
        "unknown transform 'upside-down'"
    );
    assert_eq!(
        parse_output_position(&PositionValue::List(vec![Some(1), None])).unwrap_err(),
        "position[1] must be an integer"
    );
    assert_eq!(
        parse_output_position(&PositionValue::List(vec![None, Some(1)])).unwrap_err(),
        "position[0] must be an integer"
    );
    assert_eq!(
        parse_output_position(&PositionValue::Other).unwrap_err(),
        "position must be \"auto\" or [x, y]"
    );
    assert_eq!(
        parse_output_position(&PositionValue::List(vec![])).unwrap_err(),
        "position array must have 2 elements, got 0"
    );
}

#[test]
fn output_entries_are_refused_for_their_scale_first() {
    let bad = OutputRuleFile {
        name: String::from("eDP-1"),
        scale: Some(-1),
        transform: Some(String::from("sideways")),
        position: None,
        mode: None,
    };
    assert!(matches!(
        parse_output_rule(bad.clone()),
        Err(OutputRuleError::Scale(-1))
    ));
    let sideways = OutputRuleFile { scale: None, ..bad };
    match parse_output_rule(sideways) {
        Err(OutputRuleError::Invalid(e)) => assert_eq!(e, "unknown transform 'sideways'"),
        _ => panic!("a bad transform was accepted"),
    }
}

#[test]
fn colors_are_read_with_and_without_alpha() {
    assert_eq!(parse_color("#102030"), Some([0x10, 0x20, 0x30, 0xff]));
    assert_eq!(parse_color("#10203040"), Some([0x10, 0x20, 0x30, 0x40]));
    assert_eq!(parse_color("#12"), None);
    assert_eq!(parse_color("#gg2030"), None);
}

#[test]
fn window_rules_match_by_the_first_star() {
    let rule = |app_id: &str| {
        parse_window_rule(WindowRuleFile {
            app_id: String::from(app_id),
            position: None,
            widget: false,
            no_focus: false,
            decoration: None,
            blur: false,
            opacity: None,
        })
    };
    assert!(rule_matches(&rule("foot"), "foot"));
    assert!(!rule_matches(&rule("foot"), "footclient"));
    assert!(rule_matches(&rule("foot*"), "footclient"));
    assert!(rule_matches(&rule("org.*.Files"), "org.gnome.Files"));
    assert!(!rule_matches(&rule("ab*ba"), "aba"));
}

#[test]
fn the_first_matching_rule_counts() {
    let mut raw = ConfigFile::default();
    let rule = |app_id: &str, position, widget, decoration: Option<&str>| WindowRuleFile {
        app_id: String::from(app_id),
        position,
        widget,
        no_focus: false,
        decoration: decoration.map(String::from),
        blur: true,
        opacity: Some(500_000),
    };
    raw.window_rules = Some(vec![
        rule("conky*", None, true, Some("none")),
        rule("conky2", Some((1, 2)), false, Some("server")),
        rule("conky2", Some((3, 4)), false, None),
    ]);
    let config = Config::from_raw(raw, String::from("foot"), String::from("fuzzel"));
    let first = config.match_window_rule("conky2").unwrap();
    assert!(first.widget);
    assert_eq!(first.decoration, DecorationMode::Off);
    assert_eq!(
        AppliedWindowRule::from(first),
        AppliedWindowRule {
            widget: true,
            no_focus: false,
            decoration: DecorationMode::Off,
            blur: true,
            opacity: Some(500_000),
        }
    );
    assert_eq!(
        config.match_window_rule_nth("conky2", 0).unwrap().position,
        Some((1, 2))
    );
    assert_eq!(
        config.match_window_rule_nth("conky2", 1).unwrap().position,
        Some((3, 4))
    );
    assert!(config.match_window_rule_nth("conky2", 2).is_none());
    assert!(config.match_window_rule("foot").is_none());
}

#[test]
fn default_keys_act() {
    let config = defaults();
    assert!(matches!(
        config.lookup(&super_key(), KEY_RETURN),
        Some(Action::Exec(c)) if c == "foot"
    ));
    assert!(matches!(
        config.lookup(&super_key(), KEY_Q),
        Some(Action::CloseWindow)
    ));
    assert!(matches!(
        config.lookup(&super_key(), KEY_W),
        Some(Action::ZoomToFit)
    ));
    assert!(config.lookup(&Modifiers::default(), KEY_Q).is_none());
    assert!(matches!(
        config.lookup(&alt(), KEY_TAB),
        Some(Action::CycleWindows { backward: false })
    ));
    let back = Modifiers { shift: true, ..alt() };
    assert!(matches!(
        config.lookup(&back, KEY_ISO_LEFT_TAB),
        Some(Action::CycleWindows { backward: true })
    ));
}

#[test]
fn default_gestures_act() {
    let config = defaults();
    let none = Modifiers::default();
    assert!(matches!(
        config.gesture_lookup(
            &none,
            &GestureTrigger::Swipe { fingers: 3 },
            BindingContext::OnCanvas
        ),
        Some(GestureConfigEntry::Continuous(ContinuousAction::PanViewport))
    ));
    assert!(matches!(
        config.gesture_lookup(
            &none,
            &GestureTrigger::DoubletapSwipe { fingers: 3 },
            BindingContext::OnWindow
        ),
        Some(GestureConfigEntry::Continuous(ContinuousAction::MoveWindow))
    ));
    assert!(config
        .gesture_lookup(
            &none,
            &GestureTrigger::Swipe { fingers: 5 },
            BindingContext::OnCanvas
        )
        .is_none());
}

#[test]
fn scrolling_on_the_canvas_pans() {
    let config = defaults();
    assert!(matches!(
        config.mouse_scroll_lookup_ctx(
            &Modifiers::default(),
            AxisSource::Finger,
            BindingContext::OnCanvas
        ),
        Some(MouseAction::PanViewport)
    ));
    assert!(config
        .mouse_scroll_lookup_ctx(
            &Modifiers::default(),
            AxisSource::Finger,
            BindingContext::OnWindow
        )
        .is_none());
}

#[test]
fn the_last_line_of_a_section_decides() {
    let key = || MouseBinding {
        modifiers: super_key(),
        trigger: MouseTrigger::Button(BTN_LEFT),
    };
    let line = |action: Option<MouseAction>| BindingEntry {
        key: Some(key()),
        text: String::from("mod+left"),
        action,
    };
    let mut raw = ConfigFile::default();
    raw.mouse.on_window = Some(vec![
        line(Some(MouseAction::Zoom)),
        line(Some(MouseAction::PanViewport)),
    ]);
    let config = Config::from_raw(raw, String::from("foot"), String::from("fuzzel"));
    assert!(matches!(
        config.mouse_button_lookup_ctx(&super_key(), BTN_LEFT, BindingContext::OnWindow),
        Some(MouseAction::PanViewport)
    ));
}

#[test]
fn bindings_can_be_put_in_and_taken_out() {
    let mut config = defaults();
    let key = MouseBinding {
        modifiers: Modifiers::default(),
        trigger: MouseTrigger::Button(0x120),
    };
    assert!(config.mouse.lookup(&key, BindingContext::OnCanvas).is_none());
    config
        .mouse
        .insert(BindingContext::Anywhere, key, MouseAction::CenterNearest);
    assert!(matches!(
        config.mouse.lookup(&key, BindingContext::OnCanvas),
        Some(MouseAction::CenterNearest)
    ));
    config
        .mouse
        .insert(BindingContext::OnCanvas, key, MouseAction::Zoom);
    assert!(matches!(
        config.mouse.lookup(&key, BindingContext::OnCanvas),
        Some(MouseAction::Zoom)
    ));
    config.mouse.remove(BindingContext::OnCanvas, &key);
    assert!(matches!(
        config.mouse.lookup(&key, BindingContext::OnCanvas),
        Some(MouseAction::CenterNearest)
    ));
}

#[test]
fn key_combinations_are_normal_once() {
    let mut combo = KeyCombo {
        modifiers: Modifiers { shift: true, ..alt() },
        sym: KEY_ISO_LEFT_TAB,
    };
    combo.normalize();
    let once = combo;
    combo.normalize();
    assert_eq!(combo, once);
    assert_eq!(combo.sym, KEY_TAB);
}

#[test]
fn base_modifiers_are_pressed() {
    assert!(ModKey::Super.is_pressed(&ModKey::Super.base()));
    assert!(!ModKey::Super.is_pressed(&ModKey::Alt.base()));
    assert!(CycleModifier::Ctrl.is_pressed(&CycleModifier::Ctrl.base()));
    assert!(!CycleModifier::Alt.is_pressed(&CycleModifier::Ctrl.base()));
}

#[test]
fn only_steady_actions_repeat() {
    assert!(Action::NudgeWindow(Direction::Left).is_repeatable());
    assert!(Action::ZoomIn.is_repeatable());
    assert!(!Action::CloseWindow.is_repeatable());
}

#[test]
fn programs_are_found_in_order() {
    assert_eq!(detect_terminal(Some(String::from("kitty")), Some(0)), "kitty");
    assert_eq!(detect_terminal(None, Some(0)), terminal_candidates()[0]);
    assert_eq!(detect_launcher(None, Some(1)), launcher_candidates()[1]);
}

#[test]
fn settings_are_held_within_their_ranges() {
    let mut raw = ConfigFile::default();
    raw.friction = Some(930_000);
    raw.trackpad.accel_speed = Some(-5_000_000);
    raw.inactive_cursor_opacity = Some(5_000_000);
    let config = Config::from_raw(raw, String::from("foot"), String::from("fuzzel"));
    assert_eq!(config.friction, 930_000);
    assert_eq!(config.trackpad.accel_speed, -1_000_000);
    assert_eq!(config.inactive_cursor_opacity, 1_000_000);
    assert!(config.lookup(&super_key(), KEY_LEFT).is_some());
}

#[test]
fn what_a_file_leaves_out_has_a_default() {
    let config = defaults();
    assert_eq!(config.mod_key, ModKey::Super);
    assert_eq!(config.cycle_modifier, CycleModifier::Alt);
    assert_eq!(config.scroll_speed, 1_500_000);
    assert_eq!(config.friction, 960_000);
    assert_eq!(config.nudge_step, 20);
    assert_eq!(config.repeat_rate, 25);
    assert_eq!(config.snap_gap, 12_000_000);
    assert_eq!(config.keyboard_layout.layout, "us");
    assert_eq!(config.keyboard_layout.variant, "");
    assert_eq!(config.decorations.bg_color, [0x30, 0x30, 0x30, 0xff]);
    assert_eq!(config.nav_anchors, vec![(0, 0)]);
    assert!(config.autostart.is_empty());
}

#[test]
fn anchors_are_turned_to_point_down() {
    let mut raw = ConfigFile::default();
    raw.anchors = Some(vec![(32_000, 64_000), (0, -32_000)]);
    let config = Config::from_raw(raw, String::from("foot"), String::from("fuzzel"));
    assert_eq!(config.nav_anchors, vec![(32_000, -64_000), (0, 32_000)]);
}

fn held(ctrl: bool, alt: bool, shift: bool, logo: bool) -> Modifiers {
    Modifiers {
        ctrl,
        alt,
        shift,
        logo,
    }
}

#[test]
fn modifiers_come_before_the_key() {
    assert_eq!(
        parse_modifiers("mod+ctrl+shift+q", ModKey::Super),
        Some((held(true, false, true, true), "q"))
    );
    assert_eq!(
        parse_modifiers("mod+return", ModKey::Alt),
        Some((held(false, true, false, false), "return"))
    );
    assert_eq!(
        parse_modifiers("tab", ModKey::Super),
        Some((held(false, false, false, false), "tab"))
    );
    assert_eq!(
        parse_modifiers("alt++", ModKey::Super),
        Some((held(false, true, false, false), "+"))
    );
    assert_eq!(parse_modifiers("hyper+q", ModKey::Super), None);
}

#[test]
fn mouse_lines_are_read() {
    assert_eq!(
        parse_mouse_binding("alt+left", ModKey::Super),
        Some(MouseBinding {
            modifiers: held(false, true, false, false),
            trigger: MouseTrigger::Button(0x110),
        })
    );
    assert_eq!(
        parse_mouse_binding("mod+wheel-scroll", ModKey::Super).map(|b| b.trigger),
        Some(MouseTrigger::WheelScroll)
    );
    assert_eq!(parse_mouse_binding("alt+side", ModKey::Super), None);
    assert!(matches!(
        parse_mouse_action("resize-window-snapped"),
        Some(MouseAction::ResizeWindowSnapped)
    ));
    assert!(matches!(
        parse_mouse_action("toggle-fullscreen"),
        Some(MouseAction::Action(Action::ToggleFullscreen))
    ));
    assert!(parse_mouse_action("dance").is_none());
}

#[test]
fn gesture_lines_are_read() {
    assert_eq!(
        parse_gesture_binding("alt+3-finger-swipe", ModKey::Super),
        Some(GestureBinding {
            modifiers: held(false, true, false, false),
            trigger: GestureTrigger::Swipe { fingers: 3 },
        })
    );
    assert_eq!(
        parse_gesture_trigger("4-finger-pinch-out"),
        Some(GestureTrigger::PinchOut { fingers: 4 })
    );
    assert_eq!(parse_gesture_trigger("three-finger-swipe"), None);
    assert_eq!(parse_gesture_trigger("3-finger-wave"), None);
    let swipe = GestureTrigger::Swipe { fingers: 3 };
    let up = GestureTrigger::SwipeUp { fingers: 3 };
    assert!(matches!(
        parse_gesture_config_entry(&swipe, "move-window"),
        Some(GestureConfigEntry::Continuous(ContinuousAction::MoveWindow))
    ));
    assert!(parse_gesture_config_entry(&up, "move-window").is_none());
    assert!(matches!(
        parse_gesture_config_entry(&up, "center-nearest"),
        Some(GestureConfigEntry::Threshold(ThresholdAction::CenterNearest))
    ));
    assert!(matches!(
        parse_gesture_config_entry(&up, "home-toggle"),
        Some(GestureConfigEntry::Threshold(ThresholdAction::Fixed(
            Action::HomeToggle
        )))
    ));
}

#[test]
fn action_lines_are_read() {
    assert!(matches!(
        parse_action("exec foot -e top"),
        Some(Action::Exec(c)) if c == "foot -e top"
    ));
    assert!(parse_action("exec ").is_none());
    assert!(matches!(
        parse_action("nudge-window up-left"),
        Some(Action::NudgeWindow(Direction::UpLeft))
    ));
    assert!(matches!(
        parse_action("go-to -10 20"),
        Some(Action::GoToPosition(-320_000, 640_000))
    ));
    assert!(parse_action("go-to 10").is_none());
    assert!(matches!(
        parse_action("cycle-windows backward"),
        Some(Action::CycleWindows { backward: true })
    ));
    assert!(matches!(parse_action("quit"), Some(Action::Quit)));
    assert!(parse_action("quit now").is_none());
    assert_eq!(parse_direction("down-right"), Some(Direction::DownRight));
    assert_eq!(parse_direction("sideways"), None);
}

#[test]
fn tildes_are_written_out() {
    assert_eq!(expand_tilde("~/tile.png", Some("/home/a")), "/home/a/tile.png");
    assert_eq!(expand_tilde("~other/tile.png", Some("/home/a")), "~other/tile.png");
    assert_eq!(expand_tilde("/tile.png", Some("/home/a")), "/tile.png");
    assert_eq!(expand_tilde("~/tile.png", None), "~/tile.png");
}

#[test]
fn mod_key_is_super_unless_said() {
    assert_eq!(parse_mod_key(&None), ModKey::Super);
    assert_eq!(parse_mod_key(&Some("alt".to_string())), ModKey::Alt);
    assert_eq!(parse_mod_key(&Some("Alt".to_string())), ModKey::Super);
}

#[test]
fn every_default_gesture_is_there() {
    let config = defaults();
    let none = Modifiers::default();
    let nearest = |e: Option<&GestureConfigEntry>| {
        matches!(
            e,
            Some(GestureConfigEntry::Threshold(ThresholdAction::CenterNearest))
        )
    };
    let zooms = |e: Option<&GestureConfigEntry>| {
        matches!(
            e,
            Some(GestureConfigEntry::Continuous(ContinuousAction::Zoom))
        )
    };
    let two = GestureTrigger::Pinch { fingers: 2 };
    assert!(zooms(config.gesture_lookup(&none, &two, BindingContext::OnCanvas)));
    assert!(config
        .gesture_lookup(&none, &two, BindingContext::OnWindow)
        .is_none());
    let three = GestureTrigger::Pinch { fingers: 3 };
    assert!(zooms(config.gesture_lookup(&none, &three, BindingContext::OnWindow)));
    assert!(matches!(
        config.gesture_lookup(
            &alt(),
            &GestureTrigger::Swipe { fingers: 3 },
            BindingContext::OnWindow
        ),
        Some(GestureConfigEntry::Continuous(ContinuousAction::ResizeWindow))
    ));
    // The modifier key makes three fingers do what four do.
    for (held, fingers) in [(none, 4), (super_key(), 3)] {
        let on = BindingContext::OnWindow;
        let find = |trigger: GestureTrigger| config.gesture_lookup(&held, &trigger, on);
        assert!(nearest(find(GestureTrigger::Swipe { fingers })));
        assert!(matches!(
            find(GestureTrigger::PinchIn { fingers }),
            Some(GestureConfigEntry::Threshold(ThresholdAction::Fixed(
                Action::ZoomToFit
            )))
        ));
        assert!(matches!(
            find(GestureTrigger::PinchOut { fingers }),
            Some(GestureConfigEntry::Threshold(ThresholdAction::Fixed(
                Action::HomeToggle
            )))
        ));
        assert!(matches!(
            find(GestureTrigger::Hold { fingers }),
            Some(GestureConfigEntry::Threshold(ThresholdAction::Fixed(
                Action::CenterWindow
            )))
        ));
    }
}

#[test]
fn the_essential_keys_and_buttons_are_there() {
    let config = defaults();
    assert!(matches!(
        config.lookup(&super_key(), 0x64),
        Some(Action::Exec(c)) if c == "fuzzel"
    ));
    let leave = held(true, false, true, true);
    assert!(matches!(config.lookup(&leave, KEY_Q), Some(Action::Quit)));
    for context in [BindingContext::OnWindow, BindingContext::OnCanvas] {
        assert!(matches!(
            config.mouse_scroll_lookup_ctx(&super_key(), AxisSource::Wheel, context),
            Some(MouseAction::Zoom)
        ));
        assert!(matches!(
            config.mouse_button_lookup_ctx(&super_key(), BTN_LEFT, context),
            Some(MouseAction::PanViewport)
        ));
        assert!(matches!(
            config.mouse_button_lookup_ctx(&held(true, false, false, true), BTN_LEFT, context),
            Some(MouseAction::CenterNearest)
        ));
    }
    let none = Modifiers::default();
    assert!(matches!(
        config.mouse_scroll_lookup_ctx(&none, AxisSource::Wheel, BindingContext::OnCanvas),
        Some(MouseAction::Zoom)
    ));
}
