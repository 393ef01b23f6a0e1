//! The configuration: its names, its settings and its bindings.

use crate::config::bindings::{BindingEntry, BindingKey, ContextBindings};
use crate::config::parse::{OutputRuleFile, PositionValue, WindowRuleFile};
use crate::config::types::{
    Action, BindingContext, ContinuousAction, CycleModifier, DecorationMode, Direction,
    GestureBinding, GestureConfigEntry, GestureTrigger, KeyCombo, ModKey, Modifiers, MouseAction,
    MouseBinding, MouseTrigger, OutputConfig, OutputMode, OutputPosition, ThresholdAction, Transform,
    WindowRule,
};
use crate::config::{AxisSource, Config, ConfigFile};
use vstd::prelude::*;

verus! {

use crate::config::bindings::{after_entry, is_insertion, is_removal};
use crate::config::defaults::{
    chosen_command,
    context_bound,
    default_gestures,
    default_keys,
    default_keys_do_not_clash,
    default_mouse,
    keys_bound,
    launcher_names,
    terminal_names,
};
use crate::config::lines::{
    action_named,
    action_with,
    also_held,
    continuous_named,
    direction_named,
    gesture_binding_named,
    gesture_entry_named,
    gesture_trigger_named,
    held_with,
    motion_named,
    mouse_action_named,
    mouse_binding_named,
    mouse_trigger_named,
    plain_action_named,
    position_of,
};
use crate::config::parse::{
    color,
    color_or,
    components,
    expanded,
    hex_digit,
    is_output,
    is_rule,
    mode_named,
    position_named,
    rule_fault,
    rule_mode,
    rule_position,
    rule_transform,
    transform_named,
    OutputRuleFault,
};
use crate::config::types::{ActionView, GestureEntryView, MouseActionView, ThresholdActionView};
use crate::config::{
    anchors_read,
    cycle_modifier_named,
    first_rule,
    held_within,
    kept_outputs,
    mod_key_named,
    outputs_read,
    pattern_matches,
    placed_rules,
    rules_read,
    scroll_trigger,
    spliced,
};
use crate::text::{cut, signed, unsigned};

/// The modifier keys are what they say.
pub proof fn modifiers_are_what_they_say(m: ModKey, c: CycleModifier, state: Modifiers)
    ensures
        ModKey::Alt.held(state) == state.alt,
        ModKey::Super.held(state) == state.logo,
        CycleModifier::Alt.held(state) == state.alt,
        CycleModifier::Ctrl.held(state) == state.ctrl,
        ModKey::Alt.alone() == (Modifiers { ctrl: false, alt: true, shift: false, logo: false }),
        ModKey::Super.alone() == (Modifiers { ctrl: false, alt: false, shift: false, logo: true }),
        CycleModifier::Ctrl.alone() == (Modifiers {
            ctrl: true,
            alt: false,
            shift: false,
            logo: false,
        }),
        CycleModifier::Alt.alone() == ModKey::Alt.alone(),
{
}

/// Capital letters mean the small ones, and the tab with shift is the tab, with
/// shift held; every other key means itself.
pub proof fn keys_have_one_form(m: Modifiers, sym: u32)
    ensures
        ({
            let n = (KeyCombo { modifiers: m, sym }).normal();
            &&& 0x41 <= sym <= 0x5a ==> n == (KeyCombo { modifiers: m, sym: (sym + 0x20) as u32 })
            &&& sym == 0xfe20 ==> n.sym == 0xff09 && n.modifiers.shift && n.modifiers.ctrl == m.ctrl
                && n.modifiers.alt == m.alt && n.modifiers.logo == m.logo
            &&& !(0x41 <= sym <= 0x5a) && sym != 0xfe20 ==> n == (KeyCombo { modifiers: m, sym })
        }),
{
}

/// A context has its own bindings.
pub proof fn contexts_have_their_own_bindings<K: BindingKey, V>(b: ContextBindings<K, V>)
    ensures
        b.table(BindingContext::OnWindow) == b.on_window@,
        b.table(BindingContext::OnCanvas) == b.on_canvas@,
        b.table(BindingContext::Anywhere) == b.anywhere@,
{
}

/// A line without a key, or without an action that is known, changes nothing.
pub proof fn unknown_lines_change_nothing<K: BindingKey, V: View>(
    table: Map<u64, V::V>,
    entry: BindingEntry<K, V>,
)
    ensures
        entry.key is None ==> after_entry(table, entry) == table,
        entry.action is None && entry.text@ != "none"@ ==> after_entry(table, entry) == table,
        entry.key matches Some(k) ==> (entry.text@ == "none"@ ==> !after_entry(
            table,
            entry,
        ).contains_key(k.canonical().number())),
        entry.key matches Some(k) ==> (entry.text@ != "none"@ && entry.action is Some ==> after_entry(
            table,
            entry,
        ).contains_key(k.canonical().number()) && after_entry(table, entry)[k.canonical().number()]
            == entry.action->0@),
{
}

/// The value of a hexadecimal digit.
pub proof fn hex_digits_stand_for_their_values(c: char)
    ensures
        hex_digit('0') == Some(0int),
        hex_digit('9') == Some(9int),
        hex_digit('a') == Some(10int),
        hex_digit('f') == Some(15int),
        hex_digit('A') == Some(10int),
        hex_digit('F') == Some(15int),
        hex_digit('g') is None,
        hex_digit('#') is None,
        hex_digit(c) matches Some(v) ==> 0 <= v <= 15,
{
}

/// A color is a hash, two digits each for red, green and blue, and two more for
/// how solid it is; without them it is solid.
pub proof fn colors_are_red_green_blue(
    s: Seq<char>,
    d: Seq<int>,
)
    requires
        s.len() == 7 || s.len() == 9,
        d.len() == s.len() - 1,
        forall|i: int| 0 <= i < d.len() ==> hex_digit(#[trigger] s[i + 1]) == Some(d[i]),
    ensures
        s[0] == '#' && s.len() == 7 ==> color(s) == Some(
            (16 * d[0] + d[1], 16 * d[2] + d[3], 16 * d[4] + d[5], 255int),
        ),
        s[0] == '#' && s.len() == 9 ==> color(s) == Some(
            (16 * d[0] + d[1], 16 * d[2] + d[3], 16 * d[4] + d[5], 16 * d[6] + d[7]),
        ),
        s[0] != '#' ==> color(s) is None,
{
    assert(hex_digit(s[0int + 1]) == Some(d[0]));
    assert(hex_digit(s[1int + 1]) == Some(d[1]));
    assert(hex_digit(s[2int + 1]) == Some(d[2]));
    assert(hex_digit(s[3int + 1]) == Some(d[3]));
    assert(hex_digit(s[4int + 1]) == Some(d[4]));
    assert(hex_digit(s[5int + 1]) == Some(d[5]));
    if s.len() == 9 {
        assert(hex_digit(s[6int + 1]) == Some(d[6]));
        assert(hex_digit(s[7int + 1]) == Some(d[7]));
    }
}

/// Nothing of another length is a color; a color that cannot be read is the
/// default.
pub proof fn other_texts_are_no_colors(s: Seq<char>, t: Option<String>, default: (int, int, int, int))
    ensures
        s.len() != 7 && s.len() != 9 ==> color(s) is None,
        t is None ==> color_or(t, default) == default,
        t matches Some(text) ==> color_or(t, default) == (match color(text@) {
            Some(c) => c,
            None => default,
        }),
{
}

/// The names of the turns.
pub proof fn turns_have_their_names()
    ensures
        transform_named("normal"@) == Some(Transform::Normal),
        transform_named("90"@) == Some(Transform::Rotated90),
        transform_named("180"@) == Some(Transform::Rotated180),
        transform_named("270"@) == Some(Transform::Rotated270),
        transform_named("flipped"@) == Some(Transform::Flipped),
        transform_named("flipped-90"@) == Some(Transform::Flipped90),
        transform_named("flipped-180"@) == Some(Transform::Flipped180),
        transform_named("flipped-270"@) == Some(Transform::Flipped270),
{
    reveal_strlit("normal");
    reveal_strlit("90");
    reveal_strlit("180");
    reveal_strlit("270");
    reveal_strlit("flipped");
    reveal_strlit("flipped-90");
    reveal_strlit("flipped-180");
    reveal_strlit("flipped-270");
    assert("normal"@.len() == 6);
    assert("90"@.len() == 2);
    assert("180"@.len() == 3);
    assert("270"@.len() == 3);
    assert("flipped"@.len() == 7);
    assert("flipped-90"@.len() == 10);
    assert("flipped-180"@.len() == 11);
    assert("flipped-270"@.len() == 11);
    assert("180"@[0] != "270"@[0]);
    assert("flipped-180"@[8] != "flipped-270"@[8]);
}

/// A mode is a width, an x and a height, and a rate behind an at sign; or the
/// preferred one by its name.
pub proof fn modes_are_width_by_height(s: Seq<char>, w: Seq<char>, h: Seq<char>, hz: Seq<char>)
    requires
        s != "preferred"@,
    ensures
        mode_named("preferred"@) == Ok::<OutputMode, Seq<char>>(OutputMode::Preferred),
        cut(s, '@') is None && cut(s, 'x') == Some((w, h)) && signed(w) is Some && signed(h) is Some
            ==> mode_named(s) == Ok::<OutputMode, Seq<char>>(
            OutputMode::Size(signed(w)->0 as i32, signed(h)->0 as i32),
        ),
        cut(s, '@') matches Some((size, rate)) ==> (cut(size, 'x') == Some((w, h)) && signed(w)
            is Some && signed(h) is Some && rate == hz && unsigned(hz) is Some ==> mode_named(s)
            == Ok::<OutputMode, Seq<char>>(
            OutputMode::SizeRefresh(
                signed(w)->0 as i32,
                signed(h)->0 as i32,
                unsigned(hz)->0 as u32,
            ),
        )),
        cut(s, '@') is None && cut(s, 'x') is None ==> mode_named(s) is Err,
        cut(s, '@') is None && cut(s, 'x') == Some((w, h)) && (signed(w) is None || signed(h)
            is None) ==> mode_named(s) is Err,
        cut(s, '@') matches Some((size, rate)) ==> (unsigned(rate) is None ==> mode_named(s)
            is Err),
{
}

/// The place of an output is two whole numbers, across and down, or automatic by
/// its name.
pub proof fn places_are_two_numbers(v: PositionValue, x: i32, y: i32)
    ensures
        v matches PositionValue::Text(s) ==> (s@ == "auto"@ ==> position_named(v) == Ok::<
            OutputPosition,
            Seq<char>,
        >(OutputPosition::Auto)),
        v matches PositionValue::Text(s) ==> (s@ != "auto"@ ==> position_named(v) is Err),
        v matches PositionValue::List(list) ==> (list@ == seq![Some(x as i64), Some(y as i64)]
            ==> position_named(v) == Ok::<OutputPosition, Seq<char>>(OutputPosition::Fixed(x, y))),
        v matches PositionValue::List(list) ==> (list@.len() != 2 ==> position_named(v) is Err),
        v is Other ==> position_named(v) is Err,
{
}

/// An output is read as it is written, and what is not written is left to the
/// defaults; one whose scale is not positive, or in which something cannot be
/// read, is not taken.
pub proof fn outputs_are_read_as_written(r: OutputRuleFile, c: OutputConfig)
    ensures
        r.scale matches Some(s) ==> (s <= 0 ==> rule_fault(r) == Some(OutputRuleFault::Scale(s))),
        rule_fault(r) is None ==> (r.scale matches Some(s) ==> s > 0) && rule_transform(r) is Ok
            && rule_position(r) is Ok && rule_mode(r) is Ok,
        (r.scale matches Some(s) ==> s > 0) && rule_transform(r) is Ok && rule_position(r) is Ok
            && rule_mode(r) is Ok ==> rule_fault(r) is None,
        is_output(r, c) ==> c.name@ == r.name@ && c.scale == r.scale,
        is_output(r, c) && r.transform is None ==> c.transform is None,
        is_output(r, c) && r.position is None ==> c.position == OutputPosition::Auto,
        is_output(r, c) && r.mode is None ==> c.mode == OutputMode::Preferred,
        is_output(r, c) ==> (r.transform matches Some(s) ==> c.transform == transform_named(s@)),
        is_output(r, c) ==> (r.mode matches Some(s) ==> mode_named(s@) == Ok::<
            OutputMode,
            Seq<char>,
        >(c.mode)),
        is_output(r, c) ==> (r.position matches Some(v) ==> position_named(v) == Ok::<
            OutputPosition,
            Seq<char>,
        >(c.position)),
{
}

/// A window rule is read as it is written; decorations are the client's own
/// unless they are named.
pub proof fn rules_are_read_as_written(r: WindowRuleFile, w: WindowRule)
    ensures
        is_rule(r, w) ==> w.app_id@ == r.app_id@ && w.position == r.position && w.widget == r.widget
            && w.no_focus == r.no_focus && w.blur == r.blur && w.opacity == r.opacity,
        is_rule(r, w) && r.decoration is None ==> w.decoration == DecorationMode::Client,
        is_rule(r, w) ==> (r.decoration matches Some(s) ==> (w.decoration == DecorationMode::Off
            <==> s@ == "none"@) && (w.decoration == DecorationMode::Server <==> s@ == "server"@)),
{
    reveal_strlit("none");
    reveal_strlit("server");
    assert("none"@.len() == 4);
    assert("server"@.len() == 6);
}

/// A tilde before a slash is the home, where there is one; other paths are taken
/// as they are.
pub proof fn tildes_lead_home(rest: Seq<char>, home: Seq<char>, path: Seq<char>)
    ensures
        expanded(seq!['~', '/'] + rest, Some(home)) == home + seq!['/'] + rest,
        expanded(path, None) == path,
        path.len() > 0 && path[0] != '~' ==> expanded(path, Some(home)) == path,
        path.len() > 1 && path[1] != '/' ==> expanded(path, Some(home)) == path,
        path.len() < 2 ==> expanded(path, Some(home)) == path,
{
    let p = seq!['~', '/'] + rest;
    assert(p[0] == '~' && p[1] == '/');
    assert(p.skip(1) =~= seq!['/'] + rest);
    assert(home + p.skip(1) =~= home + seq!['/'] + rest);
}

/// The names of the modifiers.
pub proof fn modifiers_have_their_names(held: Modifiers)
    ensures
        also_held(held, "ctrl"@, ModKey::Super) == Some(Modifiers { ctrl: true, ..held }),
        also_held(held, "alt"@, ModKey::Super) == Some(Modifiers { alt: true, ..held }),
        also_held(held, "shift"@, ModKey::Super) == Some(Modifiers { shift: true, ..held }),
        also_held(held, "super"@, ModKey::Alt) == Some(Modifiers { logo: true, ..held }),
        also_held(held, "logo"@, ModKey::Alt) == Some(Modifiers { logo: true, ..held }),
        also_held(held, "mod"@, ModKey::Alt) == Some(Modifiers { alt: true, ..held }),
        also_held(held, "mod"@, ModKey::Super) == Some(Modifiers { logo: true, ..held }),
{
    reveal_strlit("ctrl");
    reveal_strlit("alt");
    reveal_strlit("shift");
    reveal_strlit("super");
    reveal_strlit("logo");
    reveal_strlit("mod");
    assert("ctrl"@.len() == 4);
    assert("alt"@.len() == 3);
    assert("shift"@.len() == 5);
    assert("super"@.len() == 5);
    assert("logo"@.len() == 4);
    assert("mod"@.len() == 3);
    assert("ctrl"@[0] != "logo"@[0]);
    assert("alt"@[0] != "mod"@[0]);
    assert("shift"@[1] != "super"@[1]);
}

/// Modifiers are held one after the other, each before a plus; what is left is
/// the name of what they are held with.
pub proof fn modifiers_are_held_in_turn(
    held: Modifiers,
    name: Seq<char>,
    rest: Seq<char>,
    m: ModKey,
)
    requires
        !name.contains('+'),
    ensures
        held_with(held, name, m) == Some((held, name)),
        rest.len() > 0 ==> held_with(held, name.push('+') + rest, m) == (match also_held(
            held,
            name,
            m,
        ) {
            Some(more) => held_with(more, rest, m),
            None => None,
        }),
{
    crate::laws::text::cuts_find_the_parts(name, '+', rest);
}

/// The names of the mouse buttons and of scrolling.
pub proof fn mouse_triggers_have_their_names()
    ensures
        mouse_trigger_named("left"@) == Some(MouseTrigger::Button(0x110)),
        mouse_trigger_named("right"@) == Some(MouseTrigger::Button(0x111)),
        mouse_trigger_named("middle"@) == Some(MouseTrigger::Button(0x112)),
        mouse_trigger_named("trackpad-scroll"@) == Some(MouseTrigger::TrackpadScroll),
        mouse_trigger_named("wheel-scroll"@) == Some(MouseTrigger::WheelScroll),
{
    reveal_strlit("left");
    reveal_strlit("right");
    reveal_strlit("middle");
    reveal_strlit("trackpad-scroll");
    reveal_strlit("wheel-scroll");
    assert("left"@.len() == 4);
    assert("right"@.len() == 5);
    assert("middle"@.len() == 6);
    assert("trackpad-scroll"@.len() == 15);
    assert("wheel-scroll"@.len() == 12);
}

/// The names of the gestures, behind the number of fingers.
pub proof fn gestures_have_their_names(fingers: u32)
    ensures
        motion_named("finger-swipe"@, fingers) == Some(GestureTrigger::Swipe { fingers }),
        motion_named("finger-swipe-up"@, fingers) == Some(GestureTrigger::SwipeUp { fingers }),
        motion_named("finger-swipe-down"@, fingers) == Some(GestureTrigger::SwipeDown { fingers }),
        motion_named("finger-swipe-left"@, fingers) == Some(GestureTrigger::SwipeLeft { fingers }),
        motion_named("finger-swipe-right"@, fingers) == Some(
            GestureTrigger::SwipeRight { fingers },
        ),
        motion_named("finger-doubletap-swipe"@, fingers) == Some(
            GestureTrigger::DoubletapSwipe { fingers },
        ),
        motion_named("finger-pinch"@, fingers) == Some(GestureTrigger::Pinch { fingers }),
        motion_named("finger-pinch-in"@, fingers) == Some(GestureTrigger::PinchIn { fingers }),
        motion_named("finger-pinch-out"@, fingers) == Some(GestureTrigger::PinchOut { fingers }),
        motion_named("finger-hold"@, fingers) == Some(GestureTrigger::Hold { fingers }),
{
    reveal_strlit("finger-swipe");
    reveal_strlit("finger-swipe-up");
    reveal_strlit("finger-swipe-down");
    reveal_strlit("finger-swipe-left");
    reveal_strlit("finger-swipe-right");
    reveal_strlit("finger-doubletap-swipe");
    reveal_strlit("finger-pinch");
    reveal_strlit("finger-pinch-in");
    reveal_strlit("finger-pinch-out");
    reveal_strlit("finger-hold");
    assert("finger-swipe"@.len() == 12);
    assert("finger-swipe-up"@.len() == 15);
    assert("finger-swipe-down"@.len() == 17);
    assert("finger-swipe-left"@.len() == 17);
    assert("finger-swipe-right"@.len() == 18);
    assert("finger-doubletap-swipe"@.len() == 22);
    assert("finger-pinch"@.len() == 12);
    assert("finger-pinch-in"@.len() == 15);
    assert("finger-pinch-out"@.len() == 16);
    assert("finger-hold"@.len() == 11);
    assert("finger-swipe"@[7] != "finger-pinch"@[7]);
    assert("finger-swipe-up"@[7] != "finger-pinch-in"@[7]);
    assert("finger-swipe-down"@[13] != "finger-swipe-left"@[13]);
}

/// The names of the directions lead where they say.
pub proof fn directions_have_their_names()
    ensures
        direction_named("up"@) matches Some(d) && d.heading() == (0int, -1int),
        direction_named("down"@) matches Some(d) && d.heading() == (0int, 1int),
        direction_named("left"@) matches Some(d) && d.heading() == (-1int, 0int),
        direction_named("right"@) matches Some(d) && d.heading() == (1int, 0int),
        direction_named("up-left"@) matches Some(d) && d.heading() == (-1int, -1int),
        direction_named("up-right"@) matches Some(d) && d.heading() == (1int, -1int),
        direction_named("down-left"@) matches Some(d) && d.heading() == (-1int, 1int),
        direction_named("down-right"@) matches Some(d) && d.heading() == (1int, 1int),
{
    reveal_strlit("up");
    reveal_strlit("down");
    reveal_strlit("left");
    reveal_strlit("right");
    reveal_strlit("up-left");
    reveal_strlit("up-right");
    reveal_strlit("down-left");
    reveal_strlit("down-right");
    assert("up"@.len() == 2);
    assert("down"@.len() == 4);
    assert("left"@.len() == 4);
    assert("right"@.len() == 5);
    assert("up-left"@.len() == 7);
    assert("up-right"@.len() == 8);
    assert("down-left"@.len() == 9);
    assert("down-right"@.len() == 10);
    assert("down"@[0] != "left"@[0]);
}

/// The names of the actions that stand alone.
pub proof fn plain_actions_have_their_names()
    ensures
        plain_action_named("close-window"@) == Some(ActionView::CloseWindow),
        plain_action_named("center-window"@) == Some(ActionView::CenterWindow),
        plain_action_named("cycle-windows"@) == Some(ActionView::CycleWindows { backward: false }),
        plain_action_named("home-toggle"@) == Some(ActionView::HomeToggle),
        plain_action_named("zoom-in"@) == Some(ActionView::ZoomIn),
        plain_action_named("zoom-out"@) == Some(ActionView::ZoomOut),
        plain_action_named("zoom-reset"@) == Some(ActionView::ZoomReset),
        plain_action_named("zoom-to-fit"@) == Some(ActionView::ZoomToFit),
        plain_action_named("toggle-fullscreen"@) == Some(ActionView::ToggleFullscreen),
        plain_action_named("fit-window"@) == Some(ActionView::FitWindow),
        plain_action_named("focus-center"@) == Some(ActionView::FocusCenter),
        plain_action_named("reload-config"@) == Some(ActionView::ReloadConfig),
        plain_action_named("quit"@) == Some(ActionView::Quit),
{
    reveal_strlit("close-window");
    reveal_strlit("center-window");
    reveal_strlit("cycle-windows");
    reveal_strlit("home-toggle");
    reveal_strlit("zoom-in");
    reveal_strlit("zoom-out");
    reveal_strlit("zoom-reset");
    reveal_strlit("zoom-to-fit");
    reveal_strlit("toggle-fullscreen");
    reveal_strlit("fit-window");
    reveal_strlit("focus-center");
    reveal_strlit("reload-config");
    reveal_strlit("quit");
    assert("close-window"@.len() == 12);
    assert("center-window"@.len() == 13);
    assert("cycle-windows"@.len() == 13);
    assert("home-toggle"@.len() == 11);
    assert("zoom-in"@.len() == 7);
    assert("zoom-out"@.len() == 8);
    assert("zoom-reset"@.len() == 10);
    assert("zoom-to-fit"@.len() == 11);
    assert("toggle-fullscreen"@.len() == 17);
    assert("fit-window"@.len() == 10);
    assert("focus-center"@.len() == 12);
    assert("reload-config"@.len() == 13);
    assert("quit"@.len() == 4);
    assert("close-window"@[0] != "focus-center"@[0]);
    assert("center-window"@[1] != "cycle-windows"@[1]);
    assert("center-window"@[0] != "reload-config"@[0]);
    assert("cycle-windows"@[0] != "reload-config"@[0]);
    assert("home-toggle"@[0] != "zoom-to-fit"@[0]);
    assert("zoom-reset"@[0] != "fit-window"@[0]);
}

/// The names of the actions that are about something: a command, a direction, a
/// way round, a place.
pub proof fn actions_are_about_something(arg: Seq<char>, d: Direction)
    requires
        direction_named(arg) == Some(d),
    ensures
        action_with("nudge-window"@, arg) == Some(ActionView::NudgeWindow(d)),
        action_with("pan-viewport"@, arg) == Some(ActionView::PanViewport(d)),
        action_with("center-nearest"@, arg) == Some(ActionView::CenterNearest(d)),
        action_with("send-to-output"@, arg) == Some(ActionView::SendToOutput(d)),
        action_with("cycle-windows"@, "backward"@) == Some(
            ActionView::CycleWindows { backward: true },
        ),
        action_with("cycle-windows"@, "forward"@) == Some(
            ActionView::CycleWindows { backward: false },
        ),
{
    reveal_strlit("exec");
    reveal_strlit("spawn");
    reveal_strlit("cycle-windows");
    reveal_strlit("go-to");
    reveal_strlit("nudge-window");
    reveal_strlit("pan-viewport");
    reveal_strlit("center-nearest");
    reveal_strlit("send-to-output");
    reveal_strlit("backward");
    reveal_strlit("forward");
    assert("exec"@.len() == 4);
    assert("spawn"@.len() == 5);
    assert("cycle-windows"@.len() == 13);
    assert("go-to"@.len() == 5);
    assert("nudge-window"@.len() == 12);
    assert("pan-viewport"@.len() == 12);
    assert("center-nearest"@.len() == 14);
    assert("send-to-output"@.len() == 14);
    assert("backward"@.len() == 8);
    assert("forward"@.len() == 7);
    assert("spawn"@[0] != "go-to"@[0]);
    assert("nudge-window"@[0] != "pan-viewport"@[0]);
    assert("center-nearest"@[0] != "send-to-output"@[0]);
}

/// A command is run as it is written, and a place is gone to that is written in
/// whole pixels, across and up.
pub proof fn commands_and_places_are_taken_as_written(
    command: Seq<char>,
    arg: Seq<char>,
    x: Seq<char>,
    y: Seq<char>,
)
    requires
        command.len() > 0,
    ensures
        action_with("exec"@, command) == Some(ActionView::Exec(command)),
        action_with("spawn"@, command) == Some(ActionView::Spawn(command)),
        cut(arg, ' ') == Some((x, y)) && signed(x) is Some && signed(y) is Some ==> position_of(arg)
            == Some((32_000 * signed(x)->0, 32_000 * signed(y)->0)),
        position_of(arg) matches Some((a, b)) ==> action_with("go-to"@, arg) == Some(
            ActionView::GoToPosition(a as i64, b as i64),
        ),
        position_of(arg) is None ==> action_with("go-to"@, arg) is None,
{
    reveal_strlit("exec");
    reveal_strlit("spawn");
    reveal_strlit("cycle-windows");
    reveal_strlit("go-to");
    assert("exec"@.len() == 4);
    assert("spawn"@.len() == 5);
    assert("cycle-windows"@.len() == 13);
    assert("go-to"@.len() == 5);
    assert("spawn"@[0] != "go-to"@[0]);
}

/// An action is its name, and what it is about behind the first blank.
pub proof fn actions_come_before_a_blank(name: Seq<char>, arg: Seq<char>)
    requires
        !name.contains(' '),
    ensures
        action_named(name) == plain_action_named(name),
        action_named(name.push(' ') + arg) == action_with(name, arg),
{
    crate::laws::text::cuts_find_the_parts(name, ' ', arg);
}

/// The names of what the mouse can do.
pub proof fn mouse_actions_have_their_names()
    ensures
        mouse_action_named("move-window"@) == Some(MouseActionView::MoveWindow),
        mouse_action_named("move-snapped-windows"@) == Some(MouseActionView::MoveSnappedWindows),
        mouse_action_named("resize-window"@) == Some(MouseActionView::ResizeWindow),
        mouse_action_named("resize-window-snapped"@) == Some(MouseActionView::ResizeWindowSnapped),
        mouse_action_named("pan-viewport"@) == Some(MouseActionView::PanViewport),
        mouse_action_named("zoom"@) == Some(MouseActionView::Zoom),
        mouse_action_named("center-nearest"@) == Some(MouseActionView::CenterNearest),
{
    reveal_strlit("move-window");
    reveal_strlit("move-snapped-windows");
    reveal_strlit("resize-window");
    reveal_strlit("resize-window-snapped");
    reveal_strlit("pan-viewport");
    reveal_strlit("zoom");
    reveal_strlit("center-nearest");
    assert("move-window"@.len() == 11);
    assert("move-snapped-windows"@.len() == 20);
    assert("resize-window"@.len() == 13);
    assert("resize-window-snapped"@.len() == 21);
    assert("pan-viewport"@.len() == 12);
    assert("zoom"@.len() == 4);
    assert("center-nearest"@.len() == 14);
}

/// What goes on during a gesture is bound to swipes and pinches as such; what is
/// done once can be bound to any gesture.
pub proof fn gestures_take_what_suits_them(fingers: u32, t: GestureTrigger, a: ActionView, s: Seq<char>)
    ensures
        continuous_named(GestureTrigger::Swipe { fingers }, "pan-viewport"@) == Some(
            ContinuousAction::PanViewport,
        ),
        continuous_named(GestureTrigger::Swipe { fingers }, "move-window"@) == Some(
            ContinuousAction::MoveWindow,
        ),
        continuous_named(GestureTrigger::DoubletapSwipe { fingers }, "move-window"@) == Some(
            ContinuousAction::MoveWindow,
        ),
        continuous_named(GestureTrigger::Swipe { fingers }, "resize-window"@) == Some(
            ContinuousAction::ResizeWindow,
        ),
        continuous_named(GestureTrigger::Swipe { fingers }, "resize-window-snapped"@) == Some(
            ContinuousAction::ResizeWindowSnapped,
        ),
        continuous_named(GestureTrigger::Pinch { fingers }, "zoom"@) == Some(
            ContinuousAction::Zoom,
        ),
        continuous_named(GestureTrigger::Swipe { fingers }, "zoom"@) is None,
        continuous_named(GestureTrigger::Pinch { fingers }, "pan-viewport"@) is None,
        gesture_entry_named(t, "center-nearest"@) == Some(
            GestureEntryView::Threshold(ThresholdActionView::CenterNearest),
        ),
        continuous_named(t, s) is None && s != "center-nearest"@ && action_named(s) == Some(a)
            ==> gesture_entry_named(t, s) == Some(
            GestureEntryView::Threshold(ThresholdActionView::Fixed(a)),
        ),
        continuous_named(t, s) is None && s != "center-nearest"@ && action_named(s) is None
            ==> gesture_entry_named(t, s) is None,
        continuous_named(t, s) matches Some(c) ==> gesture_entry_named(t, s) == Some(
            GestureEntryView::Continuous(c),
        ),
{
    reveal_strlit("pan-viewport");
    reveal_strlit("move-window");
    reveal_strlit("resize-window");
    reveal_strlit("resize-window-snapped");
    reveal_strlit("zoom");
    reveal_strlit("center-nearest");
    assert("pan-viewport"@.len() == 12);
    assert("move-window"@.len() == 11);
    assert("resize-window"@.len() == 13);
    assert("resize-window-snapped"@.len() == 21);
    assert("zoom"@.len() == 4);
    assert("center-nearest"@.len() == 14);
}

/// The keys that modify: super unless alt is named, and alt for cycling unless
/// control is.
pub proof fn modifier_settings_are_read(s: Option<String>)
    ensures
        mod_key_named(s) == ModKey::Alt <==> s is Some && s->0@ == "alt"@,
        cycle_modifier_named(s) == CycleModifier::Ctrl <==> s is Some && s->0@ == "ctrl"@,
{
}

/// A pattern with a star stands for every text that begins and ends as it does;
/// one without stands for itself.
pub proof fn stars_stand_for_anything(a: Seq<char>, b: Seq<char>, middle: Seq<char>, id: Seq<char>)
    requires
        !a.contains('*'),
    ensures
        pattern_matches(a, id) <==> id == a,
        pattern_matches(a.push('*') + b, a + middle + b),
        pattern_matches(a.push('*') + b, id) ==> id.len() >= a.len() + b.len() && id.take(
            a.len() as int,
        ) == a && id.skip(id.len() - b.len()) == b,
{
    crate::laws::text::cuts_find_the_parts(a, '*', b);
    assert(spliced(a, middle, b) == a + middle + b);
    if pattern_matches(a.push('*') + b, id) {
        let m = choose|m: Seq<char>| #[trigger] spliced(a, m, b) == id;
        assert(a + m + b == id);
        assert(id.take(a.len() as int) =~= a);
        assert(id.skip(id.len() - b.len()) =~= b);
    }
}

/// The rules that place a window: those for it that have a place, in order.
pub proof fn placing_rules_are_found_in_order(rules: Seq<WindowRule>, id: Seq<char>, n: nat)
    requires
        0 < n <= rules.len(),
    ensures
        placed_rules(rules, id, 0).len() == 0,
        placed_rules(rules, id, n) == (if rules[n - 1].position is Some && pattern_matches(
            rules[n - 1].app_id@,
            id,
        ) {
            placed_rules(rules, id, (n - 1) as nat).push(rules[n - 1])
        } else {
            placed_rules(rules, id, (n - 1) as nat)
        }),
{
}

/// Anchors are written with y upwards and kept with y downwards; without any,
/// the origin is one.
pub proof fn anchors_are_turned_over(anchors: Option<Vec<(i64, i64)>>, r: Seq<(i64, i64)>, i: int)
    requires
        anchors_read(anchors, r),
    ensures
        anchors is None ==> r.len() == 1 && r[0] == (0i64, 0i64),
        anchors matches Some(v) ==> r.len() == v@.len(),
        anchors matches Some(v) ==> (0 <= i < v@.len() ==> r[i].0 == v@[i].0 && r[i].1 + v@[i].1
            == 0),
{
}

/// A number that is held within bounds is the closest one there.
pub proof fn numbers_are_held_within(v: i64, low: i64, high: i64)
    requires
        low <= high,
    ensures
        low <= held_within(v, low, high) <= high,
        low <= v <= high ==> held_within(v, low, high) == v,
        v < low ==> held_within(v, low, high) == low,
        v > high ==> held_within(v, low, high) == high,
{
}

/// What a file says is what holds, setting by setting.
pub proof fn settings_are_taken_from_the_file(c: Config, raw: ConfigFile)
    requires
        c.settings_from(raw),
        c.devices_from(raw),
        c.lists_from(raw),
    ensures
        raw.scroll_speed matches Some(v) ==> c.scroll_speed == v,
        raw.friction matches Some(v) ==> c.friction == v,
        raw.nudge_step matches Some(v) ==> c.nudge_step == v,
        raw.pan_step matches Some(v) ==> c.pan_step == v,
        raw.keyboard.repeat_delay matches Some(v) ==> c.repeat_delay == v,
        raw.keyboard.repeat_rate matches Some(v) ==> c.repeat_rate == v,
        raw.edge_zone matches Some(v) ==> c.edge_zone == v,
        raw.edge_pan_min matches Some(v) ==> c.edge_pan_min == v,
        raw.edge_pan_max matches Some(v) ==> c.edge_pan_max == v,
        raw.animation_speed matches Some(v) ==> c.animation_speed == v,
        raw.zoom_step matches Some(v) ==> c.zoom_step == v,
        raw.zoom_fit_padding matches Some(v) ==> c.zoom_fit_padding == v,
        raw.output_scale matches Some(v) ==> c.output_scale == v,
        raw.snap_enabled matches Some(v) ==> c.snap_enabled == v,
        raw.snap_gap matches Some(v) ==> c.snap_gap == v,
        raw.snap_distance matches Some(v) ==> c.snap_distance == v,
        raw.snap_break_force matches Some(v) ==> c.snap_break_force == v,
        raw.keyboard.layout_independent matches Some(v) ==> c.layout_independent == v,
        raw.keyboard.layout matches Some(s) ==> c.keyboard_layout.layout@ == s@,
        raw.keyboard.variant matches Some(s) ==> c.keyboard_layout.variant@ == s@,
        raw.keyboard.options matches Some(s) ==> c.keyboard_layout.options@ == s@,
        raw.keyboard.model matches Some(s) ==> c.keyboard_layout.model@ == s@,
        raw.trackpad.tap_to_click matches Some(v) ==> c.trackpad.tap_to_click == v,
        raw.trackpad.natural_scroll matches Some(v) ==> c.trackpad.natural_scroll == v,
        raw.trackpad.tap_and_drag matches Some(v) ==> c.trackpad.tap_and_drag == v,
        raw.trackpad.accel_speed matches Some(v) ==> (-1_000_000 <= v <= 1_000_000
            ==> c.trackpad.accel_speed == v),
        raw.inactive_cursor_opacity matches Some(v) ==> (0 <= v <= 1_000_000
            ==> c.inactive_cursor_opacity == v),
        0 <= c.inactive_cursor_opacity <= 1_000_000,
        -1_000_000 <= c.trackpad.accel_speed <= 1_000_000,
        c.cursor_size == raw.cursor_size,
        c.cursor_theme == raw.cursor_theme,
        c.background == raw.background,
        c.mod_key == mod_key_named(raw.mod_key),
        c.cycle_modifier == cycle_modifier_named(raw.cycle_modifier),
        raw.autostart matches Some(v) ==> c.autostart@ == v@,
        raw.autostart is None ==> c.autostart@.len() == 0,
{
}

/// What holds where the file says nothing. Fractions are in millionths.
pub proof fn settings_have_their_defaults(c: Config, raw: ConfigFile)
    requires
        c.settings_from(raw),
        c.devices_from(raw),
        raw.says_nothing(),
    ensures
        c.mod_key == ModKey::Super,
        c.cycle_modifier == CycleModifier::Alt,
        c.scroll_speed == 1_500_000,
        c.friction == 960_000,
        c.nudge_step == 20,
        c.pan_step == 100_000_000,
        c.repeat_delay == 200,
        c.repeat_rate == 25,
        c.edge_zone == 100_000_000,
        c.edge_pan_min == 4_000_000,
        c.edge_pan_max == 30_000_000,
        c.animation_speed == 300_000,
        c.zoom_step == 1_100_000,
        c.zoom_fit_padding == 100_000_000,
        c.output_scale == 1_000_000,
        c.snap_enabled,
        c.snap_gap == 12_000_000,
        c.snap_distance == 24_000_000,
        c.snap_break_force == 32_000_000,
        c.layout_independent,
        c.inactive_cursor_opacity == 500_000,
        c.trackpad.tap_to_click && c.trackpad.natural_scroll && c.trackpad.tap_and_drag,
        c.trackpad.accel_speed == 0,
        c.keyboard_layout.layout@ == "us"@,
{
}

/// A command is the one that the environment names; else the first that is
/// installed, and where none is, the first of all.
pub proof fn commands_are_found(
    named: Option<String>,
    candidates: Seq<Seq<char>>,
    installed: Option<usize>,
)
    requires
        candidates.len() > 0,
    ensures
        named matches Some(s) ==> (s@.len() > 0 ==> chosen_command(named, candidates, installed)
            == s@),
        named is None ==> (installed matches Some(i) ==> (i < candidates.len() ==> chosen_command(
            named,
            candidates,
            installed,
        ) == candidates[i as int])),
        named is None && installed is None ==> chosen_command(named, candidates, installed)
            == candidates[0],
        named matches Some(s) ==> (s@.len() == 0 ==> chosen_command(named, candidates, installed)
            == chosen_command(None, candidates, installed)),
{
}

proof fn key_is_bound(list: Seq<(KeyCombo, ActionView)>, n: nat, i: int)
    requires
        0 <= i < n <= list.len(),
        forall|j: int| i < j < n ==> (#[trigger] list[j]).0.normal() != list[i].0.normal(),
    ensures
        keys_bound(list, n).contains_key(list[i].0.normal().number()),
        keys_bound(list, n)[list[i].0.normal().number()] == list[i].1,
    decreases n,
{
    if i < n - 1 {
        key_is_bound(list, (n - 1) as nat, i);
        KeyCombo::numbers_differ(list[n - 1].0.normal(), list[i].0.normal());
    }
}

/// Whether a key does an action.
pub open spec fn does(c: Config, modifiers: Modifiers, sym: u32, action: ActionView) -> bool {
    c.key_action(modifiers, sym) matches Some(a) && a@ == action
}

/// What the keys do where the file says nothing: with the modifier the arrows
/// go to windows, with shift they nudge and with control they pan; equal and
/// minus zoom, and so on. Tab cycles, with shift backwards.
pub proof fn keys_have_their_defaults(
    c: Config,
    raw: ConfigFile,
    terminal: Seq<char>,
    launcher: Seq<char>,
)
    requires
        c.bindings_from(raw, terminal, launcher),
        raw.says_nothing(),
    ensures
        ({
            let m = Modifiers { ctrl: false, alt: false, shift: false, logo: true };
            let m_shift = Modifiers { ctrl: false, alt: false, shift: true, logo: true };
            let m_ctrl = Modifiers { ctrl: true, alt: false, shift: false, logo: true };
            let all = Modifiers { ctrl: true, alt: false, shift: true, logo: true };
            let bare = Modifiers { ctrl: false, alt: false, shift: false, logo: false };
            let alt = Modifiers { ctrl: false, alt: true, shift: false, logo: false };
            let alt_shift = Modifiers { ctrl: false, alt: true, shift: true, logo: false };
            &&& does(c, m, 0xff0d, ActionView::Exec(terminal))
            &&& does(c, m, 0x64, ActionView::Exec(launcher))
            &&& does(c, m, 0x71, ActionView::CloseWindow)
            &&& does(c, m, 0x61, ActionView::HomeToggle)
            &&& does(c, m, 0x63, ActionView::CenterWindow)
            &&& does(c, m, 0x3d, ActionView::ZoomIn)
            &&& does(c, m, 0x2d, ActionView::ZoomOut)
            &&& does(c, m, 0x30, ActionView::ZoomReset)
            &&& does(c, m, 0x77, ActionView::ZoomToFit)
            &&& does(c, m, 0x6c, ActionView::Exec("swaylock"@))
            &&& does(c, bare, 0xff61, ActionView::Exec("grim - | wl-copy"@))
            &&& does(c, bare, 0x1008_ff02, ActionView::Exec("brightnessctl set +5%"@))
            &&& does(c, bare, 0x1008_ff03, ActionView::Exec("brightnessctl set 5%-"@))
            &&& does(
                c,
                bare,
                0x1008_ff13,
                ActionView::Exec("wpctl set-volume @DEFAULT_AUDIO_SINK@ 5%+"@),
            )
            &&& does(
                c,
                bare,
                0x1008_ff11,
                ActionView::Exec("wpctl set-volume @DEFAULT_AUDIO_SINK@ 5%-"@),
            )
            &&& does(
                c,
                bare,
                0x1008_ff12,
                ActionView::Exec("wpctl set-mute @DEFAULT_AUDIO_SINK@ toggle"@),
            )
            &&& does(c, m, 0x66, ActionView::ToggleFullscreen)
            &&& does(c, all, 0x71, ActionView::Quit)
            &&& does(c, m, 0xff52, ActionView::CenterNearest(Direction::Up))
            &&& does(c, m, 0xff54, ActionView::CenterNearest(Direction::Down))
            &&& does(c, m, 0xff51, ActionView::CenterNearest(Direction::Left))
            &&& does(c, m, 0xff53, ActionView::CenterNearest(Direction::Right))
            &&& does(c, m_shift, 0xff52, ActionView::NudgeWindow(Direction::Up))
            &&& does(c, m_shift, 0xff54, ActionView::NudgeWindow(Direction::Down))
            &&& does(c, m_shift, 0xff51, ActionView::NudgeWindow(Direction::Left))
            &&& does(c, m_shift, 0xff53, ActionView::NudgeWindow(Direction::Right))
            &&& does(c, m_ctrl, 0xff52, ActionView::PanViewport(Direction::Up))
            &&& does(c, m_ctrl, 0xff54, ActionView::PanViewport(Direction::Down))
            &&& does(c, m_ctrl, 0xff51, ActionView::PanViewport(Direction::Left))
            &&& does(c, m_ctrl, 0xff53, ActionView::PanViewport(Direction::Right))
            &&& does(c, alt, 0xff09, ActionView::CycleWindows { backward: false })
            &&& does(c, alt_shift, 0xff09, ActionView::CycleWindows { backward: true })
        }),
{
    let list = default_keys(ModKey::Super, CycleModifier::Alt, terminal, launcher);
    assert(crate::config::bindings::viewed(c.bindings@) == keys_bound(list, list.len()));
    assert forall|i: int| 0 <= i < list.len() implies does(
        c,
        #[trigger] list[i].0.modifiers,
        list[i].0.sym,
        list[i].1,
    ) by {
        assert forall|j: int| i < j < list.len() implies (#[trigger] list[j]).0.normal()
            != list[i].0.normal() by {
            default_keys_do_not_clash(
                ModKey::Super,
                CycleModifier::Alt,
                terminal,
                launcher,
                i,
                j,
            );
        }
        key_is_bound(list, list.len(), i);
        let number = list[i].0.normal().number();
        assert(crate::config::bindings::viewed(c.bindings@).contains_key(number));
    }
    assert(list[0].0.modifiers.logo);
    assert(list[1].0.modifiers.logo);
    assert(list[2].0.modifiers.logo);
    assert(list[3].0.modifiers.logo);
    assert(list[4].0.modifiers.logo);
    assert(list[5].0.modifiers.logo);
    assert(list[6].0.modifiers.logo);
    assert(list[7].0.modifiers.logo);
    assert(list[8].0.modifiers.logo);
    assert(list[9].0.modifiers.logo);
    assert(list[10].0.modifiers.logo);
    assert(list[11].0.modifiers.logo);
    assert(list[12].0.modifiers.logo);
    assert(list[13].0.modifiers.logo);
    assert(list[14].0.modifiers.logo);
    assert(list[15].0.modifiers.logo);
    assert(list[16].0.modifiers.logo);
    assert(list[17].0.modifiers.alt);
    assert(list[18].0.modifiers.alt);
    assert(list[19].0.modifiers.logo);
    assert(list[20].0.modifiers.logo);
    assert(list[21].0.modifiers.logo);
    assert(list[22].0.modifiers.logo);
    assert(list[23].0.modifiers.logo);
    assert(list[24].0.modifiers.logo);
    assert(!list[25].0.modifiers.logo);
    assert(!list[26].0.modifiers.logo);
    assert(!list[27].0.modifiers.logo);
    assert(!list[28].0.modifiers.logo);
    assert(!list[29].0.modifiers.logo);
    assert(!list[30].0.modifiers.logo);
    assert(list[31].0.modifiers.logo);
}

proof fn context_is_bound<K: BindingKey, W>(
    list: Seq<(BindingContext, K, W)>,
    n: nat,
    i: int,
)
    requires
        0 <= i < n <= list.len(),
        forall|j: int|
            i < j < n && (#[trigger] list[j]).0 == list[i].0 ==> list[j].1 != list[i].1,
    ensures
        context_bound(list, list[i].0, n).contains_key(list[i].1.number()),
        context_bound(list, list[i].0, n)[list[i].1.number()] == list[i].2,
    decreases n,
{
    if i < n - 1 {
        context_is_bound(list, (n - 1) as nat, i);
        if list[n - 1].0 == list[i].0 {
            K::numbers_differ(list[n - 1].1, list[i].1);
        }
    }
}

/// What the mouse does where the file says nothing: alt moves and resizes
/// windows, the modifier pans and zooms anywhere and with control goes to
/// windows, and on the canvas the trackpad pans and the wheel zooms.
pub proof fn the_mouse_has_its_defaults(c: Config, raw: ConfigFile, t: Seq<char>, l: Seq<char>)
    requires
        c.bindings_from(raw, t, l),
        raw.says_nothing(),
    ensures
        ({
            let bare = Modifiers { ctrl: false, alt: false, shift: false, logo: false };
            let alt = Modifiers { ctrl: false, alt: true, shift: false, logo: false };
            let m = Modifiers { ctrl: false, alt: false, shift: false, logo: true };
            let m_ctrl = Modifiers { ctrl: true, alt: false, shift: false, logo: true };
            let left = MouseTrigger::Button(0x110);
            let right = MouseTrigger::Button(0x111);
            let any = BindingContext::Anywhere;
            let canvas = BindingContext::OnCanvas;
            &&& c.mouse.bound(MouseBinding { modifiers: alt, trigger: left }, any) matches Some(a) && a
                is MoveWindow
            &&& c.mouse.bound(MouseBinding { modifiers: alt, trigger: right }, any) matches Some(a)
                && a is ResizeWindow
            &&& c.mouse.bound(MouseBinding { modifiers: m, trigger: left }, any) matches Some(a) && a
                is PanViewport
            &&& c.mouse.bound(MouseBinding { modifiers: m_ctrl, trigger: left }, any) matches Some(a)
                && a is CenterNearest
            &&& c.mouse.bound(
                MouseBinding { modifiers: m, trigger: MouseTrigger::TrackpadScroll },
                any,
            ) matches Some(a) && a is Zoom
            &&& c.mouse.bound(
                MouseBinding { modifiers: m, trigger: MouseTrigger::WheelScroll },
                any,
            ) matches Some(a) && a is Zoom
            &&& c.mouse.bound(
                MouseBinding { modifiers: bare, trigger: MouseTrigger::TrackpadScroll },
                canvas,
            ) matches Some(a) && a is PanViewport
            &&& c.mouse.bound(
                MouseBinding { modifiers: bare, trigger: MouseTrigger::WheelScroll },
                canvas,
            ) matches Some(a) && a is Zoom
        }),
{
    let list = default_mouse(ModKey::Super);
    assert forall|i: int| 0 <= i < list.len() implies c.mouse.table(
        #[trigger] list[i].0,
    ).contains_key(list[i].1.number()) && c.mouse.table(list[i].0)[list[i].1.number()]@
        == list[i].2 by {
        assert forall|j: int| i < j < list.len() && (#[trigger] list[j]).0 == list[i].0 implies list[j].1
            != list[i].1 by {}
        context_is_bound(list, list.len(), i);
        let context = list[i].0;
        assert(raw.mouse.section(context) is None);
        assert(crate::config::bindings::viewed(c.mouse.table(context)) == context_bound(
            list,
            context,
            list.len(),
        ));
        assert(crate::config::bindings::viewed(c.mouse.table(context)).contains_key(
            list[i].1.number(),
        ));
    }
    assert(list[0].0 == BindingContext::Anywhere);
    assert(list[1].0 == BindingContext::Anywhere);
    assert(list[2].0 == BindingContext::Anywhere);
    assert(list[3].0 == BindingContext::Anywhere);
    assert(list[4].0 == BindingContext::Anywhere);
    assert(list[5].0 == BindingContext::Anywhere);
    assert(list[6].0 == BindingContext::OnCanvas);
    assert(list[7].0 == BindingContext::OnCanvas);
}

/// Whether a gesture has an entry in a context.
pub open spec fn gesture_does(
    c: Config,
    modifiers: Modifiers,
    trigger: GestureTrigger,
    context: BindingContext,
    entry: GestureEntryView,
) -> bool {
    c.gestures.bound(GestureBinding { modifiers, trigger }, context) matches Some(e) && e@ == entry
}

/// What gestures do where the file says nothing: two fingers pinch on the
/// canvas to zoom; three swipe to pan, after a tap to move a window and with
/// alt to resize it, and pinch to zoom; four swipe to the nearest window, pinch
/// in for the overview and out for home, and hold to center. With the modifier
/// three fingers do what four do.
pub proof fn gestures_have_their_defaults(c: Config, raw: ConfigFile, t: Seq<char>, l: Seq<char>)
    requires
        c.bindings_from(raw, t, l),
        raw.says_nothing(),
    ensures
        ({
            let bare = Modifiers { ctrl: false, alt: false, shift: false, logo: false };
            let alt = Modifiers { ctrl: false, alt: true, shift: false, logo: false };
            let m = Modifiers { ctrl: false, alt: false, shift: false, logo: true };
            let any = BindingContext::Anywhere;
            let zoom = GestureEntryView::Continuous(ContinuousAction::Zoom);
            let pan = GestureEntryView::Continuous(ContinuousAction::PanViewport);
            let drag = GestureEntryView::Continuous(ContinuousAction::MoveWindow);
            let resize = GestureEntryView::Continuous(ContinuousAction::ResizeWindow);
            let nearest = GestureEntryView::Threshold(ThresholdActionView::CenterNearest);
            let fit = GestureEntryView::Threshold(ThresholdActionView::Fixed(ActionView::ZoomToFit));
            let home = GestureEntryView::Threshold(
                ThresholdActionView::Fixed(ActionView::HomeToggle),
            );
            let center = GestureEntryView::Threshold(
                ThresholdActionView::Fixed(ActionView::CenterWindow),
            );
            &&& gesture_does(
                c,
                bare,
                GestureTrigger::Pinch { fingers: 2 },
                BindingContext::OnCanvas,
                zoom,
            )
            &&& gesture_does(c, bare, GestureTrigger::Swipe { fingers: 3 }, any, pan)
            &&& gesture_does(
                c,
                bare,
                GestureTrigger::DoubletapSwipe { fingers: 3 },
                BindingContext::OnWindow,
                drag,
            )
            &&& gesture_does(
                c,
                alt,
                GestureTrigger::Swipe { fingers: 3 },
                BindingContext::OnWindow,
                resize,
            )
            &&& gesture_does(c, bare, GestureTrigger::Pinch { fingers: 3 }, any, zoom)
            &&& gesture_does(c, bare, GestureTrigger::Swipe { fingers: 4 }, any, nearest)
            &&& gesture_does(c, bare, GestureTrigger::PinchIn { fingers: 4 }, any, fit)
            &&& gesture_does(c, bare, GestureTrigger::PinchOut { fingers: 4 }, any, home)
            &&& gesture_does(c, bare, GestureTrigger::Hold { fingers: 4 }, any, center)
            &&& gesture_does(c, m, GestureTrigger::Swipe { fingers: 3 }, any, nearest)
            &&& gesture_does(c, m, GestureTrigger::PinchIn { fingers: 3 }, any, fit)
            &&& gesture_does(c, m, GestureTrigger::PinchOut { fingers: 3 }, any, home)
            &&& gesture_does(c, m, GestureTrigger::Hold { fingers: 3 }, any, center)
        }),
{
    let list = default_gestures(ModKey::Super);
    assert forall|i: int| 0 <= i < list.len() implies c.gestures.table(
        #[trigger] list[i].0,
    ).contains_key(list[i].1.number()) && c.gestures.table(list[i].0)[list[i].1.number()]@
        == list[i].2 by {
        assert forall|j: int| i < j < list.len() && (#[trigger] list[j]).0 == list[i].0 implies list[j].1
            != list[i].1 by {}
        context_is_bound(list, list.len(), i);
        let context = list[i].0;
        assert(raw.gestures.section(context) is None);
        assert(crate::config::bindings::viewed(c.gestures.table(context)) == context_bound(
            list,
            context,
            list.len(),
        ));
        assert(crate::config::bindings::viewed(c.gestures.table(context)).contains_key(
            list[i].1.number(),
        ));
    }
    assert(list[0].0 == BindingContext::OnCanvas);
    assert(list[1].0 == BindingContext::Anywhere);
    assert(list[2].0 == BindingContext::OnWindow);
    assert(list[3].0 == BindingContext::OnWindow);
    assert(list[4].0 == BindingContext::Anywhere);
    assert(list[5].0 == BindingContext::Anywhere);
    assert(list[6].0 == BindingContext::Anywhere);
    assert(list[7].0 == BindingContext::Anywhere);
    assert(list[8].0 == BindingContext::Anywhere);
    assert(list[9].0 == BindingContext::Anywhere);
    assert(list[10].0 == BindingContext::Anywhere);
    assert(list[11].0 == BindingContext::Anywhere);
    assert(list[12].0 == BindingContext::Anywhere);
}

/// A mouse binding is a trigger with the modifiers before it, and so is that of
/// a gesture.
pub proof fn bindings_are_triggers_with_modifiers(name: Seq<char>, m: ModKey)
    requires
        !name.contains('+'),
    ensures
        mouse_trigger_named(name) matches Some(trigger) ==> mouse_binding_named(name, m) == Some(
            MouseBinding {
                modifiers: Modifiers { ctrl: false, alt: false, shift: false, logo: false },
                trigger,
            },
        ),
        mouse_trigger_named(name) is None ==> mouse_binding_named(name, m) is None,
        gesture_trigger_named(name) matches Some(trigger) ==> gesture_binding_named(name, m)
            == Some(
            GestureBinding {
                modifiers: Modifiers { ctrl: false, alt: false, shift: false, logo: false },
                trigger,
            },
        ),
        gesture_trigger_named(name) is None ==> gesture_binding_named(name, m) is None,
{
    modifiers_are_held_in_turn(
        Modifiers { ctrl: false, alt: false, shift: false, logo: false },
        name,
        seq![],
        m,
    );
}

/// With a modifier before it a mouse trigger needs that modifier, and so does a
/// gesture.
pub proof fn bindings_need_their_modifiers(name: Seq<char>)
    requires
        !name.contains('+'),
        name.len() > 0,
    ensures
        mouse_trigger_named(name) matches Some(trigger) ==> mouse_binding_named(
            "alt"@.push('+') + name,
            ModKey::Super,
        ) == Some(
            MouseBinding {
                modifiers: Modifiers { ctrl: false, alt: true, shift: false, logo: false },
                trigger,
            },
        ),
        gesture_trigger_named(name) matches Some(trigger) ==> gesture_binding_named(
            "alt"@.push('+') + name,
            ModKey::Super,
        ) == Some(
            GestureBinding {
                modifiers: Modifiers { ctrl: false, alt: true, shift: false, logo: false },
                trigger,
            },
        ),
{
    let bare = Modifiers { ctrl: false, alt: false, shift: false, logo: false };
    reveal_strlit("alt");
    assert(!"alt"@.contains('+')) by {
        assert("alt"@ =~= seq!['a', 'l', 't']);
    }
    modifiers_have_their_names(bare);
    modifiers_are_held_in_turn(bare, "alt"@, name, ModKey::Super);
    modifiers_are_held_in_turn(
        Modifiers { ctrl: false, alt: true, shift: false, logo: false },
        name,
        seq![],
        ModKey::Super,
    );
}

/// A gesture is the number of its fingers, a dash and its motion.
pub proof fn gestures_tell_their_fingers(count: Seq<char>, motion: Seq<char>, n: u32)
    requires
        !count.contains('-'),
    ensures
        unsigned(count) == Some(n as int) ==> gesture_trigger_named(count.push('-') + motion)
            == motion_named(motion, n),
        unsigned(count) is None ==> gesture_trigger_named(count.push('-') + motion) is None,
        gesture_trigger_named(count) is None,
{
    crate::laws::text::cuts_find_the_parts(count, '-', motion);
}

/// To put in a binding makes it the one of its key and changes no other; to
/// take one out leaves the others.
pub proof fn bindings_change_one_at_a_time<K: BindingKey, V>(
    before: ContextBindings<K, V>,
    after: ContextBindings<K, V>,
    context: BindingContext,
    key: K,
    value: V,
    other: BindingContext,
    number: u64,
)
    ensures
        is_insertion(before, after, context, key, value) ==> after.table(context).contains_key(
            key.number(),
        ) && after.table(context)[key.number()] == value,
        is_removal(before, after, context, key) ==> !after.table(context).contains_key(
            key.number(),
        ),
        (is_insertion(before, after, context, key, value) || is_removal(
            before,
            after,
            context,
            key,
        )) && (other != context || number != key.number()) ==> after.table(other).contains_key(
            number,
        ) == before.table(other).contains_key(number) && (before.table(other).contains_key(number)
            ==> after.table(other)[number] == before.table(other)[number]),
{
}

/// Where nothing is named and nothing is installed, the terminal is foot and
/// the launcher is fuzzel.
pub proof fn programs_have_their_defaults()
    ensures
        chosen_command(None, terminal_names(), None) == "foot"@,
        chosen_command(None, launcher_names(), None) == "fuzzel"@,
        chosen_command(None, terminal_names(), Some(1usize)) == "alacritty"@,
        chosen_command(None, terminal_names(), Some(2usize)) == "ptyxis"@,
        chosen_command(None, terminal_names(), Some(3usize)) == "kitty"@,
        chosen_command(None, terminal_names(), Some(4usize)) == "wezterm"@,
        chosen_command(None, launcher_names(), Some(1usize)) == "wofi"@,
        chosen_command(None, launcher_names(), Some(2usize)) == "bemenu-run"@,
        chosen_command(None, launcher_names(), Some(3usize)) == "tofi"@,
        terminal_names().len() == 5,
        launcher_names().len() == 4,
{
}

/// Scrolling with fingers is scrolling on a trackpad; all other is that of a
/// wheel.
pub proof fn fingers_scroll_on_trackpads(source: AxisSource)
    ensures
        scroll_trigger(source) is TrackpadScroll <==> source is Finger,
        scroll_trigger(source) is WheelScroll <==> source !is Finger,
{
}

/// A color holds red, green, blue and how solid it is, in this order.
pub proof fn colors_keep_their_order(c: [u8; 4])
    ensures
        components(c).0 == c@[0],
        components(c).1 == c@[1],
        components(c).2 == c@[2],
        components(c).3 == c@[3],
{
}

/// An action is seen as what it is.
pub proof fn actions_are_seen_as_they_are(a: Action)
    ensures
        a matches Action::Exec(s) ==> a@ == ActionView::Exec(s@),
        a matches Action::Spawn(s) ==> a@ == ActionView::Spawn(s@),
        a matches Action::NudgeWindow(d) ==> a@ == ActionView::NudgeWindow(d),
        a matches Action::PanViewport(d) ==> a@ == ActionView::PanViewport(d),
        a matches Action::CenterNearest(d) ==> a@ == ActionView::CenterNearest(d),
        a matches Action::SendToOutput(d) ==> a@ == ActionView::SendToOutput(d),
        a matches Action::GoToPosition(x, y) ==> a@ == ActionView::GoToPosition(x, y),
        a matches Action::CycleWindows { backward } ==> a@ == (ActionView::CycleWindows { backward }),
        a is CloseWindow <==> a@ is CloseWindow,
        a is CenterWindow <==> a@ is CenterWindow,
        a is HomeToggle <==> a@ is HomeToggle,
        a is ZoomIn <==> a@ is ZoomIn,
        a is ZoomOut <==> a@ is ZoomOut,
        a is ZoomReset <==> a@ is ZoomReset,
        a is ZoomToFit <==> a@ is ZoomToFit,
        a is ToggleFullscreen <==> a@ is ToggleFullscreen,
        a is FitWindow <==> a@ is FitWindow,
        a is FocusCenter <==> a@ is FocusCenter,
        a is ReloadConfig <==> a@ is ReloadConfig,
        a is Quit <==> a@ is Quit,
{
}

/// What the mouse or a gesture does is seen as what it is.
pub proof fn bound_actions_are_seen_as_they_are(
    m: MouseAction,
    e: GestureConfigEntry,
    t: ThresholdAction,
)
    ensures
        m is MoveWindow <==> m@ is MoveWindow,
        m is MoveSnappedWindows <==> m@ is MoveSnappedWindows,
        m is ResizeWindow <==> m@ is ResizeWindow,
        m is ResizeWindowSnapped <==> m@ is ResizeWindowSnapped,
        m is PanViewport <==> m@ is PanViewport,
        m is Zoom <==> m@ is Zoom,
        m is CenterNearest <==> m@ is CenterNearest,
        m matches MouseAction::Action(a) ==> m@ == MouseActionView::Action(a@),
        e matches GestureConfigEntry::Continuous(c) ==> e@ == GestureEntryView::Continuous(c),
        e matches GestureConfigEntry::Threshold(a) ==> e@ == GestureEntryView::Threshold(a@),
        t is CenterNearest <==> t@ is CenterNearest,
        t matches ThresholdAction::Fixed(a) ==> t@ == ThresholdActionView::Fixed(a@),
{
}

/// The window rule for an application is the first that is for it.
pub proof fn the_first_rule_counts(rules: Seq<WindowRule>, id: Seq<char>, n: nat, j: int)
    requires
        n <= rules.len(),
        0 <= j < n,
    ensures
        pattern_matches(rules[j].app_id@, id) ==> (first_rule(rules, id, n) matches Some(k) && 0 <= k
            <= j && pattern_matches(rules[k].app_id@, id)),
        first_rule(rules, id, n) == Some(j) ==> pattern_matches(rules[j].app_id@, id),
    decreases n,
{
    if n > 1 && j < n - 1 {
        the_first_rule_counts(rules, id, (n - 1) as nat, j);
    }
    crate::config::first_rule_is_first(rules, id, n);
    if n > 0 {
        crate::config::first_rule_is_first(rules, id, (n - 1) as nat);
    }
}

/// Where the file reads well, its outputs and window rules are all kept, in
/// their order; outputs only once for a name.
pub proof fn rules_and_outputs_are_kept_in_order(
    files: Seq<WindowRuleFile>,
    rules: Seq<WindowRule>,
    outputs: Seq<OutputRuleFile>,
    more: OutputRuleFile,
    configs: Seq<OutputConfig>,
    i: int,
    j: int,
)
    requires
        rules_read(files, rules),
        0 <= i < files.len(),
    ensures
        rules.len() == files.len(),
        rules[i].app_id@ == files[i].app_id@,
        outputs_read(outputs, configs) ==> configs.len() == kept_outputs(outputs, outputs.len()).len(),
        outputs_read(outputs, configs) && 0 <= j < configs.len() ==> configs[j].name@
            == kept_outputs(outputs, outputs.len())[j].name@,
        ({
            let before = kept_outputs(outputs, outputs.len());
            let after = kept_outputs(outputs.push(more), outputs.len() + 1);
            &&& rule_fault(more) is Some ==> after == before
            &&& rule_fault(more) is None && (forall|k: int|
                0 <= k < before.len() ==> (#[trigger] before[k]).name@ != more.name@) ==> after
                == before.push(more)
            &&& (exists|k: int| 0 <= k < before.len() && (#[trigger] before[k]).name@ == more.name@)
                ==> after == before
        }),
{
    earlier_outputs_are_kept_alike(outputs, more, outputs.len());
    assert(outputs.push(more)[outputs.len() as int] == more);
    assert(is_rule(files[i], rules[i]));
    if outputs_read(outputs, configs) && 0 <= j < configs.len() {
        assert(is_output(kept_outputs(outputs, outputs.len())[j], configs[j]));
    }
}

proof fn earlier_outputs_are_kept_alike(outputs: Seq<OutputRuleFile>, more: OutputRuleFile, n: nat)
    requires
        n <= outputs.len(),
    ensures
        kept_outputs(outputs.push(more), n) == kept_outputs(outputs, n),
    decreases n,
{
    if n > 0 {
        earlier_outputs_are_kept_alike(outputs, more, (n - 1) as nat);
    }
}

} // verus!
