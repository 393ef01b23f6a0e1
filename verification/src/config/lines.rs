//! The lines of binding sections: what is pressed, and what it does.

use crate::config::types::{
    Action, ContinuousAction, Direction, GestureBinding, GestureConfigEntry, GestureTrigger, ModKey,
    Modifiers, MouseAction, MouseBinding, MouseTrigger, ThresholdAction, BTN_LEFT, BTN_MIDDLE,
    BTN_RIGHT,
};
use crate::text::{cut_at, read_i32, read_u32, same_text};
use crate::units::pixels;
use vstd::prelude::*;

verus! {

use crate::config::types::{ActionView, GestureEntryView, MouseActionView, ThresholdActionView};
use crate::text::{cut, first_place_is_first, signed, unsigned};
use crate::units::from_pixels;

/// Modifiers with one more held, where a text names one.
pub open spec fn also_held(held: Modifiers, name: Seq<char>, mod_key: ModKey) -> Option<Modifiers> {
    if name == "mod"@ {
        Some(
            match mod_key {
                ModKey::Alt => Modifiers { alt: true, ..held },
                ModKey::Super => Modifiers { logo: true, ..held },
            },
        )
    } else if name == "ctrl"@ {
        Some(Modifiers { ctrl: true, ..held })
    } else if name == "alt"@ {
        Some(Modifiers { alt: true, ..held })
    } else if name == "shift"@ {
        Some(Modifiers { shift: true, ..held })
    } else if name == "super"@ || name == "logo"@ {
        Some(Modifiers { logo: true, ..held })
    } else {
        None
    }
}

/// The modifiers that stand before the last part of a text, each followed by
/// a plus sign, and that last part. A plus sign at the very end belongs to it.
pub open spec fn held_with(held: Modifiers, s: Seq<char>, mod_key: ModKey) -> Option<
    (Modifiers, Seq<char>),
>
    decreases s.len(),
{
    match cut(s, '+') {
        Some((name, rest)) => if rest.len() > 0 {
            proof {
                first_place_is_first(s, '+');
            }
            match also_held(held, name, mod_key) {
                Some(more) => held_with(more, rest, mod_key),
                None => None,
            }
        } else {
            Some((held, s))
        },
        None => Some((held, s)),
    }
}

/// No modifier held.
pub open spec fn none_held() -> Modifiers {
    Modifiers { ctrl: false, alt: false, shift: false, logo: false }
}

fn hold(held: Modifiers, name: &str, mod_key: ModKey) -> (r: Option<Modifiers>)
    ensures
        r == also_held(held, name@, mod_key),
{
    let mut more = held;
    if same_text(name, "mod") {
        match mod_key {
            ModKey::Alt => {
                more.alt = true;
            },
            ModKey::Super => {
                more.logo = true;
            },
        }
    } else if same_text(name, "ctrl") {
        more.ctrl = true;
    } else if same_text(name, "alt") {
        more.alt = true;
    } else if same_text(name, "shift") {
        more.shift = true;
    } else if same_text(name, "super") || same_text(name, "logo") {
        more.logo = true;
    } else {
        return None;
    }
    Some(more)
}

fn parse_held<'a>(held: Modifiers, s: &'a str, mod_key: ModKey) -> (r: Option<(Modifiers, &'a str)>)
    ensures
        match r {
            Some((m, last)) => held_with(held, s@, mod_key) == Some((m, last@)),
            None => held_with(held, s@, mod_key) is None,
        },
    decreases s@.len(),
{
    match cut_at(s, '+') {
        Some((name, rest)) => {
            if rest.unicode_len() == 0 {
                return Some((held, s));
            }
            proof {
                first_place_is_first(s@, '+');
            }
            match hold(held, name, mod_key) {
                Some(more) => parse_held(more, rest, mod_key),
                None => None,
            }
        },
        None => Some((held, s)),
    }
}

/// Reads the modifiers of a binding and leaves the name of what is pressed.
pub fn parse_modifiers<'a>(s: &'a str, mod_key: ModKey) -> (r: Option<(Modifiers, &'a str)>)
    ensures
        match r {
            Some((m, name)) => held_with(none_held(), s@, mod_key) == Some((m, name@)),
            None => held_with(none_held(), s@, mod_key) is None,
        },
{
    parse_held(
        Modifiers { ctrl: false, alt: false, shift: false, logo: false },
        s,
        mod_key,
    )
}

/// What a pointer does, by name.
pub open spec fn mouse_trigger_named(s: Seq<char>) -> Option<MouseTrigger> {
    if s == "left"@ {
        Some(MouseTrigger::Button(BTN_LEFT))
    } else if s == "right"@ {
        Some(MouseTrigger::Button(BTN_RIGHT))
    } else if s == "middle"@ {
        Some(MouseTrigger::Button(BTN_MIDDLE))
    } else if s == "trackpad-scroll"@ {
        Some(MouseTrigger::TrackpadScroll)
    } else if s == "wheel-scroll"@ {
        Some(MouseTrigger::WheelScroll)
    } else {
        None
    }
}

/// A mouse binding as a text gives it.
pub open spec fn mouse_binding_named(s: Seq<char>, mod_key: ModKey) -> Option<MouseBinding> {
    match held_with(none_held(), s, mod_key) {
        Some((modifiers, name)) => match mouse_trigger_named(name) {
            Some(trigger) => Some(MouseBinding { modifiers, trigger }),
            None => None,
        },
        None => None,
    }
}

fn parse_mouse_trigger(s: &str) -> (r: Option<MouseTrigger>)
    ensures
        r == mouse_trigger_named(s@),
{
    if same_text(s, "left") {
        Some(MouseTrigger::Button(BTN_LEFT))
    } else if same_text(s, "right") {
        Some(MouseTrigger::Button(BTN_RIGHT))
    } else if same_text(s, "middle") {
        Some(MouseTrigger::Button(BTN_MIDDLE))
    } else if same_text(s, "trackpad-scroll") {
        Some(MouseTrigger::TrackpadScroll)
    } else if same_text(s, "wheel-scroll") {
        Some(MouseTrigger::WheelScroll)
    } else {
        None
    }
}

/// Reads a mouse binding.
pub fn parse_mouse_binding(s: &str, mod_key: ModKey) -> (r: Option<MouseBinding>)
    ensures
        r == mouse_binding_named(s@, mod_key),
{
    match parse_modifiers(s, mod_key) {
        Some((modifiers, name)) => match parse_mouse_trigger(name) {
            Some(trigger) => Some(MouseBinding { modifiers, trigger }),
            None => None,
        },
        None => None,
    }
}

/// A gesture with some fingers, by name.
pub open spec fn motion_named(s: Seq<char>, fingers: u32) -> Option<GestureTrigger> {
    if s == "finger-swipe"@ {
        Some(GestureTrigger::Swipe { fingers })
    } else if s == "finger-swipe-up"@ {
        Some(GestureTrigger::SwipeUp { fingers })
    } else if s == "finger-swipe-down"@ {
        Some(GestureTrigger::SwipeDown { fingers })
    } else if s == "finger-swipe-left"@ {
        Some(GestureTrigger::SwipeLeft { fingers })
    } else if s == "finger-swipe-right"@ {
        Some(GestureTrigger::SwipeRight { fingers })
    } else if s == "finger-doubletap-swipe"@ {
        Some(GestureTrigger::DoubletapSwipe { fingers })
    } else if s == "finger-pinch"@ {
        Some(GestureTrigger::Pinch { fingers })
    } else if s == "finger-pinch-in"@ {
        Some(GestureTrigger::PinchIn { fingers })
    } else if s == "finger-pinch-out"@ {
        Some(GestureTrigger::PinchOut { fingers })
    } else if s == "finger-hold"@ {
        Some(GestureTrigger::Hold { fingers })
    } else {
        None
    }
}

/// A gesture, as in `3-finger-swipe-up`.
pub open spec fn gesture_trigger_named(s: Seq<char>) -> Option<GestureTrigger> {
    match cut(s, '-') {
        Some((count, motion)) => match unsigned(count) {
            Some(fingers) => motion_named(motion, fingers as u32),
            None => None,
        },
        None => None,
    }
}

/// A gesture binding as a text gives it.
pub open spec fn gesture_binding_named(s: Seq<char>, mod_key: ModKey) -> Option<GestureBinding> {
    match held_with(none_held(), s, mod_key) {
        Some((modifiers, name)) => match gesture_trigger_named(name) {
            Some(trigger) => Some(GestureBinding { modifiers, trigger }),
            None => None,
        },
        None => None,
    }
}

fn parse_motion(s: &str, fingers: u32) -> (r: Option<GestureTrigger>)
    ensures
        r == motion_named(s@, fingers),
{
    if same_text(s, "finger-swipe") {
        Some(GestureTrigger::Swipe { fingers })
    } else if same_text(s, "finger-swipe-up") {
        Some(GestureTrigger::SwipeUp { fingers })
    } else if same_text(s, "finger-swipe-down") {
        Some(GestureTrigger::SwipeDown { fingers })
    } else if same_text(s, "finger-swipe-left") {
        Some(GestureTrigger::SwipeLeft { fingers })
    } else if same_text(s, "finger-swipe-right") {
        Some(GestureTrigger::SwipeRight { fingers })
    } else if same_text(s, "finger-doubletap-swipe") {
        Some(GestureTrigger::DoubletapSwipe { fingers })
    } else if same_text(s, "finger-pinch") {
        Some(GestureTrigger::Pinch { fingers })
    } else if same_text(s, "finger-pinch-in") {
        Some(GestureTrigger::PinchIn { fingers })
    } else if same_text(s, "finger-pinch-out") {
        Some(GestureTrigger::PinchOut { fingers })
    } else if same_text(s, "finger-hold") {
        Some(GestureTrigger::Hold { fingers })
    } else {
        None
    }
}

/// Reads a gesture.
pub fn parse_gesture_trigger(s: &str) -> (r: Option<GestureTrigger>)
    ensures
        r == gesture_trigger_named(s@),
{
    match cut_at(s, '-') {
        Some((count, motion)) => match read_u32(count) {
            Some(fingers) => parse_motion(motion, fingers),
            None => None,
        },
        None => None,
    }
}

/// Reads a gesture binding.
pub fn parse_gesture_binding(s: &str, mod_key: ModKey) -> (r: Option<GestureBinding>)
    ensures
        r == gesture_binding_named(s@, mod_key),
{
    match parse_modifiers(s, mod_key) {
        Some((modifiers, name)) => match parse_gesture_trigger(name) {
            Some(trigger) => Some(GestureBinding { modifiers, trigger }),
            None => None,
        },
        None => None,
    }
}

/// A direction, by name.
pub open spec fn direction_named(s: Seq<char>) -> Option<Direction> {
    if s == "up"@ {
        Some(Direction::Up)
    } else if s == "down"@ {
        Some(Direction::Down)
    } else if s == "left"@ {
        Some(Direction::Left)
    } else if s == "right"@ {
        Some(Direction::Right)
    } else if s == "up-left"@ {
        Some(Direction::UpLeft)
    } else if s == "up-right"@ {
        Some(Direction::UpRight)
    } else if s == "down-left"@ {
        Some(Direction::DownLeft)
    } else if s == "down-right"@ {
        Some(Direction::DownRight)
    } else {
        None
    }
}

/// Reads a direction.
pub fn parse_direction(s: &str) -> (r: Option<Direction>)
    ensures
        r == direction_named(s@),
{
    if same_text(s, "up") {
        Some(Direction::Up)
    } else if same_text(s, "down") {
        Some(Direction::Down)
    } else if same_text(s, "left") {
        Some(Direction::Left)
    } else if same_text(s, "right") {
        Some(Direction::Right)
    } else if same_text(s, "up-left") {
        Some(Direction::UpLeft)
    } else if same_text(s, "up-right") {
        Some(Direction::UpRight)
    } else if same_text(s, "down-left") {
        Some(Direction::DownLeft)
    } else if same_text(s, "down-right") {
        Some(Direction::DownRight)
    } else {
        None
    }
}

/// An action that is one word.
pub open spec fn plain_action_named(s: Seq<char>) -> Option<ActionView> {
    if s == "close-window"@ {
        Some(ActionView::CloseWindow)
    } else if s == "center-window"@ {
        Some(ActionView::CenterWindow)
    } else if s == "cycle-windows"@ {
        Some(ActionView::CycleWindows { backward: false })
    } else if s == "home-toggle"@ {
        Some(ActionView::HomeToggle)
    } else if s == "zoom-in"@ {
        Some(ActionView::ZoomIn)
    } else if s == "zoom-out"@ {
        Some(ActionView::ZoomOut)
    } else if s == "zoom-reset"@ {
        Some(ActionView::ZoomReset)
    } else if s == "zoom-to-fit"@ {
        Some(ActionView::ZoomToFit)
    } else if s == "toggle-fullscreen"@ {
        Some(ActionView::ToggleFullscreen)
    } else if s == "fit-window"@ {
        Some(ActionView::FitWindow)
    } else if s == "focus-center"@ {
        Some(ActionView::FocusCenter)
    } else if s == "reload-config"@ {
        Some(ActionView::ReloadConfig)
    } else if s == "quit"@ {
        Some(ActionView::Quit)
    } else {
        None
    }
}

/// A position in whole pixels: two numbers with a space between them.
pub open spec fn position_of(s: Seq<char>) -> Option<(int, int)> {
    match cut(s, ' ') {
        Some((x, y)) => match (signed(x), signed(y)) {
            (Some(x), Some(y)) => Some((from_pixels(x), from_pixels(y))),
            _ => None,
        },
        None => None,
    }
}

/// An action that a word and its argument give.
pub open spec fn action_with(name: Seq<char>, arg: Seq<char>) -> Option<ActionView> {
    if name == "exec"@ {
        if arg.len() > 0 {
            Some(ActionView::Exec(arg))
        } else {
            None
        }
    } else if name == "spawn"@ {
        if arg.len() > 0 {
            Some(ActionView::Spawn(arg))
        } else {
            None
        }
    } else if name == "cycle-windows"@ {
        if arg == "backward"@ {
            Some(ActionView::CycleWindows { backward: true })
        } else if arg == "forward"@ {
            Some(ActionView::CycleWindows { backward: false })
        } else {
            None
        }
    } else if name == "go-to"@ {
        match position_of(arg) {
            Some((x, y)) => Some(ActionView::GoToPosition(x as i64, y as i64)),
            None => None,
        }
    } else {
        match direction_named(arg) {
            Some(dir) => if name == "nudge-window"@ {
                Some(ActionView::NudgeWindow(dir))
            } else if name == "pan-viewport"@ {
                Some(ActionView::PanViewport(dir))
            } else if name == "center-nearest"@ {
                Some(ActionView::CenterNearest(dir))
            } else if name == "send-to-output"@ {
                Some(ActionView::SendToOutput(dir))
            } else {
                None
            },
            None => None,
        }
    }
}

/// The action that a text names.
pub open spec fn action_named(s: Seq<char>) -> Option<ActionView> {
    match cut(s, ' ') {
        Some((name, arg)) => action_with(name, arg),
        None => plain_action_named(s),
    }
}

/// What an action that was read means.
pub open spec fn action_read(r: Option<Action>) -> Option<ActionView> {
    match r {
        Some(a) => Some(a@),
        None => None,
    }
}

fn parse_plain_action(s: &str) -> (r: Option<Action>)
    ensures
        action_read(r) == plain_action_named(s@),
{
    if same_text(s, "close-window") {
        Some(Action::CloseWindow)
    } else if same_text(s, "center-window") {
        Some(Action::CenterWindow)
    } else if same_text(s, "cycle-windows") {
        Some(Action::CycleWindows { backward: false })
    } else if same_text(s, "home-toggle") {
        Some(Action::HomeToggle)
    } else if same_text(s, "zoom-in") {
        Some(Action::ZoomIn)
    } else if same_text(s, "zoom-out") {
        Some(Action::ZoomOut)
    } else if same_text(s, "zoom-reset") {
        Some(Action::ZoomReset)
    } else if same_text(s, "zoom-to-fit") {
        Some(Action::ZoomToFit)
    } else if same_text(s, "toggle-fullscreen") {
        Some(Action::ToggleFullscreen)
    } else if same_text(s, "fit-window") {
        Some(Action::FitWindow)
    } else if same_text(s, "focus-center") {
        Some(Action::FocusCenter)
    } else if same_text(s, "reload-config") {
        Some(Action::ReloadConfig)
    } else if same_text(s, "quit") {
        Some(Action::Quit)
    } else {
        None
    }
}

fn parse_position(s: &str) -> (r: Option<(i64, i64)>)
    ensures
        match (r, position_of(s@)) {
            (Some(p), Some(q)) => p.0 == q.0 && p.1 == q.1,
            (None, None) => true,
            _ => false,
        },
{
    match cut_at(s, ' ') {
        Some((x, y)) => match (read_i32(x), read_i32(y)) {
            (Some(x), Some(y)) => Some((pixels(x), pixels(y))),
            _ => None,
        },
        None => None,
    }
}

fn parse_action_with(name: &str, arg: &str) -> (r: Option<Action>)
    ensures
        action_read(r) == action_with(name@, arg@),
{
    if same_text(name, "exec") {
        if arg.unicode_len() > 0 {
            Some(Action::Exec(arg.to_string()))
        } else {
            None
        }
    } else if same_text(name, "spawn") {
        if arg.unicode_len() > 0 {
            Some(Action::Spawn(arg.to_string()))
        } else {
            None
        }
    } else if same_text(name, "cycle-windows") {
        if same_text(arg, "backward") {
            Some(Action::CycleWindows { backward: true })
        } else if same_text(arg, "forward") {
            Some(Action::CycleWindows { backward: false })
        } else {
            None
        }
    } else if same_text(name, "go-to") {
        match parse_position(arg) {
            Some((x, y)) => Some(Action::GoToPosition(x, y)),
            None => None,
        }
    } else {
        match parse_direction(arg) {
            Some(dir) => if same_text(name, "nudge-window") {
                Some(Action::NudgeWindow(dir))
            } else if same_text(name, "pan-viewport") {
                Some(Action::PanViewport(dir))
            } else if same_text(name, "center-nearest") {
                Some(Action::CenterNearest(dir))
            } else if same_text(name, "send-to-output") {
                Some(Action::SendToOutput(dir))
            } else {
                None
            },
            None => None,
        }
    }
}

/// Reads an action.
pub fn parse_action(s: &str) -> (r: Option<Action>)
    ensures
        action_read(r) == action_named(s@),
{
    match cut_at(s, ' ') {
        Some((name, arg)) => parse_action_with(name, arg),
        None => parse_plain_action(s),
    }
}

/// What a mouse binding does, by name.
pub open spec fn mouse_action_named(s: Seq<char>) -> Option<MouseActionView> {
    if s == "move-window"@ {
        Some(MouseActionView::MoveWindow)
    } else if s == "move-snapped-windows"@ {
        Some(MouseActionView::MoveSnappedWindows)
    } else if s == "resize-window"@ {
        Some(MouseActionView::ResizeWindow)
    } else if s == "resize-window-snapped"@ {
        Some(MouseActionView::ResizeWindowSnapped)
    } else if s == "pan-viewport"@ {
        Some(MouseActionView::PanViewport)
    } else if s == "zoom"@ {
        Some(MouseActionView::Zoom)
    } else if s == "center-nearest"@ {
        Some(MouseActionView::CenterNearest)
    } else {
        match action_named(s) {
            Some(action) => Some(MouseActionView::Action(action)),
            None => None,
        }
    }
}

/// Reads what a mouse binding does.
pub fn parse_mouse_action(s: &str) -> (r: Option<MouseAction>)
    ensures
        match r {
            Some(a) => mouse_action_named(s@) == Some(a@),
            None => mouse_action_named(s@) is None,
        },
{
    if same_text(s, "move-window") {
        Some(MouseAction::MoveWindow)
    } else if same_text(s, "move-snapped-windows") {
        Some(MouseAction::MoveSnappedWindows)
    } else if same_text(s, "resize-window") {
        Some(MouseAction::ResizeWindow)
    } else if same_text(s, "resize-window-snapped") {
        Some(MouseAction::ResizeWindowSnapped)
    } else if same_text(s, "pan-viewport") {
        Some(MouseAction::PanViewport)
    } else if same_text(s, "zoom") {
        Some(MouseAction::Zoom)
    } else if same_text(s, "center-nearest") {
        Some(MouseAction::CenterNearest)
    } else {
        match parse_action(s) {
            Some(action) => Some(MouseAction::Action(action)),
            None => None,
        }
    }
}

/// What goes on for as long as a gesture does, by name. Only a swipe without a
/// direction and a pinch without one can do that.
pub open spec fn continuous_named(trigger: GestureTrigger, s: Seq<char>) -> Option<
    ContinuousAction,
> {
    let swipe = trigger is Swipe || trigger is DoubletapSwipe;
    if swipe && s == "pan-viewport"@ {
        Some(ContinuousAction::PanViewport)
    } else if swipe && s == "move-window"@ {
        Some(ContinuousAction::MoveWindow)
    } else if swipe && s == "resize-window"@ {
        Some(ContinuousAction::ResizeWindow)
    } else if swipe && s == "resize-window-snapped"@ {
        Some(ContinuousAction::ResizeWindowSnapped)
    } else if trigger is Pinch && s == "zoom"@ {
        Some(ContinuousAction::Zoom)
    } else {
        None
    }
}

/// What a gesture does, by name.
pub open spec fn gesture_entry_named(trigger: GestureTrigger, s: Seq<char>) -> Option<
    GestureEntryView,
> {
    match continuous_named(trigger, s) {
        Some(action) => Some(GestureEntryView::Continuous(action)),
        None => if s == "center-nearest"@ {
            Some(GestureEntryView::Threshold(ThresholdActionView::CenterNearest))
        } else {
            match action_named(s) {
                Some(action) => Some(
                    GestureEntryView::Threshold(ThresholdActionView::Fixed(action)),
                ),
                None => None,
            }
        },
    }
}

fn parse_continuous(trigger: &GestureTrigger, s: &str) -> (r: Option<ContinuousAction>)
    ensures
        r == continuous_named(*trigger, s@),
{
    match trigger {
        GestureTrigger::Swipe { .. } | GestureTrigger::DoubletapSwipe { .. } => {
            if same_text(s, "pan-viewport") {
                Some(ContinuousAction::PanViewport)
            } else if same_text(s, "move-window") {
                Some(ContinuousAction::MoveWindow)
            } else if same_text(s, "resize-window") {
                Some(ContinuousAction::ResizeWindow)
            } else if same_text(s, "resize-window-snapped") {
                Some(ContinuousAction::ResizeWindowSnapped)
            } else {
                None
            }
        },
        GestureTrigger::Pinch { .. } => {
            if same_text(s, "zoom") {
                Some(ContinuousAction::Zoom)
            } else {
                None
            }
        },
        _ => None,
    }
}

/// Reads what a gesture does.
pub fn parse_gesture_config_entry(trigger: &GestureTrigger, s: &str) -> (r: Option<
    GestureConfigEntry,
>)
    ensures
        match r {
            Some(e) => gesture_entry_named(*trigger, s@) == Some(e@),
            None => gesture_entry_named(*trigger, s@) is None,
        },
{
    match parse_continuous(trigger, s) {
        Some(action) => Some(GestureConfigEntry::Continuous(action)),
        None => {
            if same_text(s, "center-nearest") {
                return Some(GestureConfigEntry::Threshold(ThresholdAction::CenterNearest));
            }
            match parse_action(s) {
                Some(action) => Some(
                    GestureConfigEntry::Threshold(ThresholdAction::Fixed(action)),
                ),
                None => None,
            }
        },
    }
}

/// A gesture with a direction never does something for as long as it lasts.
pub proof fn directed_gestures_fire_once(trigger: GestureTrigger, s: Seq<char>)
    requires
        !(trigger is Swipe),
        !(trigger is DoubletapSwipe),
        !(trigger is Pinch),
    ensures
        gesture_entry_named(trigger, s) matches Some(e) ==> e is Threshold,
{
}

} // verus!
