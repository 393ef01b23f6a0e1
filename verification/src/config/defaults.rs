//! The bindings that hold where the configuration says nothing else.

use crate::config::bindings::{BindingKey, ContextBindings};
use crate::config::types::{
    Action, BindingContext, ContinuousAction, CycleModifier, Direction, GestureBinding,
    GestureConfigEntry, GestureTrigger, KeyCombo, ModKey, Modifiers, MouseAction, MouseBinding,
    MouseTrigger, ThresholdAction, BTN_LEFT, BTN_RIGHT, KEY_TAB,
};
use std::collections::HashMap;
use vstd::prelude::*;

verus! {

use crate::config::bindings::viewed;
use crate::config::types::{ActionView, GestureEntryView, MouseActionView, ThresholdActionView};

broadcast use vstd::std_specs::hash::group_hash_axioms;

pub const KEY_RETURN: u32 = 0xff0d;

pub const KEY_D: u32 = 0x64;

pub const KEY_Q: u32 = 0x71;

pub const KEY_UP: u32 = 0xff52;

pub const KEY_DOWN: u32 = 0xff54;

pub const KEY_LEFT: u32 = 0xff51;

pub const KEY_RIGHT: u32 = 0xff53;

pub const KEY_A: u32 = 0x61;

pub const KEY_C: u32 = 0x63;

pub const KEY_EQUAL: u32 = 0x3d;

pub const KEY_MINUS: u32 = 0x2d;

pub const KEY_0: u32 = 0x30;

pub const KEY_W: u32 = 0x77;

pub const KEY_F: u32 = 0x66;

pub const KEY_L: u32 = 0x6c;

pub const KEY_PRINT: u32 = 0xff61;

pub const KEY_RAISE_VOLUME: u32 = 0x1008_ff13;

pub const KEY_LOWER_VOLUME: u32 = 0x1008_ff11;

pub const KEY_MUTE: u32 = 0x1008_ff12;

pub const KEY_BRIGHTNESS_UP: u32 = 0x1008_ff02;

pub const KEY_BRIGHTNESS_DOWN: u32 = 0x1008_ff03;

/// The modifiers with Shift added.
pub open spec fn shifted(m: Modifiers) -> Modifiers {
    Modifiers { ctrl: m.ctrl, alt: m.alt, shift: true, logo: m.logo }
}

/// The modifiers with Ctrl added.
pub open spec fn controlled(m: Modifiers) -> Modifiers {
    Modifiers { ctrl: true, alt: m.alt, shift: m.shift, logo: m.logo }
}

/// A key symbol with modifiers.
pub open spec fn combo(modifiers: Modifiers, sym: u32) -> KeyCombo {
    KeyCombo { modifiers, sym }
}

/// The key bindings that hold by default, given the commands of the terminal
/// and of the launcher.
pub open spec fn default_keys(
    mod_key: ModKey,
    cycle_mod: CycleModifier,
    terminal: Seq<char>,
    launcher: Seq<char>,
) -> Seq<(KeyCombo, ActionView)> {
    let m = mod_key.alone();
    let m_shift = shifted(m);
    let m_ctrl = controlled(m);
    let m_ctrl_shift = shifted(m_ctrl);
    let cyc = cycle_mod.alone();
    let cyc_shift = shifted(cyc);
    let bare = Modifiers::none();
    seq![
        (combo(m, KEY_RETURN), ActionView::Exec(terminal)),
        (combo(m, KEY_D), ActionView::Exec(launcher)),
        (combo(m, KEY_Q), ActionView::CloseWindow),
        (combo(m_shift, KEY_UP), ActionView::NudgeWindow(Direction::Up)),
        (combo(m_shift, KEY_DOWN), ActionView::NudgeWindow(Direction::Down)),
        (combo(m_shift, KEY_LEFT), ActionView::NudgeWindow(Direction::Left)),
        (combo(m_shift, KEY_RIGHT), ActionView::NudgeWindow(Direction::Right)),
        (combo(m_ctrl, KEY_UP), ActionView::PanViewport(Direction::Up)),
        (combo(m_ctrl, KEY_DOWN), ActionView::PanViewport(Direction::Down)),
        (combo(m_ctrl, KEY_LEFT), ActionView::PanViewport(Direction::Left)),
        (combo(m_ctrl, KEY_RIGHT), ActionView::PanViewport(Direction::Right)),
        (combo(m, KEY_A), ActionView::HomeToggle),
        (combo(m, KEY_C), ActionView::CenterWindow),
        (combo(m, KEY_UP), ActionView::CenterNearest(Direction::Up)),
        (combo(m, KEY_DOWN), ActionView::CenterNearest(Direction::Down)),
        (combo(m, KEY_LEFT), ActionView::CenterNearest(Direction::Left)),
        (combo(m, KEY_RIGHT), ActionView::CenterNearest(Direction::Right)),
        (combo(cyc, KEY_TAB), ActionView::CycleWindows { backward: false }),
        (combo(cyc_shift, KEY_TAB), ActionView::CycleWindows { backward: true }),
        (combo(m, KEY_EQUAL), ActionView::ZoomIn),
        (combo(m, KEY_MINUS), ActionView::ZoomOut),
        (combo(m, KEY_0), ActionView::ZoomReset),
        (combo(m, KEY_W), ActionView::ZoomToFit),
        (combo(m, KEY_F), ActionView::ToggleFullscreen),
        (combo(m_ctrl_shift, KEY_Q), ActionView::Quit),
        (combo(bare, KEY_RAISE_VOLUME), ActionView::Exec("wpctl set-volume @DEFAULT_AUDIO_SINK@ 5%+"@)),
        (combo(bare, KEY_LOWER_VOLUME), ActionView::Exec("wpctl set-volume @DEFAULT_AUDIO_SINK@ 5%-"@)),
        (combo(bare, KEY_MUTE), ActionView::Exec("wpctl set-mute @DEFAULT_AUDIO_SINK@ toggle"@)),
        (combo(bare, KEY_BRIGHTNESS_UP), ActionView::Exec("brightnessctl set +5%"@)),
        (combo(bare, KEY_BRIGHTNESS_DOWN), ActionView::Exec("brightnessctl set 5%-"@)),
        (combo(bare, KEY_PRINT), ActionView::Exec("grim - | wl-copy"@)),
        (combo(m, KEY_L), ActionView::Exec("swaylock"@)),
    ]
}

/// A list with its actions as mathematical values.
pub open spec fn keys_viewed(list: Seq<(KeyCombo, Action)>) -> Seq<(KeyCombo, ActionView)> {
    list.map_values(|e: (KeyCombo, Action)| (e.0, e.1@))
}

/// The bindings that the first `n` lines of a list make, by the number of the
/// combination; a later line takes the place of an earlier one.
pub open spec fn keys_bound(list: Seq<(KeyCombo, ActionView)>, n: nat) -> Map<u64, ActionView>
    decreases n,
{
    if n == 0 {
        Map::empty()
    } else {
        keys_bound(list, (n - 1) as nat).insert(list[n - 1].0.normal().number(), list[n - 1].1)
    }
}

fn bind_keys(list: Vec<(KeyCombo, Action)>) -> (r: HashMap<u64, Action>)
    ensures
        viewed(r@) == keys_bound(keys_viewed(list@), list@.len()),
{
    let ghost all = list@;
    let mut rest = list;
    let mut table: HashMap<u64, Action> = HashMap::new();
    let ghost mut done: int = 0;
    assert(viewed(table@) =~= Map::empty());
    while rest.len() > 0
        invariant
            0 <= done,
            done + rest@.len() == all.len(),
            rest@ == all.skip(done),
            viewed(table@) == keys_bound(keys_viewed(all), done as nat),
        decreases rest@.len(),
    {
        assert(rest@[0] == all[done]);
        let (key, action) = rest.remove(0);
        let code: u64 = key.to_canonical().code();
        let ghost before = table@;
        table.insert(code, action);
        proof {
            assert(viewed(table@) =~= viewed(before).insert(code, action@));
            assert(rest@ =~= all.skip(done + 1));
            assert(keys_viewed(all)[done] == (key, action@));
            done = done + 1;
        }
    }
    table
}

/// The default key bindings, by the number of the combination.
pub fn default_bindings(
    mod_key: ModKey,
    cycle_mod: CycleModifier,
    terminal: String,
    launcher: String,
) -> (r: HashMap<u64, Action>)
    ensures
        viewed(r@) == keys_bound(
            default_keys(mod_key, cycle_mod, terminal@, launcher@),
            default_keys(mod_key, cycle_mod, terminal@, launcher@).len(),
        ),
{
    let ghost terminal_text = terminal@;
    let ghost launcher_text = launcher@;
    let m = mod_key.base();
    let m_shift = Modifiers { ctrl: m.ctrl, alt: m.alt, shift: true, logo: m.logo };
    let m_ctrl = Modifiers { ctrl: true, alt: m.alt, shift: m.shift, logo: m.logo };
    let m_ctrl_shift = Modifiers { ctrl: true, alt: m.alt, shift: true, logo: m.logo };
    let cyc = cycle_mod.base();
    let cyc_shift = Modifiers { ctrl: cyc.ctrl, alt: cyc.alt, shift: true, logo: cyc.logo };
    let bare = Modifiers::default();
    let mut list: Vec<(KeyCombo, Action)> = Vec::new();
    list.push((KeyCombo { modifiers: m, sym: KEY_RETURN }, Action::Exec(terminal)));
    list.push((KeyCombo { modifiers: m, sym: KEY_D }, Action::Exec(launcher)));
    list.push((KeyCombo { modifiers: m, sym: KEY_Q }, Action::CloseWindow));
    list.push((KeyCombo { modifiers: m_shift, sym: KEY_UP }, Action::NudgeWindow(Direction::Up)));
    list.push((KeyCombo { modifiers: m_shift, sym: KEY_DOWN }, Action::NudgeWindow(Direction::Down)));
    list.push((KeyCombo { modifiers: m_shift, sym: KEY_LEFT }, Action::NudgeWindow(Direction::Left)));
    list.push((KeyCombo { modifiers: m_shift, sym: KEY_RIGHT }, Action::NudgeWindow(Direction::Right)));
    list.push((KeyCombo { modifiers: m_ctrl, sym: KEY_UP }, Action::PanViewport(Direction::Up)));
    list.push((KeyCombo { modifiers: m_ctrl, sym: KEY_DOWN }, Action::PanViewport(Direction::Down)));
    list.push((KeyCombo { modifiers: m_ctrl, sym: KEY_LEFT }, Action::PanViewport(Direction::Left)));
    list.push((KeyCombo { modifiers: m_ctrl, sym: KEY_RIGHT }, Action::PanViewport(Direction::Right)));
    list.push((KeyCombo { modifiers: m, sym: KEY_A }, Action::HomeToggle));
    list.push((KeyCombo { modifiers: m, sym: KEY_C }, Action::CenterWindow));
    list.push((KeyCombo { modifiers: m, sym: KEY_UP }, Action::CenterNearest(Direction::Up)));
    list.push((KeyCombo { modifiers: m, sym: KEY_DOWN }, Action::CenterNearest(Direction::Down)));
    list.push((KeyCombo { modifiers: m, sym: KEY_LEFT }, Action::CenterNearest(Direction::Left)));
    list.push((KeyCombo { modifiers: m, sym: KEY_RIGHT }, Action::CenterNearest(Direction::Right)));
    list.push((KeyCombo { modifiers: cyc, sym: KEY_TAB }, Action::CycleWindows { backward: false }));
    list.push((KeyCombo { modifiers: cyc_shift, sym: KEY_TAB }, Action::CycleWindows { backward: true }));
    list.push((KeyCombo { modifiers: m, sym: KEY_EQUAL }, Action::ZoomIn));
    list.push((KeyCombo { modifiers: m, sym: KEY_MINUS }, Action::ZoomOut));
    list.push((KeyCombo { modifiers: m, sym: KEY_0 }, Action::ZoomReset));
    list.push((KeyCombo { modifiers: m, sym: KEY_W }, Action::ZoomToFit));
    list.push((KeyCombo { modifiers: m, sym: KEY_F }, Action::ToggleFullscreen));
    list.push((KeyCombo { modifiers: m_ctrl_shift, sym: KEY_Q }, Action::Quit));
    list.push((KeyCombo { modifiers: bare, sym: KEY_RAISE_VOLUME }, Action::Exec(String::from_str("wpctl set-volume @DEFAULT_AUDIO_SINK@ 5%+"))));
    list.push((KeyCombo { modifiers: bare, sym: KEY_LOWER_VOLUME }, Action::Exec(String::from_str("wpctl set-volume @DEFAULT_AUDIO_SINK@ 5%-"))));
    list.push((KeyCombo { modifiers: bare, sym: KEY_MUTE }, Action::Exec(String::from_str("wpctl set-mute @DEFAULT_AUDIO_SINK@ toggle"))));
    list.push((KeyCombo { modifiers: bare, sym: KEY_BRIGHTNESS_UP }, Action::Exec(String::from_str("brightnessctl set +5%"))));
    list.push((KeyCombo { modifiers: bare, sym: KEY_BRIGHTNESS_DOWN }, Action::Exec(String::from_str("brightnessctl set 5%-"))));
    list.push((KeyCombo { modifiers: bare, sym: KEY_PRINT }, Action::Exec(String::from_str("grim - | wl-copy"))));
    list.push((KeyCombo { modifiers: m, sym: KEY_L }, Action::Exec(String::from_str("swaylock"))));
    proof {
        let table = default_keys(mod_key, cycle_mod, terminal_text, launcher_text);
        assert(keys_viewed(list@) =~= table);
    }
    bind_keys(list)
}

/// A list with its actions as mathematical values.
pub open spec fn contexts_viewed<K, V: View>(list: Seq<(BindingContext, K, V)>) -> Seq<
    (BindingContext, K, V::V),
> {
    list.map_values(|e: (BindingContext, K, V)| (e.0, e.1, e.2@))
}

/// The bindings that the first `n` lines of a list make in one context.
pub open spec fn context_bound<K: BindingKey, W>(
    list: Seq<(BindingContext, K, W)>,
    context: BindingContext,
    n: nat,
) -> Map<u64, W>
    decreases n,
{
    if n == 0 {
        Map::empty()
    } else {
        let before = context_bound(list, context, (n - 1) as nat);
        if list[n - 1].0 == context {
            before.insert(list[n - 1].1.number(), list[n - 1].2)
        } else {
            before
        }
    }
}

fn bind_contexts<K: BindingKey, V: View>(list: Vec<(BindingContext, K, V)>) -> (r: ContextBindings<K, V>)
    ensures
        forall|c: BindingContext| viewed(#[trigger] r.table(c)) == context_bound(
            contexts_viewed(list@),
            c,
            list@.len(),
        ),
{
    let ghost all = list@;
    let mut rest = list;
    let mut bindings: ContextBindings<K, V> = ContextBindings::empty();
    let ghost mut done: int = 0;
    assert forall|c: BindingContext| viewed(#[trigger] bindings.table(c)) == context_bound(
        contexts_viewed(all),
        c,
        0,
    ) by {
        assert(viewed(bindings.table(c)) =~= Map::empty());
    }
    while rest.len() > 0
        invariant
            0 <= done,
            done + rest@.len() == all.len(),
            rest@ == all.skip(done),
            forall|c: BindingContext| viewed(#[trigger] bindings.table(c)) == context_bound(
                contexts_viewed(all),
                c,
                done as nat,
            ),
        decreases rest@.len(),
    {
        assert(rest@[0] == all[done]);
        let (context, key, value) = rest.remove(0);
        let ghost before = bindings;
        bindings.insert(context, key, value);
        proof {
            assert(contexts_viewed(all)[done] == (context, key, value@));
            assert forall|c: BindingContext| viewed(#[trigger] bindings.table(c)) == context_bound(
                contexts_viewed(all),
                c,
                (done + 1) as nat,
            ) by {
                assert(viewed(before.table(c)) == context_bound(
                    contexts_viewed(all),
                    c,
                    done as nat,
                ));
                if c == context {
                    assert(viewed(bindings.table(c)) =~= viewed(before.table(c)).insert(
                        key.number(),
                        value@,
                    ));
                } else {
                    assert(bindings.table(c) == before.table(c));
                }
            }
            assert(rest@ =~= all.skip(done + 1));
            done = done + 1;
        }
    }
    bindings
}

/// A mouse trigger with modifiers.
pub open spec fn mouse(modifiers: Modifiers, trigger: MouseTrigger) -> MouseBinding {
    MouseBinding { modifiers, trigger }
}

/// The mouse bindings that hold by default: Alt drags and resizes windows, the
/// modifier key pans, navigates and zooms, and the canvas scrolls and zooms
/// without any key.
pub open spec fn default_mouse(mod_key: ModKey) -> Seq<(BindingContext, MouseBinding, MouseActionView)> {
    let m = mod_key.alone();
    let alt = ModKey::Alt.alone();
    let bare = Modifiers::none();
    seq![
        (
            BindingContext::Anywhere,
            mouse(alt, MouseTrigger::Button(BTN_LEFT)),
            MouseActionView::MoveWindow,
        ),
        (
            BindingContext::Anywhere,
            mouse(alt, MouseTrigger::Button(BTN_RIGHT)),
            MouseActionView::ResizeWindow,
        ),
        (
            BindingContext::Anywhere,
            mouse(m, MouseTrigger::Button(BTN_LEFT)),
            MouseActionView::PanViewport,
        ),
        (
            BindingContext::Anywhere,
            mouse(controlled(m), MouseTrigger::Button(BTN_LEFT)),
            MouseActionView::CenterNearest,
        ),
        (
            BindingContext::Anywhere,
            mouse(m, MouseTrigger::TrackpadScroll),
            MouseActionView::Zoom,
        ),
        (BindingContext::Anywhere, mouse(m, MouseTrigger::WheelScroll), MouseActionView::Zoom),
        (
            BindingContext::OnCanvas,
            mouse(bare, MouseTrigger::TrackpadScroll),
            MouseActionView::PanViewport,
        ),
        (BindingContext::OnCanvas, mouse(bare, MouseTrigger::WheelScroll), MouseActionView::Zoom),
    ]
}

/// The default mouse bindings.
pub fn default_mouse_bindings(mod_key: ModKey) -> (r: ContextBindings<MouseBinding, MouseAction>)
    ensures
        forall|c: BindingContext| viewed(#[trigger] r.table(c)) == context_bound(
            default_mouse(mod_key),
            c,
            default_mouse(mod_key).len(),
        ),
{
    let m = mod_key.base();
    let alt = ModKey::Alt.base();
    let m_ctrl = Modifiers { ctrl: true, alt: m.alt, shift: m.shift, logo: m.logo };
    let bare = Modifiers::default();
    let any = BindingContext::Anywhere;
    let canvas = BindingContext::OnCanvas;
    let mut list: Vec<(BindingContext, MouseBinding, MouseAction)> = Vec::new();
    let left = MouseTrigger::Button(BTN_LEFT);
    let right = MouseTrigger::Button(BTN_RIGHT);
    let pad = MouseTrigger::TrackpadScroll;
    let wheel = MouseTrigger::WheelScroll;
    list.push((any, MouseBinding { modifiers: alt, trigger: left }, MouseAction::MoveWindow));
    list.push((any, MouseBinding { modifiers: alt, trigger: right }, MouseAction::ResizeWindow));
    list.push((any, MouseBinding { modifiers: m, trigger: left }, MouseAction::PanViewport));
    list.push((any, MouseBinding { modifiers: m_ctrl, trigger: left }, MouseAction::CenterNearest));
    list.push((any, MouseBinding { modifiers: m, trigger: pad }, MouseAction::Zoom));
    list.push((any, MouseBinding { modifiers: m, trigger: wheel }, MouseAction::Zoom));
    list.push((canvas, MouseBinding { modifiers: bare, trigger: pad }, MouseAction::PanViewport));
    list.push((canvas, MouseBinding { modifiers: bare, trigger: wheel }, MouseAction::Zoom));
    assert(contexts_viewed(list@) =~= default_mouse(mod_key));
    bind_contexts(list)
}

/// A gesture with modifiers.
pub open spec fn gesture(modifiers: Modifiers, trigger: GestureTrigger) -> GestureBinding {
    GestureBinding { modifiers, trigger }
}

/// A one-time action of a gesture.
pub open spec fn once(action: ActionView) -> GestureEntryView {
    GestureEntryView::Threshold(ThresholdActionView::Fixed(action))
}

/// The gestures that hold by default. Navigation takes four fingers, or three
/// with the modifier key held.
pub open spec fn default_gestures(mod_key: ModKey) -> Seq<
    (BindingContext, GestureBinding, GestureEntryView),
> {
    let m = mod_key.alone();
    let alt = ModKey::Alt.alone();
    let bare = Modifiers::none();
    let nearest = GestureEntryView::Threshold(ThresholdActionView::CenterNearest);
    let zoom = GestureEntryView::Continuous(ContinuousAction::Zoom);
    let any = BindingContext::Anywhere;
    seq![
        (BindingContext::OnCanvas, gesture(bare, GestureTrigger::Pinch { fingers: 2 }), zoom),
        (
            any,
            gesture(bare, GestureTrigger::Swipe { fingers: 3 }),
            GestureEntryView::Continuous(ContinuousAction::PanViewport),
        ),
        (
            BindingContext::OnWindow,
            gesture(bare, GestureTrigger::DoubletapSwipe { fingers: 3 }),
            GestureEntryView::Continuous(ContinuousAction::MoveWindow),
        ),
        (
            BindingContext::OnWindow,
            gesture(alt, GestureTrigger::Swipe { fingers: 3 }),
            GestureEntryView::Continuous(ContinuousAction::ResizeWindow),
        ),
        (any, gesture(bare, GestureTrigger::Pinch { fingers: 3 }), zoom),
        (any, gesture(bare, GestureTrigger::Swipe { fingers: 4 }), nearest),
        (any, gesture(bare, GestureTrigger::PinchIn { fingers: 4 }), once(ActionView::ZoomToFit)),
        (any, gesture(bare, GestureTrigger::PinchOut { fingers: 4 }), once(ActionView::HomeToggle)),
        (any, gesture(bare, GestureTrigger::Hold { fingers: 4 }), once(ActionView::CenterWindow)),
        (any, gesture(m, GestureTrigger::Swipe { fingers: 3 }), nearest),
        (any, gesture(m, GestureTrigger::PinchIn { fingers: 3 }), once(ActionView::ZoomToFit)),
        (any, gesture(m, GestureTrigger::PinchOut { fingers: 3 }), once(ActionView::HomeToggle)),
        (any, gesture(m, GestureTrigger::Hold { fingers: 3 }), once(ActionView::CenterWindow)),
    ]
}

/// The default gesture bindings.
pub fn default_gesture_bindings(mod_key: ModKey) -> (r: ContextBindings<
    GestureBinding,
    GestureConfigEntry,
>)
    ensures
        forall|c: BindingContext| viewed(#[trigger] r.table(c)) == context_bound(
            default_gestures(mod_key),
            c,
            default_gestures(mod_key).len(),
        ),
{
    let m = mod_key.base();
    let alt = ModKey::Alt.base();
    let bare = Modifiers::default();
    let any = BindingContext::Anywhere;
    let canvas = BindingContext::OnCanvas;
    let window = BindingContext::OnWindow;
    let mut list: Vec<(BindingContext, GestureBinding, GestureConfigEntry)> = Vec::new();
    list.push(
        (
            canvas,
            GestureBinding { modifiers: bare, trigger: GestureTrigger::Pinch { fingers: 2 } },
            GestureConfigEntry::Continuous(ContinuousAction::Zoom),
        ),
    );
    list.push(
        (
            any,
            GestureBinding { modifiers: bare, trigger: GestureTrigger::Swipe { fingers: 3 } },
            GestureConfigEntry::Continuous(ContinuousAction::PanViewport),
        ),
    );
    list.push(
        (
            window,
            GestureBinding {
                modifiers: bare,
                trigger: GestureTrigger::DoubletapSwipe { fingers: 3 },
            },
            GestureConfigEntry::Continuous(ContinuousAction::MoveWindow),
        ),
    );
    list.push(
        (
            window,
            GestureBinding { modifiers: alt, trigger: GestureTrigger::Swipe { fingers: 3 } },
            GestureConfigEntry::Continuous(ContinuousAction::ResizeWindow),
        ),
    );
    list.push(
        (
            any,
            GestureBinding { modifiers: bare, trigger: GestureTrigger::Pinch { fingers: 3 } },
            GestureConfigEntry::Continuous(ContinuousAction::Zoom),
        ),
    );
    push_navigation(&mut list, bare, 4);
    push_navigation(&mut list, m, 3);
    assert(contexts_viewed(list@) =~= default_gestures(mod_key));
    bind_contexts(list)
}

/// Adds the four navigation gestures.
fn push_navigation(
    list: &mut Vec<(BindingContext, GestureBinding, GestureConfigEntry)>,
    modifiers: Modifiers,
    fingers: u32,
)
    ensures
        contexts_viewed(final(list)@) == contexts_viewed(old(list)@) + seq![
            (
                BindingContext::Anywhere,
                gesture(modifiers, GestureTrigger::Swipe { fingers }),
                GestureEntryView::Threshold(ThresholdActionView::CenterNearest),
            ),
            (
                BindingContext::Anywhere,
                gesture(modifiers, GestureTrigger::PinchIn { fingers }),
                once(ActionView::ZoomToFit),
            ),
            (
                BindingContext::Anywhere,
                gesture(modifiers, GestureTrigger::PinchOut { fingers }),
                once(ActionView::HomeToggle),
            ),
            (
                BindingContext::Anywhere,
                gesture(modifiers, GestureTrigger::Hold { fingers }),
                once(ActionView::CenterWindow),
            ),
        ],
{
    let any = BindingContext::Anywhere;
    list.push(
        (
            any,
            GestureBinding { modifiers, trigger: GestureTrigger::Swipe { fingers } },
            GestureConfigEntry::Threshold(ThresholdAction::CenterNearest),
        ),
    );
    list.push(
        (
            any,
            GestureBinding { modifiers, trigger: GestureTrigger::PinchIn { fingers } },
            GestureConfigEntry::Threshold(ThresholdAction::Fixed(Action::ZoomToFit)),
        ),
    );
    list.push(
        (
            any,
            GestureBinding { modifiers, trigger: GestureTrigger::PinchOut { fingers } },
            GestureConfigEntry::Threshold(ThresholdAction::Fixed(Action::HomeToggle)),
        ),
    );
    list.push(
        (
            any,
            GestureBinding { modifiers, trigger: GestureTrigger::Hold { fingers } },
            GestureConfigEntry::Threshold(ThresholdAction::Fixed(Action::CenterWindow)),
        ),
    );
}

/// The terminals that are looked for, in order.
pub open spec fn terminal_names() -> Seq<Seq<char>> {
    seq!["foot"@, "alacritty"@, "ptyxis"@, "kitty"@, "wezterm"@]
}

/// The launchers that are looked for, in order.
pub open spec fn launcher_names() -> Seq<Seq<char>> {
    seq!["fuzzel"@, "wofi"@, "bemenu-run"@, "tofi"@]
}

/// The texts of a list.
pub open spec fn texts(list: Seq<&str>) -> Seq<Seq<char>> {
    list.map_values(|s: &str| s@)
}

/// The terminals to look for, in order.
pub fn terminal_candidates() -> (r: Vec<&'static str>)
    ensures
        texts(r@) == terminal_names(),
{
    let mut v: Vec<&'static str> = Vec::new();
    v.push("foot");
    v.push("alacritty");
    v.push("ptyxis");
    v.push("kitty");
    v.push("wezterm");
    assert(texts(v@) =~= terminal_names());
    v
}

/// The launchers to look for, in order.
pub fn launcher_candidates() -> (r: Vec<&'static str>)
    ensures
        texts(r@) == launcher_names(),
{
    let mut v: Vec<&'static str> = Vec::new();
    v.push("fuzzel");
    v.push("wofi");
    v.push("bemenu-run");
    v.push("tofi");
    assert(texts(v@) =~= launcher_names());
    v
}

/// The command to use: the one that the environment names, else the first
/// installed candidate, else the first candidate.
pub open spec fn chosen_command(
    named: Option<String>,
    candidates: Seq<Seq<char>>,
    installed: Option<usize>,
) -> Seq<char> {
    match named {
        Some(s) if s@.len() > 0 => s@,
        _ => match installed {
            Some(i) if i < candidates.len() => candidates[i as int],
            _ => candidates[0],
        },
    }
}

fn choose_command(named: Option<String>, candidates: Vec<&'static str>, installed: Option<usize>) -> (r: String)
    requires
        texts(candidates@).len() > 0,
    ensures
        r@ == chosen_command(named, texts(candidates@), installed),
{
    if let Some(s) = named {
        if s.as_str().unicode_len() > 0 {
            return s;
        }
    }
    match installed {
        Some(i) => if i < candidates.len() {
            String::from_str(candidates[i])
        } else {
            String::from_str(candidates[0])
        },
        None => String::from_str(candidates[0]),
    }
}

/// The terminal to start: `named` is what the environment asks for, `installed`
/// the first candidate that is installed.
pub fn detect_terminal(named: Option<String>, installed: Option<usize>) -> (r: String)
    ensures
        r@ == chosen_command(named, terminal_names(), installed),
{
    choose_command(named, terminal_candidates(), installed)
}

/// The launcher to start: `named` is what the environment asks for, `installed`
/// the first candidate that is installed.
pub fn detect_launcher(named: Option<String>, installed: Option<usize>) -> (r: String)
    ensures
        r@ == chosen_command(named, launcher_names(), installed),
{
    choose_command(named, launcher_candidates(), installed)
}

/// No two default key bindings share a combination, whatever the modifiers, so
/// that each of them takes effect.
pub proof fn default_keys_do_not_clash(
    mod_key: ModKey,
    cycle_mod: CycleModifier,
    terminal: Seq<char>,
    launcher: Seq<char>,
    i: int,
    j: int,
)
    requires
        0 <= i < j < default_keys(mod_key, cycle_mod, terminal, launcher).len(),
    ensures
        default_keys(mod_key, cycle_mod, terminal, launcher)[i].0.normal() != default_keys(
            mod_key,
            cycle_mod,
            terminal,
            launcher,
        )[j].0.normal(),
{
}

} // verus!
