//! The vocabulary of the configuration.
//!
//! Fractional settings are whole numbers of millionths (see [`ONE`]), so that
//! every decimal of a configuration file keeps its value.

use vstd::prelude::*;

verus! {

/// The number one, in millionths.
pub const ONE: i64 = 1_000_000;

/// Left mouse button.
pub const BTN_LEFT: u32 = 0x110;

/// Right mouse button.
pub const BTN_RIGHT: u32 = 0x111;

/// Middle mouse button.
pub const BTN_MIDDLE: u32 = 0x112;

/// One of eight directions on the screen.
#[derive(Clone, Copy, Debug, PartialEq, Eq, Structural)]
pub enum Direction {
    Up,
    Down,
    Left,
    Right,
    UpLeft,
    UpRight,
    DownLeft,
    DownRight,
}

impl Direction {
    /// The signs of the direction, x to the right and y downwards.
    pub open spec fn heading(self) -> (int, int) {
        match self {
            Direction::Up => (0, -1),
            Direction::Down => (0, 1),
            Direction::Left => (-1, 0),
            Direction::Right => (1, 0),
            Direction::UpLeft => (-1, -1),
            Direction::UpRight => (1, -1),
            Direction::DownLeft => (-1, 1),
            Direction::DownRight => (1, 1),
        }
    }

    /// The signs of the direction, x to the right and y downwards.
    pub fn signs(self) -> (r: (i32, i32))
        ensures
            (r.0 as int, r.1 as int) == self.heading(),
    {
        match self {
            Direction::Up => (0, -1),
            Direction::Down => (0, 1),
            Direction::Left => (-1, 0),
            Direction::Right => (1, 0),
            Direction::UpLeft => (-1, -1),
            Direction::UpRight => (1, -1),
            Direction::DownLeft => (-1, 1),
            Direction::DownRight => (1, 1),
        }
    }

    /// Whether both axes take part.
    pub open spec fn is_diagonal(self) -> bool {
        self.heading().0 != 0 && self.heading().1 != 0
    }
}

/// What a key press, a click or a gesture makes the compositor do.
#[derive(Clone, Debug)]
pub enum Action {
    Exec(String),
    Spawn(String),
    CloseWindow,
    NudgeWindow(Direction),
    PanViewport(Direction),
    CenterWindow,
    CenterNearest(Direction),
    CycleWindows { backward: bool },
    HomeToggle,
    /// A canvas position in units.
    GoToPosition(i64, i64),
    ZoomIn,
    ZoomOut,
    ZoomReset,
    ZoomToFit,
    ToggleFullscreen,
    FitWindow,
    SendToOutput(Direction),
    FocusCenter,
    ReloadConfig,
    Quit,
}

/// An action with its text as characters.
pub enum ActionView {
    Exec(Seq<char>),
    Spawn(Seq<char>),
    CloseWindow,
    NudgeWindow(Direction),
    PanViewport(Direction),
    CenterWindow,
    CenterNearest(Direction),
    CycleWindows { backward: bool },
    HomeToggle,
    GoToPosition(i64, i64),
    ZoomIn,
    ZoomOut,
    ZoomReset,
    ZoomToFit,
    ToggleFullscreen,
    FitWindow,
    SendToOutput(Direction),
    FocusCenter,
    ReloadConfig,
    Quit,
}

impl View for Action {
    type V = ActionView;

    open spec fn view(&self) -> ActionView {
        match self {
            Action::Exec(s) => ActionView::Exec(s@),
            Action::Spawn(s) => ActionView::Spawn(s@),
            Action::CloseWindow => ActionView::CloseWindow,
            Action::NudgeWindow(d) => ActionView::NudgeWindow(*d),
            Action::PanViewport(d) => ActionView::PanViewport(*d),
            Action::CenterWindow => ActionView::CenterWindow,
            Action::CenterNearest(d) => ActionView::CenterNearest(*d),
            Action::CycleWindows { backward } => ActionView::CycleWindows { backward: *backward },
            Action::HomeToggle => ActionView::HomeToggle,
            Action::GoToPosition(x, y) => ActionView::GoToPosition(*x, *y),
            Action::ZoomIn => ActionView::ZoomIn,
            Action::ZoomOut => ActionView::ZoomOut,
            Action::ZoomReset => ActionView::ZoomReset,
            Action::ZoomToFit => ActionView::ZoomToFit,
            Action::ToggleFullscreen => ActionView::ToggleFullscreen,
            Action::FitWindow => ActionView::FitWindow,
            Action::SendToOutput(d) => ActionView::SendToOutput(*d),
            Action::FocusCenter => ActionView::FocusCenter,
            Action::ReloadConfig => ActionView::ReloadConfig,
            Action::Quit => ActionView::Quit,
        }
    }
}

impl ActionView {
    /// The actions that go on while their key is held.
    pub open spec fn repeats(self) -> bool {
        ||| self is ZoomIn
        ||| self is ZoomOut
        ||| self is NudgeWindow
        ||| self is PanViewport
        ||| self is CycleWindows
        ||| self is Spawn
    }
}

impl Action {
    /// Whether the action repeats while its key is held.
    pub fn is_repeatable(&self) -> (r: bool)
        ensures
            r == self@.repeats(),
    {
        match self {
            Action::ZoomIn
            | Action::ZoomOut
            | Action::NudgeWindow(_)
            | Action::PanViewport(_)
            | Action::CycleWindows { .. }
            | Action::Spawn(_) => true,
            _ => false,
        }
    }

    /// The same action, with a copy of its text.
    pub fn duplicate(&self) -> (r: Action)
        ensures
            r@ == self@,
    {
        match self {
            Action::Exec(s) => Action::Exec(s.clone()),
            Action::Spawn(s) => Action::Spawn(s.clone()),
            Action::CloseWindow => Action::CloseWindow,
            Action::NudgeWindow(d) => Action::NudgeWindow(*d),
            Action::PanViewport(d) => Action::PanViewport(*d),
            Action::CenterWindow => Action::CenterWindow,
            Action::CenterNearest(d) => Action::CenterNearest(*d),
            Action::CycleWindows { backward } => Action::CycleWindows { backward: *backward },
            Action::HomeToggle => Action::HomeToggle,
            Action::GoToPosition(x, y) => Action::GoToPosition(*x, *y),
            Action::ZoomIn => Action::ZoomIn,
            Action::ZoomOut => Action::ZoomOut,
            Action::ZoomReset => Action::ZoomReset,
            Action::ZoomToFit => Action::ZoomToFit,
            Action::ToggleFullscreen => Action::ToggleFullscreen,
            Action::FitWindow => Action::FitWindow,
            Action::SendToOutput(d) => Action::SendToOutput(*d),
            Action::FocusCenter => Action::FocusCenter,
            Action::ReloadConfig => Action::ReloadConfig,
            Action::Quit => Action::Quit,
        }
    }
}

/// The modifier keys that are held.
#[derive(Clone, Copy, Debug, PartialEq, Eq, Hash, Structural)]
pub struct Modifiers {
    pub ctrl: bool,
    pub alt: bool,
    pub shift: bool,
    pub logo: bool,
}

impl Modifiers {
    /// No modifier.
    pub open spec fn none() -> Modifiers {
        Modifiers { ctrl: false, alt: false, shift: false, logo: false }
    }
}

impl Default for Modifiers {
    fn default() -> (r: Modifiers)
        ensures
            r == Modifiers::none(),
    {
        Modifiers { ctrl: false, alt: false, shift: false, logo: false }
    }
}

/// The key that acts as the window manager's modifier.
#[derive(Clone, Copy, Debug, PartialEq, Eq, Structural)]
pub enum ModKey {
    Alt,
    Super,
}

impl ModKey {
    /// The modifiers with this key alone held.
    pub open spec fn alone(self) -> Modifiers {
        Modifiers { ctrl: false, alt: self is Alt, shift: false, logo: self is Super }
    }

    /// Whether this key is among the held ones.
    pub open spec fn held(self, state: Modifiers) -> bool {
        match self {
            ModKey::Alt => state.alt,
            ModKey::Super => state.logo,
        }
    }

    /// The modifiers with this key alone held.
    pub fn base(self) -> (r: Modifiers)
        ensures
            r == self.alone(),
    {
        match self {
            ModKey::Alt => Modifiers { ctrl: false, alt: true, shift: false, logo: false },
            ModKey::Super => Modifiers { ctrl: false, alt: false, shift: false, logo: true },
        }
    }

    /// Whether this key is held.
    pub fn is_pressed(self, state: &Modifiers) -> (r: bool)
        ensures
            r == self.held(*state),
    {
        match self {
            ModKey::Alt => state.alt,
            ModKey::Super => state.logo,
        }
    }
}

/// The modifier that stays held while windows are cycled.
#[derive(Clone, Copy, Debug, PartialEq, Eq, Structural)]
pub enum CycleModifier {
    Alt,
    Ctrl,
}

impl CycleModifier {
    /// The modifiers with this key alone held.
    pub open spec fn alone(self) -> Modifiers {
        Modifiers { ctrl: self is Ctrl, alt: self is Alt, shift: false, logo: false }
    }

    /// Whether this key is among the held ones.
    pub open spec fn held(self, state: Modifiers) -> bool {
        match self {
            CycleModifier::Alt => state.alt,
            CycleModifier::Ctrl => state.ctrl,
        }
    }

    /// Whether this key is held.
    pub fn is_pressed(self, state: &Modifiers) -> (r: bool)
        ensures
            r == self.held(*state),
    {
        match self {
            CycleModifier::Alt => state.alt,
            CycleModifier::Ctrl => state.ctrl,
        }
    }

    /// The modifiers with this key alone held.
    pub fn base(self) -> (r: Modifiers)
        ensures
            r == self.alone(),
    {
        match self {
            CycleModifier::Alt => Modifiers { ctrl: false, alt: true, shift: false, logo: false },
            CycleModifier::Ctrl => Modifiers { ctrl: true, alt: false, shift: false, logo: false },
        }
    }
}

/// A modifier key counts as held exactly where its own pattern shares it.
pub proof fn base_holds_its_key(m: ModKey, c: CycleModifier)
    ensures
        m.held(m.alone()),
        c.held(c.alone()),
        forall|o: ModKey| o != m ==> !(#[trigger] o.held(m.alone())),
        forall|o: CycleModifier| o != c ==> !(#[trigger] o.held(c.alone())),
{
}

/// Key symbol of the tabulator key.
pub const KEY_TAB: u32 = 0xff09;

/// Key symbol that the tabulator key gives while Shift is held.
pub const KEY_ISO_LEFT_TAB: u32 = 0xfe20;

/// A key symbol with the modifiers that are held.
#[derive(Clone, Copy, Debug, PartialEq, Eq, Hash, Structural)]
pub struct KeyCombo {
    pub modifiers: Modifiers,
    pub sym: u32,
}

impl KeyCombo {
    /// The combination under which a binding is found: letters in lower case,
    /// and the shifted tabulator as the tabulator with Shift.
    pub open spec fn normal(self) -> KeyCombo {
        if 0x41 <= self.sym <= 0x5a {
            KeyCombo { modifiers: self.modifiers, sym: (self.sym + 0x20) as u32 }
        } else if self.sym == KEY_ISO_LEFT_TAB {
            KeyCombo {
                modifiers: Modifiers {
                    ctrl: self.modifiers.ctrl,
                    alt: self.modifiers.alt,
                    shift: true,
                    logo: self.modifiers.logo,
                },
                sym: KEY_TAB,
            }
        } else {
            self
        }
    }

    /// Evens out key symbols that stand for the same key.
    pub fn normalize(&mut self)
        ensures
            *final(self) == old(self).normal(),
    {
        if 0x41 <= self.sym && self.sym <= 0x5a {
            self.sym = self.sym + 0x20;
        } else if self.sym == KEY_ISO_LEFT_TAB {
            self.sym = KEY_TAB;
            self.modifiers.shift = true;
        }
    }
}

/// Normalizing once is enough.
pub proof fn normal_is_stable(c: KeyCombo)
    ensures
        c.normal().normal() == c.normal(),
{
}

/// Where a click or a gesture happens.
#[derive(Clone, Copy, Debug, PartialEq, Eq, Hash, Structural)]
pub enum BindingContext {
    OnWindow,
    OnCanvas,
    Anywhere,
}

/// What a mouse binding reacts to.
#[derive(Clone, Copy, Debug, PartialEq, Eq, Hash, Structural)]
pub enum MouseTrigger {
    Button(u32),
    TrackpadScroll,
    WheelScroll,
}

/// A mouse trigger with the modifiers that are held.
#[derive(Clone, Copy, Debug, PartialEq, Eq, Hash, Structural)]
pub struct MouseBinding {
    pub modifiers: Modifiers,
    pub trigger: MouseTrigger,
}

/// What a mouse binding does.
#[derive(Clone, Debug)]
pub enum MouseAction {
    MoveWindow,
    /// Drags every window of the snapped cluster along.
    MoveSnappedWindows,
    ResizeWindow,
    /// Resizes the window and moves the rest of its snapped cluster.
    ResizeWindowSnapped,
    PanViewport,
    Zoom,
    CenterNearest,
    Action(Action),
}

/// A mouse action with its text as characters.
pub enum MouseActionView {
    MoveWindow,
    MoveSnappedWindows,
    ResizeWindow,
    ResizeWindowSnapped,
    PanViewport,
    Zoom,
    CenterNearest,
    Action(ActionView),
}

impl View for MouseAction {
    type V = MouseActionView;

    open spec fn view(&self) -> MouseActionView {
        match self {
            MouseAction::MoveWindow => MouseActionView::MoveWindow,
            MouseAction::MoveSnappedWindows => MouseActionView::MoveSnappedWindows,
            MouseAction::ResizeWindow => MouseActionView::ResizeWindow,
            MouseAction::ResizeWindowSnapped => MouseActionView::ResizeWindowSnapped,
            MouseAction::PanViewport => MouseActionView::PanViewport,
            MouseAction::Zoom => MouseActionView::Zoom,
            MouseAction::CenterNearest => MouseActionView::CenterNearest,
            MouseAction::Action(a) => MouseActionView::Action(a@),
        }
    }
}

/// What a gesture binding reacts to.
#[derive(Clone, Copy, Debug, PartialEq, Eq, Hash, Structural)]
pub enum GestureTrigger {
    Swipe { fingers: u32 },
    SwipeUp { fingers: u32 },
    SwipeDown { fingers: u32 },
    SwipeLeft { fingers: u32 },
    SwipeRight { fingers: u32 },
    DoubletapSwipe { fingers: u32 },
    Pinch { fingers: u32 },
    PinchIn { fingers: u32 },
    PinchOut { fingers: u32 },
    Hold { fingers: u32 },
}

/// A gesture with the modifiers that are held.
#[derive(Clone, Copy, Debug, PartialEq, Eq, Hash, Structural)]
pub struct GestureBinding {
    pub modifiers: Modifiers,
    pub trigger: GestureTrigger,
}

/// What a gesture does with every motion.
#[derive(Clone, Copy, Debug, PartialEq, Eq, Structural)]
pub enum ContinuousAction {
    PanViewport,
    Zoom,
    MoveWindow,
    ResizeWindow,
    /// Resizes the window and moves the rest of its snapped cluster.
    ResizeWindowSnapped,
}

/// What a gesture does once, when it has gone far enough.
#[derive(Clone, Debug)]
pub enum ThresholdAction {
    CenterNearest,
    Fixed(Action),
}

/// A threshold action with its text as characters.
pub enum ThresholdActionView {
    CenterNearest,
    Fixed(ActionView),
}

impl View for ThresholdAction {
    type V = ThresholdActionView;

    open spec fn view(&self) -> ThresholdActionView {
        match self {
            ThresholdAction::CenterNearest => ThresholdActionView::CenterNearest,
            ThresholdAction::Fixed(a) => ThresholdActionView::Fixed(a@),
        }
    }
}

impl ThresholdAction {
    /// The same action once more.
    pub fn duplicate(&self) -> (r: ThresholdAction)
        ensures
            r@ == self@,
    {
        match self {
            ThresholdAction::CenterNearest => ThresholdAction::CenterNearest,
            ThresholdAction::Fixed(a) => ThresholdAction::Fixed(a.duplicate()),
        }
    }
}

/// What a gesture is bound to.
#[derive(Clone, Debug)]
pub enum GestureConfigEntry {
    Continuous(ContinuousAction),
    Threshold(ThresholdAction),
}

/// A gesture's action with its text as characters.
pub enum GestureEntryView {
    Continuous(ContinuousAction),
    Threshold(ThresholdActionView),
}

impl View for GestureConfigEntry {
    type V = GestureEntryView;

    open spec fn view(&self) -> GestureEntryView {
        match self {
            GestureConfigEntry::Continuous(c) => GestureEntryView::Continuous(*c),
            GestureConfigEntry::Threshold(t) => GestureEntryView::Threshold(t@),
        }
    }
}

/// Pointer acceleration.
#[derive(Clone, Copy, Debug, PartialEq, Eq, Structural)]
pub enum AccelProfile {
    Flat,
    Adaptive,
}

/// How a window is decorated.
#[derive(Clone, Copy, Debug, PartialEq, Eq, Structural)]
pub enum DecorationMode {
    /// The client draws its own.
    Client,
    /// The compositor draws them.
    Server,
    /// Nobody draws any.
    Off,
}

impl Default for DecorationMode {
    fn default() -> (r: DecorationMode)
        ensures
            r == DecorationMode::Client,
    {
        DecorationMode::Client
    }
}

/// How an output is turned and mirrored.
#[derive(Clone, Copy, Debug, PartialEq, Eq, Structural)]
pub enum Transform {
    Normal,
    Rotated90,
    Rotated180,
    Rotated270,
    Flipped,
    Flipped90,
    Flipped180,
    Flipped270,
}

/// Where an output sits in the layout.
#[derive(Clone, Copy, Debug, PartialEq, Eq, Structural)]
pub enum OutputPosition {
    Auto,
    Fixed(i32, i32),
}

impl Default for OutputPosition {
    fn default() -> (r: OutputPosition)
        ensures
            r == OutputPosition::Auto,
    {
        OutputPosition::Auto
    }
}

/// Which mode an output runs in.
#[derive(Clone, Copy, Debug, PartialEq, Eq, Structural)]
pub enum OutputMode {
    Preferred,
    /// Width and height; the highest refresh rate wins.
    Size(i32, i32),
    /// Width, height and refresh rate.
    SizeRefresh(i32, i32, u32),
}

impl Default for OutputMode {
    fn default() -> (r: OutputMode)
        ensures
            r == OutputMode::Preferred,
    {
        OutputMode::Preferred
    }
}

/// Switches of the display backend.
#[derive(Clone, Copy, Debug, PartialEq, Eq, Structural)]
pub struct BackendConfig {
    pub wait_for_frame_completion: bool,
    pub disable_direct_scanout: bool,
}

impl Default for BackendConfig {
    fn default() -> (r: BackendConfig)
        ensures
            r == (BackendConfig { wait_for_frame_completion: false, disable_direct_scanout: false }),
    {
        BackendConfig { wait_for_frame_completion: false, disable_direct_scanout: false }
    }
}

/// Keyboard layout names.
#[derive(Clone, Debug)]
pub struct KeyboardLayout {
    pub layout: String,
    pub variant: String,
    pub options: String,
    pub model: String,
}

/// What is drawn behind the windows.
#[derive(Clone, Debug)]
pub struct BackgroundConfig {
    /// A fragment shader.
    pub shader_path: Option<String>,
    /// An image to tile; used where no shader is named.
    pub tile_path: Option<String>,
}

impl Default for BackgroundConfig {
    fn default() -> (r: BackgroundConfig)
        ensures
            r.shader_path is None,
            r.tile_path is None,
    {
        BackgroundConfig { shader_path: None, tile_path: None }
    }
}

/// Trackpad settings.
#[derive(Clone, Debug)]
pub struct TrackpadSettings {
    pub tap_to_click: bool,
    pub natural_scroll: bool,
    pub tap_and_drag: bool,
    /// In millionths, from minus one to one.
    pub accel_speed: i64,
    pub accel_profile: AccelProfile,
    pub click_method: Option<String>,
}

impl Default for TrackpadSettings {
    fn default() -> (r: TrackpadSettings)
        ensures
            r.tap_to_click && r.natural_scroll && r.tap_and_drag,
            r.accel_speed == 0,
            r.accel_profile == AccelProfile::Adaptive,
            r.click_method is None,
    {
        TrackpadSettings {
            tap_to_click: true,
            natural_scroll: true,
            tap_and_drag: true,
            accel_speed: 0,
            accel_profile: AccelProfile::Adaptive,
            click_method: None,
        }
    }
}

/// Mouse settings.
#[derive(Clone, Copy, Debug, PartialEq, Eq, Structural)]
pub struct MouseDeviceSettings {
    /// In millionths.
    pub accel_speed: i64,
    pub accel_profile: AccelProfile,
    pub natural_scroll: bool,
}

impl Default for MouseDeviceSettings {
    fn default() -> (r: MouseDeviceSettings)
        ensures
            r == (MouseDeviceSettings {
                accel_speed: 0,
                accel_profile: AccelProfile::Flat,
                natural_scroll: false,
            }),
    {
        MouseDeviceSettings {
            accel_speed: 0,
            accel_profile: AccelProfile::Flat,
            natural_scroll: false,
        }
    }
}

/// How far a gesture goes before it fires.
#[derive(Clone, Copy, Debug, PartialEq, Eq, Structural)]
pub struct GestureThresholds {
    /// In millionths of a pixel.
    pub swipe_distance: i64,
    /// In millionths.
    pub pinch_in_scale: i64,
    /// In millionths.
    pub pinch_out_scale: i64,
}

impl Default for GestureThresholds {
    fn default() -> (r: GestureThresholds)
        ensures
            r.swipe_distance == 12 * ONE,
            r.pinch_in_scale == 850_000,
            r.pinch_out_scale == 1_150_000,
    {
        GestureThresholds {
            swipe_distance: 12_000_000,
            pinch_in_scale: 850_000,
            pinch_out_scale: 1_150_000,
        }
    }
}

/// Blur settings.
#[derive(Clone, Copy, Debug, PartialEq, Eq, Structural)]
pub struct EffectsConfig {
    pub blur_radius: u32,
    /// In millionths.
    pub blur_strength: i64,
}

impl Default for EffectsConfig {
    fn default() -> (r: EffectsConfig)
        ensures
            r == (EffectsConfig { blur_radius: 2, blur_strength: 1_100_000 }),
    {
        EffectsConfig { blur_radius: 2, blur_strength: 1_100_000 }
    }
}

/// Colors and shape of server-side decorations. Colors are red, green, blue
/// and alpha.
#[derive(Clone, Copy, Debug)]
pub struct DecorationConfig {
    pub bg_color: [u8; 4],
    pub fg_color: [u8; 4],
    pub corner_radius: i32,
}

impl DecorationConfig {
    /// Height of the title bar.
    pub const TITLE_BAR_HEIGHT: i32 = 25;

    /// Width of the band around a window that starts a resize.
    pub const RESIZE_BORDER_WIDTH: i32 = 8;

    /// How far the shadow reaches.
    pub const SHADOW_RADIUS: i32 = 14;
}

impl Default for DecorationConfig {
    fn default() -> (r: DecorationConfig)
        ensures
            r.bg_color@ == seq![0x30u8, 0x30, 0x30, 0xFF],
            r.fg_color@ == seq![0xFFu8, 0xFF, 0xFF, 0xFF],
            r.corner_radius == 8,
    {
        DecorationConfig {
            bg_color: [0x30, 0x30, 0x30, 0xFF],
            fg_color: [0xFF, 0xFF, 0xFF, 0xFF],
            corner_radius: 8,
        }
    }
}

/// How the viewports of other outputs are outlined.
#[derive(Clone, Copy, Debug)]
pub struct OutputOutlineSettings {
    pub color: [u8; 4],
    pub thickness: i32,
    /// In millionths.
    pub opacity: i64,
}

impl Default for OutputOutlineSettings {
    fn default() -> (r: OutputOutlineSettings)
        ensures
            r.color@ == seq![0xFFu8, 0xFF, 0xFF, 0xFF],
            r.thickness == 1,
            r.opacity == 500_000,
    {
        OutputOutlineSettings { color: [0xFF, 0xFF, 0xFF, 0xFF], thickness: 1, opacity: 500_000 }
    }
}

/// What the configuration says of one output.
#[derive(Clone, Debug)]
pub struct OutputConfig {
    pub name: String,
    /// In millionths; positive.
    pub scale: Option<i64>,
    pub transform: Option<Transform>,
    pub position: OutputPosition,
    pub mode: OutputMode,
}

/// What the configuration says of the windows of one application.
#[derive(Clone, Debug)]
pub struct WindowRule {
    /// The application, with at most one `*` that stands for any text.
    pub app_id: String,
    /// Centre of the window, y upwards.
    pub position: Option<(i32, i32)>,
    /// Pinned, below other windows, and left out of navigation.
    pub widget: bool,
    pub no_focus: bool,
    pub decoration: DecorationMode,
    pub blur: bool,
    /// In millionths.
    pub opacity: Option<i64>,
}

/// The part of a rule that stays with a window.
#[derive(Clone, Copy, Debug, PartialEq, Eq, Structural)]
pub struct AppliedWindowRule {
    pub widget: bool,
    pub no_focus: bool,
    pub decoration: DecorationMode,
    pub blur: bool,
    /// In millionths.
    pub opacity: Option<i64>,
}

impl WindowRule {
    /// The part that stays with a window.
    pub open spec fn kept(self) -> AppliedWindowRule {
        AppliedWindowRule {
            widget: self.widget,
            no_focus: self.no_focus,
            decoration: self.decoration,
            blur: self.blur,
            opacity: self.opacity,
        }
    }
}

impl From<&WindowRule> for AppliedWindowRule {
    fn from(rule: &WindowRule) -> (r: AppliedWindowRule) {
        AppliedWindowRule {
            widget: rule.widget,
            no_focus: rule.no_focus,
            decoration: rule.decoration,
            blur: rule.blur,
            opacity: rule.opacity,
        }
    }
}

impl vstd::std_specs::convert::FromSpecImpl<&WindowRule> for AppliedWindowRule {
    open spec fn obeys_from_spec() -> bool {
        true
    }

    open spec fn from_spec(rule: &WindowRule) -> AppliedWindowRule {
        rule.kept()
    }
}

} // verus!
