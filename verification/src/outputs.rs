//! Outputs: their modes, names and places.

use crate::canvas::{home_camera, CanvasPos};
use crate::config::types::{OutputConfig, OutputMode, OutputPosition, Transform};
use crate::config::Config;
use crate::geometry::{Point, Size};
use crate::text::{join3, same_text, to_decimal};
use crate::units::saturating_sum;
use vstd::prelude::*;

verus! {

use crate::canvas::centering;
use crate::text::decimal;
use crate::units::clamp_i32;

/// A mode that a display offers.
#[derive(Clone, Copy, Debug, PartialEq, Eq, Structural)]
pub struct DisplayMode {
    pub width: u16,
    pub height: u16,
    /// Whole frames per second.
    pub vrefresh: u32,
    pub preferred: bool,
}

impl DisplayMode {
    pub open spec fn pixels(self) -> int {
        self.width * self.height
    }

    /// Whether this mode is at least as good as another: more pixels, or as
    /// many and no slower.
    pub open spec fn at_least(self, other: DisplayMode) -> bool {
        self.pixels() > other.pixels() || (self.pixels() == other.pixels() && self.vrefresh
            >= other.vrefresh)
    }

    fn is_at_least(&self, other: &DisplayMode) -> (r: bool)
        ensures
            r == self.at_least(*other),
    {
        proof {
            assert(0 <= self.width * self.height <= 0xffff * 0xffff) by (nonlinear_arith)
                requires
                    0 <= self.width <= 0xffff,
                    0 <= self.height <= 0xffff,
            ;
            assert(0 <= other.width * other.height <= 0xffff * 0xffff) by (nonlinear_arith)
                requires
                    0 <= other.width <= 0xffff,
                    0 <= other.height <= 0xffff,
            ;
        }
        let a: u64 = self.width as u64 * self.height as u64;
        let b: u64 = other.width as u64 * other.height as u64;
        a > b || (a == b && self.vrefresh >= other.vrefresh)
    }

    /// Whether this mode has a size. Sizes are those of the display, in 16
    /// bits.
    pub open spec fn has_size(self, w: i32, h: i32) -> bool {
        self.width == w as u16 && self.height == h as u16
    }

    fn is_of_size(&self, w: i32, h: i32) -> (r: bool)
        ensures
            r == self.has_size(w, h),
    {
        self.width == #[verifier::truncate] (w as u16) && self.height == #[verifier::truncate] (
        h as u16)
    }
}

/// Whether the mode at a place is the last of the best ones.
pub open spec fn is_last_best(modes: Seq<DisplayMode>, k: int) -> bool {
    &&& 0 <= k < modes.len()
    &&& forall|j: int| 0 <= j < modes.len() ==> modes[k].at_least(#[trigger] modes[j])
    &&& forall|j: int| k < j < modes.len() ==> !(#[trigger] modes[j]).at_least(modes[k])
}

/// Whether the mode at a place is the first that the display prefers.
pub open spec fn is_first_preferred(modes: Seq<DisplayMode>, k: int) -> bool {
    &&& 0 <= k < modes.len()
    &&& modes[k].preferred
    &&& forall|j: int| 0 <= j < k ==> !(#[trigger] modes[j]).preferred
}

/// Whether no mode is preferred.
pub open spec fn none_preferred(modes: Seq<DisplayMode>) -> bool {
    forall|j: int| 0 <= j < modes.len() ==> !(#[trigger] modes[j]).preferred
}

/// Whether a display that is left to choose runs in the mode at a place: the
/// one that it prefers, else the one with most pixels, else the fastest.
pub open spec fn is_preferred_mode(modes: Seq<DisplayMode>, k: int) -> bool {
    is_first_preferred(modes, k) || (none_preferred(modes) && is_last_best(modes, k))
}

/// Whether no mode has a size.
pub open spec fn none_of_size(modes: Seq<DisplayMode>, w: i32, h: i32) -> bool {
    forall|j: int| 0 <= j < modes.len() ==> !(#[trigger] modes[j]).has_size(w, h)
}

/// Whether the mode at a place is the last of the fastest ones of a size.
pub open spec fn is_last_fastest(modes: Seq<DisplayMode>, w: i32, h: i32, k: int) -> bool {
    &&& 0 <= k < modes.len()
    &&& modes[k].has_size(w, h)
    &&& forall|j: int|
        0 <= j < modes.len() && (#[trigger] modes[j]).has_size(w, h) ==> modes[j].vrefresh
            <= modes[k].vrefresh
    &&& forall|j: int|
        k < j < modes.len() && (#[trigger] modes[j]).has_size(w, h) ==> modes[j].vrefresh
            < modes[k].vrefresh
}

/// Whether no mode has a size and a rate.
pub open spec fn none_of_rate(modes: Seq<DisplayMode>, w: i32, h: i32, hz: u32) -> bool {
    forall|j: int|
        0 <= j < modes.len() ==> !((#[trigger] modes[j]).has_size(w, h) && modes[j].vrefresh == hz)
}

/// Whether the mode at a place is the first of a size and a rate.
pub open spec fn is_first_of_rate(modes: Seq<DisplayMode>, w: i32, h: i32, hz: u32, k: int) -> bool {
    &&& 0 <= k < modes.len()
    &&& modes[k].has_size(w, h) && modes[k].vrefresh == hz
    &&& forall|j: int|
        0 <= j < k ==> !((#[trigger] modes[j]).has_size(w, h) && modes[j].vrefresh == hz)
}

/// Whether an output runs in the mode at a place, given what its
/// configuration wants. What the display does not offer falls back to what it
/// would choose.
pub open spec fn is_chosen_mode(modes: Seq<DisplayMode>, wanted: OutputMode, k: int) -> bool {
    match wanted {
        OutputMode::Preferred => is_preferred_mode(modes, k),
        OutputMode::Size(w, h) => is_last_fastest(modes, w, h, k) || (none_of_size(modes, w, h)
            && is_preferred_mode(modes, k)),
        OutputMode::SizeRefresh(w, h, hz) => is_first_of_rate(modes, w, h, hz, k) || (none_of_rate(
            modes,
            w,
            h,
            hz,
        ) && is_preferred_mode(modes, k)),
    }
}

/// At most one mode is chosen.
pub proof fn chosen_mode_is_unique(modes: Seq<DisplayMode>, wanted: OutputMode, a: int, b: int)
    requires
        is_chosen_mode(modes, wanted, a),
        is_chosen_mode(modes, wanted, b),
    ensures
        a == b,
{
    assert(modes[a].at_least(modes[b]) || !modes[a].at_least(modes[b]));
    assert(modes[b].at_least(modes[a]) || !modes[b].at_least(modes[a]));
    assert(modes[a] == modes[a]);
    assert(modes[b] == modes[b]);
}

/// The mode of a display that is left to choose, if it has any.
pub fn pick_preferred_mode(modes: &[DisplayMode]) -> (r: Option<usize>)
    ensures
        match r {
            Some(k) => is_preferred_mode(modes@, k as int),
            None => modes@.len() == 0,
        },
{
    let mut i: usize = 0;
    while i < modes.len()
        invariant
            i <= modes@.len(),
            forall|j: int| 0 <= j < i ==> !(#[trigger] modes@[j]).preferred,
        decreases modes.len() - i,
    {
        if modes[i].preferred {
            return Some(i);
        }
        i += 1;
    }
    if modes.len() == 0 {
        return None;
    }
    let mut best: usize = 0;
    let mut n: usize = 1;
    while n < modes.len()
        invariant
            1 <= n <= modes@.len(),
            best < n,
            forall|j: int| 0 <= j < n ==> modes@[best as int].at_least(#[trigger] modes@[j]),
            forall|j: int| best < j < n ==> !(#[trigger] modes@[j]).at_least(modes@[best as int]),
        decreases modes.len() - n,
    {
        if modes[n].is_at_least(&modes[best]) {
            best = n;
        }
        n += 1;
    }
    Some(best)
}

/// The mode of an output, given what its configuration wants. There is one
/// unless the display has no modes at all.
pub fn pick_mode_for_config(modes: &[DisplayMode], wanted: &OutputMode) -> (r: Option<usize>)
    ensures
        match r {
            Some(k) => is_chosen_mode(modes@, *wanted, k as int),
            None => modes@.len() == 0,
        },
{
    match *wanted {
        OutputMode::Preferred => pick_preferred_mode(modes),
        OutputMode::Size(w, h) => {
            let mut best: Option<usize> = None;
            let mut n: usize = 0;
            while n < modes.len()
                invariant
                    n <= modes@.len(),
                    match best {
                        Some(k) => {
                            &&& k < n
                            &&& modes@[k as int].has_size(w, h)
                            &&& forall|j: int|
                                0 <= j < n && (#[trigger] modes@[j]).has_size(w, h)
                                    ==> modes@[j].vrefresh <= modes@[k as int].vrefresh
                            &&& forall|j: int|
                                k < j < n && (#[trigger] modes@[j]).has_size(w, h)
                                    ==> modes@[j].vrefresh < modes@[k as int].vrefresh
                        },
                        None => forall|j: int|
                            0 <= j < n ==> !(#[trigger] modes@[j]).has_size(w, h),
                    },
                decreases modes.len() - n,
            {
                if modes[n].is_of_size(w, h) {
                    let better = match best {
                        Some(k) => modes[n].vrefresh >= modes[k].vrefresh,
                        None => true,
                    };
                    if better {
                        best = Some(n);
                    }
                }
                n += 1;
            }
            match best {
                Some(k) => Some(k),
                None => pick_preferred_mode(modes),
            }
        },
        OutputMode::SizeRefresh(w, h, hz) => {
            let mut i: usize = 0;
            while i < modes.len()
                invariant
                    i <= modes@.len(),
                    *wanted == OutputMode::SizeRefresh(w, h, hz),
                    forall|j: int|
                        0 <= j < i ==> !((#[trigger] modes@[j]).has_size(w, h)
                            && modes@[j].vrefresh == hz),
                decreases modes.len() - i,
            {
                if modes[i].is_of_size(w, h) && modes[i].vrefresh == hz {
                    return Some(i);
                }
                i += 1;
            }
            pick_preferred_mode(modes)
        },
    }
}

/// How a display is connected.
#[derive(Clone, Copy, Debug, PartialEq, Eq, Structural)]
pub enum Interface {
    DviI,
    DviD,
    DviA,
    SVideo,
    DisplayPort,
    HdmiA,
    HdmiB,
    EmbeddedDisplayPort,
    Vga,
    Other,
}

/// What a kind of connector is called.
pub open spec fn interface_name(interface: Interface) -> Seq<char> {
    match interface {
        Interface::DviI => "DVI-I"@,
        Interface::DviD => "DVI-D"@,
        Interface::DviA => "DVI-A"@,
        Interface::SVideo => "S-Video"@,
        Interface::DisplayPort => "DP"@,
        Interface::HdmiA => "HDMI-A"@,
        Interface::HdmiB => "HDMI-B"@,
        Interface::EmbeddedDisplayPort => "eDP"@,
        Interface::Vga => "VGA"@,
        Interface::Other => "Unknown"@,
    }
}

/// What a kind of connector is called.
pub fn connector_type_name(interface: Interface) -> (r: &'static str)
    ensures
        r@ == interface_name(interface),
{
    match interface {
        Interface::DviI => "DVI-I",
        Interface::DviD => "DVI-D",
        Interface::DviA => "DVI-A",
        Interface::SVideo => "S-Video",
        Interface::DisplayPort => "DP",
        Interface::HdmiA => "HDMI-A",
        Interface::HdmiB => "HDMI-B",
        Interface::EmbeddedDisplayPort => "eDP",
        Interface::Vga => "VGA",
        Interface::Other => "Unknown",
    }
}

/// The name of the output at a connector.
pub fn connector_name(interface: Interface, id: u32) -> (r: String)
    ensures
        r@ == interface_name(interface) + "-"@ + decimal(id as nat),
{
    let number = to_decimal(id as usize);
    join3(connector_type_name(interface), "-", number.as_str())
}

/// The entry of an output in a configuration: the first of its name.
pub open spec fn output_named(configs: Seq<OutputConfig>, name: Seq<char>) -> Option<OutputConfig>
    decreases configs.len(),
{
    if configs.len() == 0 {
        None
    } else if configs[0].name@ == name {
        Some(configs[0])
    } else {
        output_named(configs.skip(1), name)
    }
}

proof fn first_is_named(configs: Seq<OutputConfig>, name: Seq<char>, k: int)
    requires
        0 <= k < configs.len(),
        configs[k].name@ == name,
        forall|j: int| 0 <= j < k ==> (#[trigger] configs[j]).name@ != name,
    ensures
        output_named(configs, name) == Some(configs[k]),
    decreases k,
{
    if k > 0 {
        assert(configs[0].name@ != name);
        let rest = configs.skip(1);
        assert(rest[k - 1] == configs[k]);
        assert forall|j: int| 0 <= j < k - 1 implies (#[trigger] rest[j]).name@ != name by {
            assert(rest[j] == configs[j + 1]);
        }
        first_is_named(rest, name, k - 1);
    }
}

proof fn none_is_named(configs: Seq<OutputConfig>, name: Seq<char>)
    requires
        forall|j: int| 0 <= j < configs.len() ==> (#[trigger] configs[j]).name@ != name,
    ensures
        output_named(configs, name) is None,
    decreases configs.len(),
{
    if configs.len() > 0 {
        assert(configs[0].name@ != name);
        let rest = configs.skip(1);
        assert forall|j: int| 0 <= j < rest.len() implies (#[trigger] rest[j]).name@ != name by {
            assert(rest[j] == configs[j + 1]);
        }
        none_is_named(rest, name);
    }
}

/// Widths side by side.
pub open spec fn side_by_side(widths: Seq<i32>) -> int
    decreases widths.len(),
{
    if widths.len() == 0 {
        0
    } else {
        clamp_i32(side_by_side(widths.drop_last()) + widths.last())
    }
}

fn total_width(widths: &[i32]) -> (r: i32)
    ensures
        r == side_by_side(widths@),
{
    let mut sum: i32 = 0;
    let mut i: usize = 0;
    while i < widths.len()
        invariant
            i <= widths@.len(),
            sum == side_by_side(widths@.take(i as int)),
        decreases widths.len() - i,
    {
        assert(widths@.take(i + 1).drop_last() =~= widths@.take(i as int));
        sum = saturating_sum(sum, widths[i]);
        i += 1;
    }
    assert(widths@.take(i as int) =~= widths@);
    sum
}

/// How a new output runs.
#[derive(Clone, Copy, Debug)]
pub struct OutputSettings {
    /// The place of its mode among those of the display.
    pub mode: usize,
    pub size: Size,
    /// In thousandths of a frame per second.
    pub refresh: i32,
    /// In millionths.
    pub scale: i64,
    pub transform: Transform,
    pub layout_position: Point,
    /// Its first viewpoint: the origin of the canvas in the middle.
    pub camera: CanvasPos,
}

/// The mode that a configuration wants of an output.
pub open spec fn wanted_mode(entry: Option<OutputConfig>) -> OutputMode {
    match entry {
        Some(c) => c.mode,
        None => OutputMode::Preferred,
    }
}

/// Whether settings are those of an output with this entry in the
/// configuration. An output without a place goes to the right of the others.
pub open spec fn are_settings(
    entry: Option<OutputConfig>,
    default_scale: i64,
    modes: Seq<DisplayMode>,
    widths: Seq<i32>,
    s: OutputSettings,
) -> bool {
    let mode = modes[s.mode as int];
    let turned = s.transform.turned(s.size);
    &&& is_chosen_mode(modes, wanted_mode(entry), s.mode as int)
    &&& s.size == (Size { w: mode.width as i32, h: mode.height as i32 })
    &&& s.refresh == mode.vrefresh * 1000
    &&& s.scale == match entry {
        Some(c) if c.scale is Some => c.scale->0,
        _ => default_scale,
    }
    &&& s.transform == match entry {
        Some(c) if c.transform is Some => c.transform->0,
        _ => Transform::Normal,
    }
    &&& s.layout_position == match entry {
        Some(c) if c.position is Fixed => match c.position {
            OutputPosition::Fixed(x, y) => Point { x, y },
            OutputPosition::Auto => Point { x: 0, y: 0 },
        },
        _ => Point { x: side_by_side(widths) as i32, y: 0 },
    }
    &&& s.camera.x == centering(0, 0, turned.w as int)
    &&& s.camera.y == centering(0, 0, turned.h as int)
}

/// How a new output runs: as its entry in the configuration says. `widths` are
/// those of the outputs that are there already. There are no settings where
/// the display has no modes.
pub fn create_surface(config: &Config, name: &str, modes: &[DisplayMode], widths: &[i32]) -> (r: Option<
    OutputSettings,
>)
    requires
        forall|k: int| 0 <= k < modes@.len() ==> (#[trigger] modes@[k]).vrefresh <= 2_147_483,
    ensures
        match r {
            Some(s) => are_settings(
                output_named(config.output_configs@, name@),
                config.output_scale,
                modes@,
                widths@,
                s,
            ),
            None => modes@.len() == 0,
        },
{
    let entry = config.output_config(name);
    proof {
        let all = config.output_configs@;
        match entry {
            Some(c) => {
                let k = choose|k: int| #![trigger all[k]]
                    0 <= k < all.len() && all[k] == *c && c.name@ == name@ && forall|j: int|
                        0 <= j < k ==> (#[trigger] all[j]).name@ != name@;
                first_is_named(all, name@, k);
            },
            None => none_is_named(all, name@),
        }
    }
    let (wanted, scale, transform, position) = match entry {
        Some(c) => (
            c.mode,
            match c.scale {
                Some(s) => s,
                None => config.output_scale,
            },
            match c.transform {
                Some(t) => t,
                None => Transform::Normal,
            },
            c.position,
        ),
        None => (
            OutputMode::Preferred,
            config.output_scale,
            Transform::Normal,
            OutputPosition::Auto,
        ),
    };
    let mode: usize = match pick_mode_for_config(modes, &wanted) {
        Some(k) => k,
        None => {
            return None;
        },
    };
    let m = modes[mode];
    assert(modes@[mode as int].vrefresh <= 2_147_483);
    let size = Size { w: m.width as i32, h: m.height as i32 };
    let layout_position = match position {
        OutputPosition::Fixed(x, y) => Point { x, y },
        OutputPosition::Auto => Point { x: total_width(widths), y: 0 },
    };
    Some(
        OutputSettings {
            mode,
            size,
            refresh: (m.vrefresh * 1000) as i32,
            scale,
            transform,
            layout_position,
            camera: home_camera(transform.transform_size(size)),
        },
    )
}

/// What a display says of itself.
pub struct DisplayInfo {
    pub make: String,
    pub model: String,
    pub serial_number: String,
}

/// What is known of a display: what it says, or the name of its connector as
/// the model of an unknown make.
pub fn display_info(
    make: Option<String>,
    model: Option<String>,
    serial_number: Option<String>,
    connector_name: &str,
) -> (r: DisplayInfo)
    ensures
        r.make@ == if make is Some {
            make->0@
        } else {
            "Unknown"@
        },
        r.model@ == if model is Some {
            model->0@
        } else {
            connector_name@
        },
        r.serial_number@ == if serial_number is Some {
            serial_number->0@
        } else {
            ""@
        },
{
    DisplayInfo {
        make: match make {
            Some(s) => s,
            None => String::from_str("Unknown"),
        },
        model: match model {
            Some(s) => s,
            None => String::from_str(connector_name),
        },
        serial_number: match serial_number {
            Some(s) => s,
            None => String::from_str(""),
        },
    }
}

/// How an output is described to people.
pub fn describe_output(make: &str, model: &str, name: &str) -> (r: String)
    ensures
        r@ == make@ + " "@ + model@ + " ("@ + name@ + ")"@,
{
    let mut s = join3(make, " ", model);
    s.append(" (");
    s.append(name);
    s.append(")");
    s
}

/// A mode as clients see it.
#[derive(Clone, Copy, Debug, PartialEq, Eq, Structural)]
pub struct ModeInfo {
    pub width: i32,
    pub height: i32,
    /// In thousandths of a frame per second.
    pub refresh: i32,
    pub preferred: bool,
}

/// A mode as clients see it.
pub open spec fn mode_seen(m: DisplayMode) -> ModeInfo {
    ModeInfo {
        width: m.width as i32,
        height: m.height as i32,
        refresh: (m.vrefresh * 1000) as i32,
        preferred: m.preferred,
    }
}

/// The modes of a display as clients see them, and the place of the one it
/// runs in: the first with the same size and rate.
pub fn collect_modes(modes: &[DisplayMode], size: Size, refresh: i32) -> (r: (
    Vec<ModeInfo>,
    Option<usize>,
))
    requires
        forall|k: int| 0 <= k < modes@.len() ==> (#[trigger] modes@[k]).vrefresh <= 2_147_483,
    ensures
        r.0@ == modes@.map_values(|m: DisplayMode| mode_seen(m)),
        match r.1 {
            Some(k) => {
                &&& k < modes@.len()
                &&& runs_in(r.0@[k as int], size, refresh)
                &&& forall|j: int| 0 <= j < k ==> !runs_in(#[trigger] r.0@[j], size, refresh)
            },
            None => forall|j: int|
                0 <= j < modes@.len() ==> !runs_in(#[trigger] r.0@[j], size, refresh),
        },
{
    let mut infos: Vec<ModeInfo> = Vec::new();
    let mut current: Option<usize> = None;
    let mut i: usize = 0;
    while i < modes.len()
        invariant
            i <= modes@.len(),
            forall|k: int| 0 <= k < modes@.len() ==> (#[trigger] modes@[k]).vrefresh <= 2_147_483,
            infos@.len() == i,
            forall|j: int| 0 <= j < i ==> #[trigger] infos@[j] == mode_seen(modes@[j]),
            match current {
                Some(k) => {
                    &&& k < i
                    &&& runs_in(infos@[k as int], size, refresh)
                    &&& forall|j: int| 0 <= j < k ==> !runs_in(#[trigger] infos@[j], size, refresh)
                },
                None => forall|j: int|
                    0 <= j < i ==> !runs_in(#[trigger] infos@[j], size, refresh),
            },
        decreases modes.len() - i,
    {
        let m = modes[i];
        assert(modes@[i as int].vrefresh <= 2_147_483);
        let info = ModeInfo {
            width: m.width as i32,
            height: m.height as i32,
            refresh: (m.vrefresh as i32) * 1000,
            preferred: m.preferred,
        };
        if current.is_none() && info.width == size.w && info.height == size.h && info.refresh
            == refresh {
            current = Some(i);
        }
        infos.push(info);
        i += 1;
    }
    assert(infos@ =~= modes@.map_values(|m: DisplayMode| mode_seen(m)));
    (infos, current)
}

/// Whether an output runs in a mode.
pub open spec fn runs_in(m: ModeInfo, size: Size, refresh: i32) -> bool {
    m.width == size.w && m.height == size.h && m.refresh == refresh
}

/// The graphics cards to try, by path: the primary one first, then the others,
/// each once.
pub open spec fn cards(primary: Option<String>, devices: Seq<String>) -> Seq<Seq<char>>
    decreases devices.len(),
{
    if devices.len() == 0 {
        if primary is Some {
            seq![primary->0@]
        } else {
            seq![]
        }
    } else {
        let before = cards(primary, devices.drop_last());
        if before.contains(devices.last()@) {
            before
        } else {
            before.push(devices.last()@)
        }
    }
}

/// Paths as characters.
pub open spec fn paths(list: Seq<String>) -> Seq<Seq<char>> {
    list.map_values(|s: String| s@)
}

fn is_listed(list: &Vec<String>, text: &str) -> (r: bool)
    ensures
        r == paths(list@).contains(text@),
{
    let mut i: usize = 0;
    while i < list.len()
        invariant
            i <= list@.len(),
            forall|j: int| 0 <= j < i ==> (#[trigger] list@[j])@ != text@,
        decreases list.len() - i,
    {
        if same_text(list[i].as_str(), text) {
            assert(paths(list@)[i as int] == text@);
            return true;
        }
        i += 1;
    }
    assert forall|j: int| 0 <= j < paths(list@).len() implies paths(list@)[j] != text@ by {
        assert(paths(list@)[j] == list@[j]@);
    }
    false
}

/// The graphics cards to try, by path: the primary one first, then the others,
/// each once.
pub fn gpu_candidates(primary: Option<String>, devices: Vec<String>) -> (r: Vec<String>)
    ensures
        paths(r@) == cards(primary, devices@),
{
    let ghost given = primary;
    let ghost all = devices@;
    let mut list: Vec<String> = Vec::new();
    if let Some(p) = primary {
        list.push(p);
    }
    let mut rest = devices;
    let ghost mut done: int = 0;
    assert(paths(list@) =~= cards(given, all.take(0)));
    while rest.len() > 0
        invariant
            0 <= done <= all.len(),
            rest@ == all.skip(done),
            paths(list@) == cards(given, all.take(done)),
        decreases rest.len(),
    {
        let path = rest.remove(0);
        assert(path == all[done]);
        assert(all.take(done + 1).drop_last() =~= all.take(done));
        let ghost before = paths(list@);
        if !is_listed(&list, path.as_str()) {
            list.push(path);
            assert(paths(list@) =~= before.push(path@));
        }
        proof {
            done = done + 1;
        }
        assert(rest@ =~= all.skip(done));
    }
    assert(all.take(done) =~= all);
    list
}

/// Every card is tried, the primary one first, and none twice.
pub proof fn cards_are_tried_once(primary: Option<String>, devices: Seq<String>, k: int)
    ensures
        cards(primary, devices).no_duplicates(),
        primary is Some ==> cards(primary, devices).len() > 0 && cards(primary, devices)[0]
            == primary->0@,
        0 <= k < devices.len() ==> cards(primary, devices).contains(devices[k]@),
    decreases devices.len(),
{
    if devices.len() > 0 {
        let front = devices.drop_last();
        cards_are_tried_once(primary, front, k);
        let before = cards(primary, front);
        let all = cards(primary, devices);
        if 0 <= k < devices.len() {
            if k == devices.len() - 1 {
                if !before.contains(devices.last()@) {
                    assert(all[before.len() as int] == devices[k]@);
                }
            } else {
                assert(front[k] == devices[k]);
                let i = choose|i: int| 0 <= i < before.len() && before[i] == devices[k]@;
                assert(all[i] == devices[k]@);
            }
        }
    }
}

} // verus!
