//! The values of the configuration file that are written as text.

use crate::config::types::{
    DecorationConfig, DecorationMode, OutputConfig, OutputMode, OutputPosition, Transform,
    WindowRule,
};
use crate::text::{cut_at, join3, read_i32, read_u32, same_text, to_decimal};
use vstd::prelude::*;

verus! {

use crate::text::{cut, decimal, signed, unsigned};

/// The value of a hexadecimal digit.
pub open spec fn hex_digit(c: char) -> Option<int> {
    if '0' <= c <= '9' {
        Some(c as int - '0' as int)
    } else if 'a' <= c <= 'f' {
        Some(c as int - 'a' as int + 10)
    } else if 'A' <= c <= 'F' {
        Some(c as int - 'A' as int + 10)
    } else {
        None
    }
}

/// The value of two characters: two digits, or a plus sign and one digit.
pub open spec fn hex_pair(a: char, b: char) -> Option<int> {
    match (hex_digit(a), hex_digit(b)) {
        (Some(x), Some(y)) => Some(16 * x + y),
        (None, Some(y)) => if a == '+' {
            Some(y)
        } else {
            None
        },
        _ => None,
    }
}

/// The color that a text names: `#` and six or eight hexadecimal digits. Six
/// digits make it opaque.
pub open spec fn color(s: Seq<char>) -> Option<(int, int, int, int)> {
    if (s.len() == 7 || s.len() == 9) && s[0] == '#' {
        let alpha = if s.len() == 7 {
            Some(0xFFint)
        } else {
            hex_pair(s[7], s[8])
        };
        match (hex_pair(s[1], s[2]), hex_pair(s[3], s[4]), hex_pair(s[5], s[6]), alpha) {
            (Some(r), Some(g), Some(b), Some(a)) => Some((r, g, b, a)),
            _ => None,
        }
    } else {
        None
    }
}

/// Four color components as numbers.
pub open spec fn components(c: [u8; 4]) -> (int, int, int, int) {
    (c@[0] as int, c@[1] as int, c@[2] as int, c@[3] as int)
}

fn hex_value(c: char) -> (r: Option<u8>)
    ensures
        match r {
            Some(v) => hex_digit(c) == Some(v as int) && v < 16,
            None => hex_digit(c) is None,
        },
{
    if '0' <= c && c <= '9' {
        Some((c as u32 - '0' as u32) as u8)
    } else if 'a' <= c && c <= 'f' {
        Some((c as u32 - 'a' as u32) as u8 + 10)
    } else if 'A' <= c && c <= 'F' {
        Some((c as u32 - 'A' as u32) as u8 + 10)
    } else {
        None
    }
}

fn hex_byte(a: char, b: char) -> (r: Option<u8>)
    ensures
        match r {
            Some(v) => hex_pair(a, b) == Some(v as int),
            None => hex_pair(a, b) is None,
        },
{
    match hex_value(b) {
        Some(y) => match hex_value(a) {
            Some(x) => Some(16 * x + y),
            None => if a == '+' {
                Some(y)
            } else {
                None
            },
        },
        None => None,
    }
}

/// Reads a color: `#RRGGBB` or `#RRGGBBAA`.
pub fn parse_color(s: &str) -> (r: Option<[u8; 4]>)
    ensures
        match r {
            Some(c) => color(s@) == Some(components(c)),
            None => color(s@) is None,
        },
{
    let n: usize = s.unicode_len();
    if n != 7 && n != 9 {
        return None;
    }
    if s.get_char(0) != '#' {
        return None;
    }
    let red = hex_byte(s.get_char(1), s.get_char(2));
    let green = hex_byte(s.get_char(3), s.get_char(4));
    let blue = hex_byte(s.get_char(5), s.get_char(6));
    let alpha = if n == 7 {
        Some(0xFFu8)
    } else {
        hex_byte(s.get_char(7), s.get_char(8))
    };
    match (red, green, blue, alpha) {
        (Some(r), Some(g), Some(b), Some(a)) => Some([r, g, b, a]),
        _ => None,
    }
}

/// The decoration colors of a configuration file, as written.
#[derive(Clone, Debug)]
pub struct DecorationFileConfig {
    pub bg_color: Option<String>,
    pub fg_color: Option<String>,
}

/// The color that a setting stands for: the one it names, else the default.
pub open spec fn color_or(s: Option<String>, default: (int, int, int, int)) -> (int, int, int, int) {
    match s {
        Some(text) => match color(text@) {
            Some(c) => c,
            None => default,
        },
        None => default,
    }
}

fn resolve_color(s: &Option<String>, default: [u8; 4]) -> (r: [u8; 4])
    ensures
        components(r) == color_or(*s, components(default)),
{
    match s {
        Some(text) => match parse_color(text.as_str()) {
            Some(c) => c,
            None => default,
        },
        None => default,
    }
}

/// Reads the decoration colors. What is missing or does not name a color takes
/// the default.
pub fn parse_decoration_config(raw: DecorationFileConfig) -> (r: DecorationConfig)
    ensures
        components(r.bg_color) == color_or(raw.bg_color, (0x30, 0x30, 0x30, 0xFF)),
        components(r.fg_color) == color_or(raw.fg_color, (0xFF, 0xFF, 0xFF, 0xFF)),
        r.corner_radius == 8,
{
    let defaults = DecorationConfig::default();
    DecorationConfig {
        bg_color: resolve_color(&raw.bg_color, defaults.bg_color),
        fg_color: resolve_color(&raw.fg_color, defaults.fg_color),
        corner_radius: defaults.corner_radius,
    }
}

/// The transform that a name stands for.
pub open spec fn transform_named(s: Seq<char>) -> Option<Transform> {
    if s == "normal"@ {
        Some(Transform::Normal)
    } else if s == "90"@ {
        Some(Transform::Rotated90)
    } else if s == "180"@ {
        Some(Transform::Rotated180)
    } else if s == "270"@ {
        Some(Transform::Rotated270)
    } else if s == "flipped"@ {
        Some(Transform::Flipped)
    } else if s == "flipped-90"@ {
        Some(Transform::Flipped90)
    } else if s == "flipped-180"@ {
        Some(Transform::Flipped180)
    } else if s == "flipped-270"@ {
        Some(Transform::Flipped270)
    } else {
        None
    }
}

/// Reads the name of a transform.
pub fn parse_transform(s: &str) -> (r: Result<Transform, String>)
    ensures
        match r {
            Ok(t) => transform_named(s@) == Some(t),
            Err(e) => transform_named(s@) is None && e@ == "unknown transform '"@ + s@ + "'"@,
        },
{
    if same_text(s, "normal") {
        Ok(Transform::Normal)
    } else if same_text(s, "90") {
        Ok(Transform::Rotated90)
    } else if same_text(s, "180") {
        Ok(Transform::Rotated180)
    } else if same_text(s, "270") {
        Ok(Transform::Rotated270)
    } else if same_text(s, "flipped") {
        Ok(Transform::Flipped)
    } else if same_text(s, "flipped-90") {
        Ok(Transform::Flipped90)
    } else if same_text(s, "flipped-180") {
        Ok(Transform::Flipped180)
    } else if same_text(s, "flipped-270") {
        Ok(Transform::Flipped270)
    } else {
        Err(join3("unknown transform '", s, "'"))
    }
}

/// What a mode text means: `preferred`, a size such as `1920x1080`, or a size
/// with a refresh rate such as `2560x1440@144`; or the text of the complaint.
pub open spec fn mode_named(s: Seq<char>) -> Result<OutputMode, Seq<char>> {
    if s == "preferred"@ {
        Ok(OutputMode::Preferred)
    } else {
        let (size, rate) = match cut(s, '@') {
            Some((a, b)) => (a, Some(b)),
            None => (s, None),
        };
        match cut(size, 'x') {
            None => Err("invalid mode '"@ + s + "', expected WxH or WxH@Hz"@),
            Some((w, h)) => match (signed(w), signed(h), rate) {
                (None, _, _) => Err("invalid width in mode '"@ + s + "'"@),
                (_, None, _) => Err("invalid height in mode '"@ + s + "'"@),
                (Some(w), Some(h), None) => Ok(OutputMode::Size(w as i32, h as i32)),
                (Some(w), Some(h), Some(hz)) => match unsigned(hz) {
                    None => Err("invalid refresh rate in mode '"@ + s + "'"@),
                    Some(hz) => Ok(OutputMode::SizeRefresh(w as i32, h as i32, hz as u32)),
                },
            },
        }
    }
}

/// A result with its text as characters.
pub open spec fn outcome<T>(r: Result<T, String>) -> Result<T, Seq<char>> {
    match r {
        Ok(v) => Ok(v),
        Err(e) => Err(e@),
    }
}

/// Reads an output mode.
pub fn parse_output_mode(s: &str) -> (r: Result<OutputMode, String>)
    ensures
        outcome(r) == mode_named(s@),
{
    if same_text(s, "preferred") {
        return Ok(OutputMode::Preferred);
    }
    let (size, rate) = match cut_at(s, '@') {
        Some((a, b)) => (a, Some(b)),
        None => (s, None),
    };
    match cut_at(size, 'x') {
        None => Err(join3("invalid mode '", s, "', expected WxH or WxH@Hz")),
        Some((w, h)) => match read_i32(w) {
            None => Err(join3("invalid width in mode '", s, "'")),
            Some(w) => match read_i32(h) {
                None => Err(join3("invalid height in mode '", s, "'")),
                Some(h) => match rate {
                    None => Ok(OutputMode::Size(w, h)),
                    Some(hz) => match read_u32(hz) {
                        None => Err(join3("invalid refresh rate in mode '", s, "'")),
                        Some(hz) => Ok(OutputMode::SizeRefresh(w, h, hz)),
                    },
                },
            },
        },
    }
}

/// A position as the configuration file gives it: a text, a list whose entries
/// may be integers, or anything else.
#[derive(Clone, Debug)]
pub enum PositionValue {
    Text(String),
    List(Vec<Option<i64>>),
    Other,
}

/// What a position value means, or the text of the complaint.
pub open spec fn position_named(v: PositionValue) -> Result<OutputPosition, Seq<char>> {
    match v {
        PositionValue::Text(s) => if s@ == "auto"@ {
            Ok(OutputPosition::Auto)
        } else {
            Err("invalid position '"@ + s@ + "', expected \"auto\" or [x, y]"@)
        },
        PositionValue::List(list) => if list@.len() != 2 {
            Err("position array must have 2 elements, got "@ + decimal(list@.len()))
        } else {
            match (list@[0], list@[1]) {
                (None, _) => Err("position[0] must be an integer"@),
                (_, None) => Err("position[1] must be an integer"@),
                (Some(x), Some(y)) => Ok(OutputPosition::Fixed(x as i32, y as i32)),
            }
        },
        PositionValue::Other => Err("position must be \"auto\" or [x, y]"@),
    }
}

/// Reads an output position. Coordinates keep their low 32 bits.
pub fn parse_output_position(val: &PositionValue) -> (r: Result<OutputPosition, String>)
    ensures
        outcome(r) == position_named(*val),
{
    match val {
        PositionValue::Text(s) => if same_text(s.as_str(), "auto") {
            Ok(OutputPosition::Auto)
        } else {
            Err(join3("invalid position '", s.as_str(), "', expected \"auto\" or [x, y]"))
        },
        PositionValue::List(list) => {
            if list.len() != 2 {
                let mut e = String::from_str("position array must have 2 elements, got ");
                e.append(to_decimal(list.len()).as_str());
                return Err(e);
            }
            match (list[0], list[1]) {
                (None, _) => Err(String::from_str("position[0] must be an integer")),
                (_, None) => Err(String::from_str("position[1] must be an integer")),
                (Some(x), Some(y)) => Ok(
                    OutputPosition::Fixed(
                        #[verifier::truncate]
                        (x as i32),
                        #[verifier::truncate]
                        (y as i32),
                    ),
                ),
            }
        },
        PositionValue::Other => Err(String::from_str("position must be \"auto\" or [x, y]")),
    }
}

/// One output of a configuration file, as written. The scale is in millionths.
#[derive(Clone, Debug)]
pub struct OutputRuleFile {
    pub name: String,
    pub scale: Option<i64>,
    pub transform: Option<String>,
    pub position: Option<PositionValue>,
    pub mode: Option<String>,
}

/// Why an output entry is refused.
#[derive(Clone, Debug)]
pub enum OutputRuleError {
    /// The scale, in millionths, is not positive.
    Scale(i64),
    /// The transform, the position or the mode cannot be read.
    Invalid(String),
}

/// The first thing that is wrong with an output entry, looking at the scale,
/// the transform, the position and the mode in this order.
pub enum OutputRuleFault {
    Scale(i64),
    Invalid(Seq<char>),
}

impl View for OutputRuleError {
    type V = OutputRuleFault;

    open spec fn view(&self) -> OutputRuleFault {
        match self {
            OutputRuleError::Scale(s) => OutputRuleFault::Scale(*s),
            OutputRuleError::Invalid(e) => OutputRuleFault::Invalid(e@),
        }
    }
}

/// The transform of an output entry, or the complaint.
pub open spec fn rule_transform(r: OutputRuleFile) -> Result<Option<Transform>, Seq<char>> {
    match r.transform {
        None => Ok(None),
        Some(s) => match transform_named(s@) {
            Some(t) => Ok(Some(t)),
            None => Err("unknown transform '"@ + s@ + "'"@),
        },
    }
}

/// The position of an output entry, or the complaint.
pub open spec fn rule_position(r: OutputRuleFile) -> Result<OutputPosition, Seq<char>> {
    match r.position {
        None => Ok(OutputPosition::Auto),
        Some(v) => position_named(v),
    }
}

/// The mode of an output entry, or the complaint.
pub open spec fn rule_mode(r: OutputRuleFile) -> Result<OutputMode, Seq<char>> {
    match r.mode {
        None => Ok(OutputMode::Preferred),
        Some(s) => mode_named(s@),
    }
}

/// What is wrong with an output entry, if anything.
pub open spec fn rule_fault(r: OutputRuleFile) -> Option<OutputRuleFault> {
    if r.scale matches Some(s) && s <= 0 {
        Some(OutputRuleFault::Scale(r.scale->0))
    } else {
        match (rule_transform(r), rule_position(r), rule_mode(r)) {
            (Err(e), _, _) => Some(OutputRuleFault::Invalid(e)),
            (_, Err(e), _) => Some(OutputRuleFault::Invalid(e)),
            (_, _, Err(e)) => Some(OutputRuleFault::Invalid(e)),
            _ => None,
        }
    }
}

/// Whether `c` is what a faultless output entry says.
pub open spec fn is_output(r: OutputRuleFile, c: OutputConfig) -> bool {
    &&& c.name@ == r.name@
    &&& c.scale == r.scale
    &&& rule_transform(r) == Ok::<Option<Transform>, Seq<char>>(c.transform)
    &&& rule_position(r) == Ok::<OutputPosition, Seq<char>>(c.position)
    &&& rule_mode(r) == Ok::<OutputMode, Seq<char>>(c.mode)
}

/// Reads one output entry.
pub fn parse_output_rule(r: OutputRuleFile) -> (c: Result<OutputConfig, OutputRuleError>)
    ensures
        match c {
            Ok(config) => rule_fault(r) is None && is_output(r, config),
            Err(e) => rule_fault(r) == Some(e@),
        },
{
    if let Some(s) = r.scale {
        if s <= 0 {
            return Err(OutputRuleError::Scale(s));
        }
    }
    let transform = match &r.transform {
        None => None,
        Some(s) => match parse_transform(s.as_str()) {
            Ok(t) => Some(t),
            Err(e) => {
                return Err(OutputRuleError::Invalid(e));
            },
        },
    };
    let position = match &r.position {
        None => OutputPosition::Auto,
        Some(v) => match parse_output_position(v) {
            Ok(p) => p,
            Err(e) => {
                return Err(OutputRuleError::Invalid(e));
            },
        },
    };
    let mode = match &r.mode {
        None => OutputMode::Preferred,
        Some(s) => match parse_output_mode(s.as_str()) {
            Ok(m) => m,
            Err(e) => {
                return Err(OutputRuleError::Invalid(e));
            },
        },
    };
    Ok(OutputConfig { name: r.name, scale: r.scale, transform, position, mode })
}

/// One window rule of a configuration file, as written.
#[derive(Clone, Debug)]
pub struct WindowRuleFile {
    pub app_id: String,
    pub position: Option<(i32, i32)>,
    pub widget: bool,
    pub no_focus: bool,
    pub decoration: Option<String>,
    pub blur: bool,
    /// In millionths.
    pub opacity: Option<i64>,
}

/// The decoration mode that a setting stands for; client-side where nothing
/// known is said.
pub open spec fn decoration_named(s: Option<String>) -> DecorationMode {
    match s {
        Some(text) => if text@ == "none"@ {
            DecorationMode::Off
        } else if text@ == "server"@ {
            DecorationMode::Server
        } else {
            DecorationMode::Client
        },
        None => DecorationMode::Client,
    }
}

/// Whether `w` is what a rule entry says.
pub open spec fn is_rule(r: WindowRuleFile, w: WindowRule) -> bool {
    &&& w.app_id@ == r.app_id@
    &&& w.position == r.position
    &&& w.widget == r.widget
    &&& w.no_focus == r.no_focus
    &&& w.decoration == decoration_named(r.decoration)
    &&& w.blur == r.blur
    &&& w.opacity == r.opacity
}

/// Reads one window rule.
pub fn parse_window_rule(r: WindowRuleFile) -> (w: WindowRule)
    ensures
        is_rule(r, w),
{
    let decoration = match &r.decoration {
        Some(text) => if same_text(text.as_str(), "none") {
            DecorationMode::Off
        } else if same_text(text.as_str(), "server") {
            DecorationMode::Server
        } else {
            DecorationMode::Client
        },
        None => DecorationMode::Client,
    };
    WindowRule {
        app_id: r.app_id,
        position: r.position,
        widget: r.widget,
        no_focus: r.no_focus,
        decoration,
        blur: r.blur,
        opacity: r.opacity,
    }
}

/// A path with the home directory in place of a leading tilde. Without a home
/// directory, and where no slash follows the tilde, it stays as it is.
pub open spec fn expanded(path: Seq<char>, home: Option<Seq<char>>) -> Seq<char> {
    match home {
        Some(h) => if path.len() >= 2 && path[0] == '~' && path[1] == '/' {
            h + path.skip(1)
        } else {
            path
        },
        None => path,
    }
}

/// Writes the home directory out.
pub fn expand_tilde(path: &str, home: Option<&str>) -> (r: String)
    ensures
        r@ == expanded(path@, match home {
            Some(h) => Some(h@),
            None => None,
        }),
{
    if let Some(h) = home {
        let n: usize = path.unicode_len();
        if n >= 2 && path.get_char(0) == '~' && path.get_char(1) == '/' {
            proof {
                reveal_strlit("");
            }
            assert(h@ + ""@ + path@.skip(1) =~= h@ + path@.skip(1));
            return join3(h, "", path.substring_char(1, n));
        }
    }
    path.to_string()
}

} // verus!
