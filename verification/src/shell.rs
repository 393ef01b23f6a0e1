//! The life of a window: where it appears, what its rule makes of it, who
//! decorates it, and what is left of it when it is gone.

use crate::config::types::{AppliedWindowRule, DecorationMode, WindowRule};
use crate::config::Config;
use crate::desk::{retain_others, Desk, ExecCursor};
use crate::geometry::{Point, Rect, Size};
use crate::grabs::CursorIcon;
use crate::units::{saturate_i32, saturating_sum};
use std::collections::HashSet;
use vstd::prelude::*;

verus! {

use crate::config::first_rule;
use crate::desk::{without, DeskView};
use crate::units::clamp_i32;

broadcast use vstd::std_specs::hash::group_hash_axioms;

/// Windows on their way: by number.
pub struct Shell {
    /// Windows that are placed once their size is known.
    pub pending_center: HashSet<u64>,
    /// Windows that the compositor decorates.
    pub pending_ssd: HashSet<u64>,
    /// Windows whose decoration exists.
    pub decorated: HashSet<u64>,
}

/// Windows on their way, as sets.
#[verifier::ext_equal]
pub struct ShellView {
    pub pending_center: Set<u64>,
    pub pending_ssd: Set<u64>,
    pub decorated: Set<u64>,
}

impl View for Shell {
    type V = ShellView;

    open spec fn view(&self) -> ShellView {
        ShellView {
            pending_center: self.pending_center@,
            pending_ssd: self.pending_ssd@,
            decorated: self.decorated@,
        }
    }
}

/// The rule of an application, if one matches.
pub open spec fn rule_for(config: Config, app_id: Option<Seq<char>>) -> Option<WindowRule> {
    match app_id {
        Some(id) => match first_rule(config.window_rules@, id, config.window_rules@.len()) {
            Some(k) => Some(config.window_rules@[k]),
            None => None,
        },
        None => None,
    }
}

/// Half of a length, towards zero.
pub open spec fn half(v: int) -> int {
    if v >= 0 {
        v / 2
    } else {
        -((-v) / 2)
    }
}

/// The top left corner of a window whose middle is at a place with y upwards.
pub open spec fn corner_of(middle: (i32, i32), size: Size) -> Point {
    Point {
        x: clamp_i32(middle.0 - half(size.w as int)) as i32,
        y: clamp_i32(-middle.1 - half(size.h as int)) as i32,
    }
}

/// Where a window appears: where its rule says, else in the middle of the
/// viewport, else at the origin.
pub open spec fn appears_at(rule: Option<WindowRule>, size: Size, middle: Option<Point>) -> Point {
    match rule {
        Some(r) if r.position is Some => corner_of(r.position->0, size),
        _ => match middle {
            Some(m) => Point {
                x: clamp_i32(m.x - half(size.w as int)) as i32,
                y: clamp_i32(m.y - half(size.h as int)) as i32,
            },
            None => Point { x: 0, y: 0 },
        },
    }
}

/// Whether a rule pins a window.
pub open spec fn pins(rule: Option<WindowRule>) -> bool {
    rule matches Some(r) && r.widget
}

/// Whether a rule keeps a window out of the focus history.
pub open spec fn keeps_unfocused(rule: Option<WindowRule>) -> bool {
    rule matches Some(r) && (r.widget || r.no_focus)
}

fn halved(v: i32) -> (r: i32)
    ensures
        r == half(v as int),
        -0x4000_0000 <= r <= 0x4000_0000,
{
    if v >= 0 {
        v / 2
    } else {
        let w: i64 = -(v as i64);
        -((w / 2) as i32)
    }
}

/// The top left corner of something whose middle is at a place with y upwards.
pub fn corner_from_middle(middle: (i32, i32), size: Size) -> (r: Point)
    ensures
        r == corner_of(middle, size),
{
    Point {
        x: saturate_i32(middle.0 as i64 - halved(size.w) as i64),
        y: saturate_i32(-(middle.1 as i64) - halved(size.h) as i64),
    }
}

/// A window that a rule places has its middle there, up to half a pixel.
pub proof fn rule_places_the_middle(middle: (i32, i32), size: Size)
    requires
        size.w >= 0,
        size.h >= 0,
        i32::MIN <= middle.0 - half(size.w as int),
        i32::MIN <= -middle.1 - half(size.h as int),
        -middle.1 - half(size.h as int) <= i32::MAX,
    ensures
        ({
            let at = corner_of(middle, size);
            &&& 2 * middle.0 <= 2 * at.x + size.w <= 2 * middle.0 + 1
            &&& 2 * -middle.1 <= 2 * at.y + size.h <= 2 * -middle.1 + 1
        }),
{
}

fn place(rule: Option<&WindowRule>, size: Size, middle: Option<Point>) -> (r: Point)
    ensures
        r == appears_at(
            match rule {
                Some(w) => Some(*w),
                None => None,
            },
            size,
            middle,
        ),
{
    if let Some(w) = rule {
        if let Some(position) = w.position {
            return corner_from_middle(position, size);
        }
    }
    match middle {
        Some(m) => Point {
            x: saturate_i32(m.x as i64 - halved(size.w) as i64),
            y: saturate_i32(m.y as i64 - halved(size.h) as i64),
        },
        None => Point { x: 0, y: 0 },
    }
}

fn find_rule<'a>(config: &'a Config, app_id: Option<&str>) -> (r: Option<&'a WindowRule>)
    ensures
        match r {
            Some(w) => rule_for(*config, seen_text(app_id)) == Some(*w),
            None => rule_for(*config, seen_text(app_id)) is None,
        },
{
    match app_id {
        Some(id) => config.match_window_rule(id),
        None => None,
    }
}

/// An optional text as characters.
pub open spec fn seen_text(s: Option<&str>) -> Option<Seq<char>> {
    match s {
        Some(t) => Some(t@),
        None => None,
    }
}

/// What is done with a window that appears.
#[derive(Clone, Copy, Debug)]
pub struct Placement {
    pub at: Point,
    /// Whether it becomes the active window.
    pub activate: bool,
    /// The rule that stays with it.
    pub rule: Option<AppliedWindowRule>,
    /// Whether it is told that the compositor decorates it.
    pub force_server_side: bool,
    /// Whether pinned windows have to be put below the others.
    pub lower_widgets: bool,
    /// The window that gets the keyboard back.
    pub refocus: Option<u64>,
    /// Whether the viewport goes to it.
    pub navigate: bool,
    /// The width of a decoration to create.
    pub decorate: Option<i32>,
    /// Whether the waiting cursor goes away.
    pub clear_exec_cursor: bool,
}

/// Whether a rule has the compositor announced as decorator.
pub open spec fn forces_server_side(rule: Option<WindowRule>) -> bool {
    rule matches Some(r) && r.decoration != DecorationMode::Client
}

/// Whether a window gets a decoration when it appears.
pub open spec fn gets_decoration(shell: ShellView, rule: Option<WindowRule>, window: u64) -> bool {
    &&& shell.pending_ssd.contains(window) || forces_server_side(rule)
    &&& !(rule matches Some(r) && r.decoration == DecorationMode::Off)
    &&& !shell.decorated.contains(window)
}

/// The focus history after a window has appeared.
pub open spec fn history_after(history: Seq<u64>, rule: Option<WindowRule>, window: u64) -> Seq<u64> {
    if keeps_unfocused(rule) {
        without(history, window)
    } else {
        history
    }
}

/// What is done with a window that appears.
pub open spec fn placement<V>(
    shell: ShellView,
    desk: DeskView<V>,
    rule: Option<WindowRule>,
    window: u64,
    size: Size,
    middle: Option<Point>,
) -> Placement {
    let history = history_after(desk.focus_history, rule, window);
    Placement {
        at: appears_at(rule, size, middle),
        activate: !pins(rule),
        rule: match rule {
            Some(r) => Some(r.kept()),
            None => None,
        },
        force_server_side: forces_server_side(rule),
        lower_widgets: pins(rule),
        refocus: if keeps_unfocused(rule) && history.len() > 0 {
            Some(history[0])
        } else {
            None
        },
        navigate: rule matches Some(r) && r.position is Some && !r.widget && !r.no_focus,
        decorate: if gets_decoration(shell, rule, window) {
            Some(size.w)
        } else {
            None
        },
        clear_exec_cursor: desk.exec_cursor is Some,
    }
}

impl Shell {
    /// No window is on its way.
    pub fn new() -> (r: Shell)
        ensures
            r@ == (ShellView {
                pending_center: Set::empty(),
                pending_ssd: Set::empty(),
                decorated: Set::empty(),
            }),
    {
        Shell {
            pending_center: HashSet::new(),
            pending_ssd: HashSet::new(),
            decorated: HashSet::new(),
        }
    }

    /// Takes a new window. It is placed when its size is known.
    pub fn new_toplevel(&mut self, window: u64)
        ensures
            final(self)@ == (ShellView {
                pending_center: old(self)@.pending_center.insert(window),
                ..old(self)@
            }),
    {
        self.pending_center.insert(window);
    }

    /// Takes a commit of a window. One that waits for its place gets it as soon
    /// as it has a size. `middle` is the middle of the viewport on the canvas.
    pub fn commit_window<V: Copy>(
        &mut self,
        desk: &mut Desk<V>,
        config: &Config,
        window: u64,
        app_id: Option<&str>,
        size: Size,
        middle: Option<Point>,
    ) -> (r: Option<Placement>)
        ensures
            ({
                let before = old(self)@;
                let rule = rule_for(*config, seen_text(app_id));
                if before.pending_center.contains(window) && size.w > 0 && size.h > 0 {
                    &&& r == Some(placement(before, old(desk)@, rule, window, size, middle))
                    &&& final(self)@ == (ShellView {
                        pending_center: before.pending_center.remove(window),
                        pending_ssd: if forces_server_side(rule) {
                            before.pending_ssd.insert(window)
                        } else {
                            before.pending_ssd
                        },
                        decorated: if gets_decoration(before, rule, window) {
                            before.decorated.insert(window)
                        } else {
                            before.decorated
                        },
                    })
                    &&& final(desk)@ == (DeskView {
                        focus_history: history_after(old(desk)@.focus_history, rule, window),
                        exec_cursor: None,
                        ..old(desk)@
                    })
                } else {
                    r is None && final(self)@ == before && final(desk)@ == old(desk)@
                }
            }),
    {
        if !self.pending_center.contains(&window) || size.w <= 0 || size.h <= 0 {
            return None;
        }
        self.pending_center.remove(&window);
        let rule = find_rule(config, app_id);
        let at = place(rule, size, middle);
        let mut activate = true;
        let mut kept: Option<AppliedWindowRule> = None;
        let mut force_server_side = false;
        let mut undecorated = false;
        let mut refocus: Option<u64> = None;
        let mut navigate = false;
        if let Some(w) = rule {
            activate = !w.widget;
            kept = Some(AppliedWindowRule::from(w));
            undecorated = w.decoration == DecorationMode::Off;
            if w.decoration != DecorationMode::Client {
                force_server_side = true;
                self.pending_ssd.insert(window);
            }
            if w.widget || w.no_focus {
                retain_others(&mut desk.focus_history, window);
                if desk.focus_history.len() > 0 {
                    refocus = Some(desk.focus_history[0]);
                }
            }
            navigate = w.position.is_some() && !w.widget && !w.no_focus;
        }
        let mut decorate: Option<i32> = None;
        if self.pending_ssd.contains(&window) && !undecorated && !self.decorated.contains(&window) {
            self.decorated.insert(window);
            decorate = Some(size.w);
        }
        let clear_exec_cursor = desk.exec_cursor.is_some();
        desk.exec_cursor = None;
        Some(
            Placement {
                at,
                activate,
                rule: kept,
                force_server_side,
                lower_widgets: !activate,
                refocus,
                navigate,
                decorate,
                clear_exec_cursor,
            },
        )
    }

    /// Takes what a client wants of its decoration. `width` is that of its
    /// window, once it is there. Returns the width of a decoration to create.
    pub fn request_mode(&mut self, window: u64, server_side: bool, width: Option<i32>) -> (r: Option<
        i32,
    >)
        ensures
            ({
                let before = old(self)@;
                let creates = server_side && !before.decorated.contains(window) && (
                width matches Some(w) && w > 0);
                &&& r == if creates {
                    width
                } else {
                    None
                }
                &&& final(self)@ == (ShellView {
                    pending_center: before.pending_center,
                    pending_ssd: if server_side {
                        before.pending_ssd.insert(window)
                    } else {
                        before.pending_ssd.remove(window)
                    },
                    decorated: if creates {
                        before.decorated.insert(window)
                    } else if server_side {
                        before.decorated
                    } else {
                        before.decorated.remove(window)
                    },
                })
            }),
    {
        if server_side {
            self.pending_ssd.insert(window);
            if let Some(w) = width {
                if w > 0 && !self.decorated.contains(&window) {
                    self.decorated.insert(window);
                    return Some(w);
                }
            }
        } else {
            self.pending_ssd.remove(&window);
            self.decorated.remove(&window);
        }
        None
    }

    fn forget(&mut self, window: u64)
        ensures
            final(self)@ == old(self)@.forgotten(window),
    {
        self.decorated.remove(&window);
        self.pending_ssd.remove(&window);
        self.pending_center.remove(&window);
    }

    /// Forgets a window that is gone. `mapped` says whether it was on the
    /// canvas. Returns the viewpoint to restore where it filled the screen.
    pub fn toplevel_destroyed<V: Copy>(&mut self, desk: &mut Desk<V>, window: u64, mapped: bool) -> (r:
        Option<V>)
        ensures
            final(self)@ == old(self)@.forgotten(window),
            mapped ==> left_by(old(desk)@, window, true) == (final(desk)@, r),
            !mapped ==> final(desk)@ == old(desk)@ && r is None,
    {
        self.forget(window);
        if mapped {
            desk.remove_window(window)
        } else {
            None
        }
    }

    /// Forgets an X11 window that is gone from the canvas. Returns the
    /// viewpoint to restore where it filled the screen.
    pub fn x11_unmapped<V: Copy>(&mut self, desk: &mut Desk<V>, window: u64, has_surface: bool) -> (r:
        Option<V>)
        ensures
            final(self)@ == if has_surface {
                old(self)@.forgotten(window)
            } else {
                old(self)@
            },
            left_by(old(desk)@, window, false) == (final(desk)@, r),
    {
        if has_surface {
            self.forget(window);
        }
        let restored = match desk.fullscreen {
            Some(fs) => if fs.window == window {
                desk.fullscreen = None;
                Some(fs.saved_view)
            } else {
                None
            },
            None => None,
        };
        retain_others(&mut desk.focus_history, window);
        restored
    }
}

impl ShellView {
    /// What is on its way without a window.
    pub open spec fn forgotten(self, window: u64) -> ShellView {
        ShellView {
            pending_center: self.pending_center.remove(window),
            pending_ssd: self.pending_ssd.remove(window),
            decorated: self.decorated.remove(window),
        }
    }
}

/// A desk that a window has left, and the viewpoint that comes back. The place
/// in a cycle is kept within the history where `cycle` says so.
pub open spec fn left_by<V>(desk: DeskView<V>, window: u64, cycle: bool) -> (DeskView<V>, Option<V>) {
    let history = without(desk.focus_history, window);
    let filled = desk.fullscreen matches Some(fs) && fs.window == window;
    (
        DeskView {
            focus_history: history,
            cycle_state: match desk.cycle_state {
                Some(i) if cycle => if history.len() == 0 {
                    None
                } else if i >= history.len() {
                    Some((history.len() - 1) as usize)
                } else {
                    Some(i)
                },
                other => other,
            },
            fullscreen: if filled {
                None
            } else {
                desk.fullscreen
            },
            ..desk
        },
        if filled {
            Some(desk.fullscreen->0.saved_view)
        } else {
            None
        },
    )
}

/// Nothing of a window is left when it is gone: it is not in the history, does
/// not fill the screen, and is not on its way.
pub proof fn gone_windows_leave_nothing<V>(shell: ShellView, desk: DeskView<V>, window: u64, cycle: bool)
    ensures
        !left_by(desk, window, cycle).0.focus_history.contains(window),
        left_by(desk, window, cycle).0.fullscreen matches Some(fs) ==> fs.window != window,
        !shell.forgotten(window).pending_center.contains(window),
        !shell.forgotten(window).pending_ssd.contains(window),
        !shell.forgotten(window).decorated.contains(window),
{
    crate::desk::without_holds_the_others(desk.focus_history, window, window);
}

/// A window whose rule pins it or keeps the focus away is not in the focus
/// history once it has appeared.
pub proof fn unfocused_windows_are_not_remembered(history: Seq<u64>, rule: WindowRule, window: u64)
    requires
        rule.widget || rule.no_focus,
    ensures
        !history_after(history, Some(rule), window).contains(window),
{
    crate::desk::without_holds_the_others(history, window, window);
}

/// Where an X11 window appears, and whether it becomes the active one. Its
/// size is known from the start.
pub fn x11_placement(config: &Config, class: &str, size: Size, middle: Option<Point>) -> (r: (
    Point,
    bool,
))
    ensures
        ({
            let rule = rule_for(*config, Some(class@));
            r == (appears_at(rule, size, middle), !pins(rule))
        }),
{
    let rule = find_rule(config, Some(class));
    let activate = match rule {
        Some(w) => !w.widget,
        None => true,
    };
    (place(rule, size, middle), activate)
}

/// What is done with an X11 window that has got its surface.
#[derive(Clone, Copy, Debug)]
pub struct X11Association {
    /// The rule that stays with it.
    pub rule: Option<AppliedWindowRule>,
    /// The width of a decoration to create.
    pub decorate: Option<i32>,
    /// The window that gets the keyboard.
    pub focus: Option<u64>,
}

/// Whether an X11 window gets a decoration.
pub open spec fn x11_gets_decoration(
    shell: ShellView,
    rule: Option<WindowRule>,
    window: u64,
    wants_ssd: bool,
    width: i32,
) -> bool {
    &&& wants_ssd || (rule matches Some(r) && r.decoration == DecorationMode::Server)
    &&& !(rule matches Some(r) && r.decoration == DecorationMode::Off)
    &&& width > 0
    &&& !shell.decorated.contains(window)
}

impl Shell {
    /// Takes an X11 window that has got its surface. It is focused unless its
    /// rule forbids; then the window used last is.
    pub fn surface_associated<V: Copy>(
        &mut self,
        desk: &mut Desk<V>,
        config: &Config,
        window: u64,
        class: &str,
        wants_ssd: bool,
        width: i32,
    ) -> (r: X11Association)
        ensures
            ({
                let before = old(self)@;
                let rule = rule_for(*config, Some(class@));
                let decorates = x11_gets_decoration(before, rule, window, wants_ssd, width);
                let history = history_after(old(desk)@.focus_history, rule, window);
                &&& r == (X11Association {
                    rule: match rule {
                        Some(w) => Some(w.kept()),
                        None => None,
                    },
                    decorate: if decorates {
                        Some(width)
                    } else {
                        None
                    },
                    focus: if !keeps_unfocused(rule) {
                        Some(window)
                    } else if history.len() > 0 {
                        Some(history[0])
                    } else {
                        None
                    },
                })
                &&& final(self)@ == (ShellView {
                    pending_center: before.pending_center,
                    pending_ssd: if decorates {
                        before.pending_ssd.insert(window)
                    } else {
                        before.pending_ssd
                    },
                    decorated: if decorates {
                        before.decorated.insert(window)
                    } else {
                        before.decorated
                    },
                })
                &&& final(desk)@ == (DeskView { focus_history: history, ..old(desk)@ })
            }),
    {
        let rule = find_rule(config, Some(class));
        let mut kept: Option<AppliedWindowRule> = None;
        let mut forced = false;
        let mut undecorated = false;
        let mut focuses = true;
        if let Some(w) = rule {
            kept = Some(AppliedWindowRule::from(w));
            forced = w.decoration == DecorationMode::Server;
            undecorated = w.decoration == DecorationMode::Off;
            focuses = !w.widget && !w.no_focus;
        }
        let mut decorate: Option<i32> = None;
        if (wants_ssd || forced) && !undecorated && width > 0 && !self.decorated.contains(&window) {
            self.decorated.insert(window);
            self.pending_ssd.insert(window);
            decorate = Some(width);
        }
        let mut focus: Option<u64> = Some(window);
        if !focuses {
            retain_others(&mut desk.focus_history, window);
            focus =
            if desk.focus_history.len() > 0 {
                Some(desk.focus_history[0])
            } else {
                None
            };
        }
        X11Association { rule: kept, decorate, focus }
    }
}

/// A geometry with the parts that an X11 client asks for.
pub open spec fn requested(
    old_geo: Rect,
    x: Option<i32>,
    y: Option<i32>,
    w: Option<u32>,
    h: Option<u32>,
) -> Rect {
    Rect {
        loc: Point {
            x: if x is Some {
                x->0
            } else {
                old_geo.loc.x
            },
            y: if y is Some {
                y->0
            } else {
                old_geo.loc.y
            },
        },
        size: Size {
            w: if w is Some {
                w->0 as i32
            } else {
                old_geo.size.w
            },
            h: if h is Some {
                h->0 as i32
            } else {
                old_geo.size.h
            },
        },
    }
}

/// Takes what an X11 client asks for. Returns its new geometry, and where the
/// window goes on the canvas: as far as the geometry has moved. `location` is
/// where it is there.
pub fn configure_request(
    old_geo: Rect,
    x: Option<i32>,
    y: Option<i32>,
    w: Option<u32>,
    h: Option<u32>,
    location: Option<Point>,
) -> (r: (Rect, Option<Point>))
    ensures
        r.0 == requested(old_geo, x, y, w, h),
        r.1 == ({
            let dx = clamp_i32(r.0.loc.x - old_geo.loc.x);
            let dy = clamp_i32(r.0.loc.y - old_geo.loc.y);
            match location {
                Some(at) if dx != 0 || dy != 0 => Some(
                    Point {
                        x: clamp_i32(at.x + dx) as i32,
                        y: clamp_i32(at.y + dy) as i32,
                    },
                ),
                _ => None,
            }
        }),
{
    let mut geo = old_geo;
    if let Some(v) = w {
        geo.size.w = v as i32;
    }
    if let Some(v) = h {
        geo.size.h = v as i32;
    }
    if let Some(v) = x {
        geo.loc.x = v;
    }
    if let Some(v) = y {
        geo.loc.y = v;
    }
    let dx: i32 = saturate_i32(geo.loc.x as i64 - old_geo.loc.x as i64);
    let dy: i32 = saturate_i32(geo.loc.y as i64 - old_geo.loc.y as i64);
    let to = match location {
        Some(at) => if dx != 0 || dy != 0 {
            Some(Point { x: saturating_sum(at.x, dx), y: saturating_sum(at.y, dy) })
        } else {
            None
        },
        None => None,
    };
    (geo, to)
}

/// The cursor that a client asks for.
#[derive(Clone, Copy, Debug, PartialEq, Eq, Structural)]
pub enum CursorImage {
    Hidden,
    Named(CursorIcon),
    /// A surface of the client.
    Surface(u64),
}

/// What becomes of a cursor that a client asks for: nothing while the
/// compositor has the cursor, and the waiting cursor in place of the default
/// one while a program starts.
pub open spec fn cursor_for(
    current: CursorImage,
    image: CursorImage,
    held: bool,
    exec: Option<ExecCursor>,
    now: u64,
) -> CursorImage {
    if held {
        current
    } else if image == CursorImage::Named(CursorIcon::Default) && (exec matches Some(e) && now
        >= e.show_at) {
        CursorImage::Named(CursorIcon::Wait)
    } else {
        image
    }
}

/// Decides the cursor when a client asks for one. `held` says whether a drag or
/// a decoration has it.
pub fn cursor_image(
    current: CursorImage,
    image: CursorImage,
    held: bool,
    exec: Option<ExecCursor>,
    now: u64,
) -> (r: CursorImage)
    ensures
        r == cursor_for(current, image, held, exec, now),
{
    if held {
        return current;
    }
    if let Some(e) = exec {
        if now >= e.show_at {
            if let CursorImage::Named(CursorIcon::Default) = image {
                return CursorImage::Named(CursorIcon::Wait);
            }
        }
    }
    image
}

/// Milliseconds before the waiting cursor appears.
pub const EXEC_CURSOR_GRACE_MS: u64 = 150;

/// Milliseconds after which the waiting cursor is given up.
pub const EXEC_CURSOR_TIMEOUT_MS: u64 = 5000;

/// Takes a token with which a program will be activated. One that comes from
/// input shows the waiting cursor for a while.
pub fn token_created<V>(desk: &mut Desk<V>, has_serial: bool, now: u64)
    requires
        now + EXEC_CURSOR_TIMEOUT_MS <= u64::MAX,
    ensures
        final(desk)@ == (DeskView {
            exec_cursor: if has_serial {
                Some(
                    ExecCursor {
                        show_at: (now + EXEC_CURSOR_GRACE_MS) as u64,
                        deadline: (now + EXEC_CURSOR_TIMEOUT_MS) as u64,
                    },
                )
            } else {
                old(desk)@.exec_cursor
            },
            ..old(desk)@
        }),
{
    if has_serial {
        desk.exec_cursor =
        Some(
            ExecCursor {
                show_at: now + EXEC_CURSOR_GRACE_MS,
                deadline: now + EXEC_CURSOR_TIMEOUT_MS,
            },
        );
    }
}

/// What becomes of a request to activate a window.
#[derive(Clone, Copy, Debug, PartialEq, Eq, Structural)]
pub enum Activation {
    Ignore,
    RaiseAndFocus(u64),
    Navigate(u64),
}

/// Decides what becomes of a request to activate a window. Only one that comes
/// from input counts, and only for a window that may have the focus.
pub fn request_activation(has_serial: bool, no_focus: bool, window: Option<u64>, mostly_visible: bool) -> (r:
    Activation)
    ensures
        r == match window {
            Some(w) if has_serial && !no_focus => if mostly_visible {
                Activation::RaiseAndFocus(w)
            } else {
                Activation::Navigate(w)
            },
            _ => Activation::Ignore,
        },
{
    if !has_serial || no_focus {
        return Activation::Ignore;
    }
    match window {
        Some(w) => if mostly_visible {
            Activation::RaiseAndFocus(w)
        } else {
            Activation::Navigate(w)
        },
        None => Activation::Ignore,
    }
}

/// Whether a client may drag or resize its window by itself: the window is on
/// the canvas and not pinned, and the button went down on the client.
pub fn may_grab(widget: bool, mapped: bool, pressed_on_client: bool) -> (r: bool)
    ensures
        r == (!widget && mapped && pressed_on_client),
{
    !widget && mapped && pressed_on_client
}

/// Whether a popup is denied its grab: the keyboard is grabbed, by neither it
/// nor its parent. `previous` says whether the parent's grab holds the
/// keyboard, where there is a parent.
pub fn popup_grab_denied(grabbed: bool, holds_serial: bool, previous: Option<bool>) -> (r: bool)
    ensures
        r == (grabbed && !holds_serial && previous == Some(false)),
{
    if !grabbed || holds_serial {
        return false;
    }
    match previous {
        Some(holds) => !holds,
        None => false,
    }
}

} // verus!
