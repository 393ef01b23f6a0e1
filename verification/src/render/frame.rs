//! The pieces of a frame: which windows are in sight, what is drawn for each,
//! and in which order everything lies.

use crate::config::types::{DecorationConfig, DecorationMode};
use crate::geometry::{Point, Rect, Size};
use crate::session::SessionLock;
use crate::units::saturating_sum;
use vstd::prelude::*;

verus! {

use crate::units::clamp_i32;

/// What of the drawing is switched on.
#[derive(Clone, Copy, Debug, PartialEq, Eq, Structural)]
pub struct RenderOptions {
    /// The part of the canvas that is in sight.
    pub visible: Rect,
    /// Whether corners can be clipped.
    pub corner_clip: bool,
    pub corner_radius: i32,
    /// Whether shadows can be drawn.
    pub shadows: bool,
    /// Whether what is behind a window can be blurred.
    pub blur: bool,
}

/// A window as far as drawing looks at it.
#[derive(Clone, Copy, Debug, PartialEq, Eq, Structural)]
pub struct WindowInfo {
    pub id: u64,
    pub location: Point,
    /// Its content within its buffer.
    pub geometry: Rect,
    /// Everything it draws, seen from its buffer.
    pub bbox: Rect,
    pub fullscreen: bool,
    /// Whether the compositor decorates it.
    pub decorated: bool,
    /// What its rule says of decorations.
    pub decoration_rule: Option<DecorationMode>,
    pub widget: bool,
    /// Whether its rule blurs what is behind it.
    pub blur: bool,
}

impl WindowInfo {
    /// Whether its decoration is drawn.
    pub open spec fn framed(self) -> bool {
        !self.fullscreen && self.decorated
    }
}

/// The area of a window on the canvas with all that is drawn around it.
pub open spec fn drawn_area(w: WindowInfo) -> Rect {
    let x = clamp_i32(w.bbox.loc.x + clamp_i32(w.location.x - w.geometry.loc.x));
    let y = clamp_i32(w.bbox.loc.y + clamp_i32(w.location.y - w.geometry.loc.y));
    if w.framed() {
        let r = DecorationConfig::SHADOW_RADIUS;
        let bar = DecorationConfig::TITLE_BAR_HEIGHT;
        Rect {
            loc: Point { x: clamp_i32(x - r) as i32, y: clamp_i32(y - (bar + r)) as i32 },
            size: Size {
                w: clamp_i32(w.bbox.size.w + 2 * r) as i32,
                h: clamp_i32(w.bbox.size.h + (bar + 2 * r)) as i32,
            },
        }
    } else {
        Rect { loc: Point { x: x as i32, y: y as i32 }, size: w.bbox.size }
    }
}

fn area_of(w: &WindowInfo) -> (r: Rect)
    ensures
        r == drawn_area(*w),
{
    let dx: i32 = crate::units::saturate_i32(w.location.x as i64 - w.geometry.loc.x as i64);
    let dy: i32 = crate::units::saturate_i32(w.location.y as i64 - w.geometry.loc.y as i64);
    let x: i32 = saturating_sum(w.bbox.loc.x, dx);
    let y: i32 = saturating_sum(w.bbox.loc.y, dy);
    if !w.fullscreen && w.decorated {
        let r: i32 = DecorationConfig::SHADOW_RADIUS;
        let bar: i32 = DecorationConfig::TITLE_BAR_HEIGHT;
        Rect {
            loc: Point { x: saturating_sum(x, -r), y: saturating_sum(y, -(bar + r)) },
            size: Size {
                w: saturating_sum(w.bbox.size.w, 2 * r),
                h: saturating_sum(w.bbox.size.h, bar + 2 * r),
            },
        }
    } else {
        Rect { loc: Point { x, y }, size: w.bbox.size }
    }
}

/// How the corners of a window's own surface are cut.
#[derive(Clone, Copy, Debug, PartialEq, Eq, Structural)]
pub enum Clip {
    Plain,
    /// The bottom corners, to go with the title bar.
    Bottom,
    /// All corners, and the shadow that the client draws.
    All,
}

/// What is drawn for a window.
#[derive(Clone, Copy, Debug, PartialEq, Eq, Structural)]
pub struct WindowPlan {
    /// A title bar above it.
    pub title_bar: bool,
    pub clip: Clip,
    /// A shadow behind it.
    pub shadow: Option<Size>,
    /// Whether what is behind it is blurred.
    pub blur: bool,
}

/// What is drawn for a window, where any of it is in sight. A client that
/// draws a frame of its own around its content has the corners cut and gets a
/// shadow, unless a rule has taken its decorations away.
pub open spec fn window_plan(o: RenderOptions, w: WindowInfo) -> Option<WindowPlan> {
    if !o.visible.meets(drawn_area(w)) {
        None
    } else {
        let rounds = o.corner_clip && o.corner_radius > 0;
        let own_frame = rounds && (w.geometry.loc.x > 0 || w.geometry.loc.y > 0) && !(
        w.decoration_rule matches Some(m) && m != DecorationMode::Client);
        let r = DecorationConfig::SHADOW_RADIUS;
        let bar = DecorationConfig::TITLE_BAR_HEIGHT;
        Some(
            WindowPlan {
                title_bar: w.framed(),
                clip: if w.framed() {
                    if rounds {
                        Clip::Bottom
                    } else {
                        Clip::Plain
                    }
                } else if own_frame {
                    Clip::All
                } else {
                    Clip::Plain
                },
                shadow: if !o.shadows {
                    None
                } else if w.framed() {
                    Some(
                        Size {
                            w: clamp_i32(w.geometry.size.w + 2 * r) as i32,
                            h: clamp_i32(w.geometry.size.h + (bar + 2 * r)) as i32,
                        },
                    )
                } else if own_frame {
                    Some(
                        Size {
                            w: clamp_i32(w.geometry.size.w + 2 * r) as i32,
                            h: clamp_i32(w.geometry.size.h + 2 * r) as i32,
                        },
                    )
                } else {
                    None
                },
                blur: o.blur && w.blur,
            },
        )
    }
}

/// Decides what is drawn for a window. Nothing is where it is out of sight.
pub fn plan_window(o: &RenderOptions, w: &WindowInfo) -> (r: Option<WindowPlan>)
    ensures
        r == window_plan(*o, *w),
{
    let area = area_of(w);
    if !o.visible.overlaps(&area) {
        return None;
    }
    let framed = !w.fullscreen && w.decorated;
    let rounds = o.corner_clip && o.corner_radius > 0;
    let stripped = match w.decoration_rule {
        Some(m) => m != DecorationMode::Client,
        None => false,
    };
    let own_frame = rounds && (w.geometry.loc.x > 0 || w.geometry.loc.y > 0) && !stripped;
    let clip = if framed {
        if rounds {
            Clip::Bottom
        } else {
            Clip::Plain
        }
    } else if own_frame {
        Clip::All
    } else {
        Clip::Plain
    };
    let r: i32 = DecorationConfig::SHADOW_RADIUS;
    let bar: i32 = DecorationConfig::TITLE_BAR_HEIGHT;
    let shadow = if !o.shadows {
        None
    } else if framed {
        Some(
            Size {
                w: saturating_sum(w.geometry.size.w, 2 * r),
                h: saturating_sum(w.geometry.size.h, bar + 2 * r),
            },
        )
    } else if own_frame {
        Some(
            Size {
                w: saturating_sum(w.geometry.size.w, 2 * r),
                h: saturating_sum(w.geometry.size.h, 2 * r),
            },
        )
    } else {
        None
    };
    Some(WindowPlan { title_bar: framed, clip, shadow, blur: o.blur && w.blur })
}

/// A window that fills the screen has no decoration drawn around it.
pub proof fn fullscreen_windows_are_bare(o: RenderOptions, w: WindowInfo)
    requires
        w.fullscreen,
    ensures
        window_plan(o, w) matches Some(p) ==> !p.title_bar && p.clip != Clip::Bottom,
{
}

/// The group of pieces that a blurred surface is in.
#[derive(Clone, Copy, Debug, PartialEq, Eq, Structural)]
pub enum BlurLayer {
    Overlay,
    Top,
    Normal,
    Widget,
}

/// A surface behind which the frame is blurred.
#[derive(Clone, Copy, Debug, PartialEq, Eq, Structural)]
pub struct BlurRequest {
    pub surface: u64,
    /// Where it is on the screen.
    pub screen_rect: Rect,
    /// Where its pieces begin in their group.
    pub elem_start: usize,
    /// How many pieces it has, without a shadow.
    pub elem_count: usize,
    pub layer: BlurLayer,
}

/// The windows of a frame, top first.
pub struct Scene<T> {
    pub normal: Vec<T>,
    /// Pinned windows, which lie below canvas layers.
    pub widgets: Vec<T>,
    pub blur_requests: Vec<BlurRequest>,
}

/// The windows of a frame, as sequences.
#[verifier::ext_equal]
pub struct SceneView<T> {
    pub normal: Seq<T>,
    pub widgets: Seq<T>,
    pub blur_requests: Seq<BlurRequest>,
}

impl<T> View for Scene<T> {
    type V = SceneView<T>;

    open spec fn view(&self) -> SceneView<T> {
        SceneView {
            normal: self.normal@,
            widgets: self.widgets@,
            blur_requests: self.blur_requests@,
        }
    }
}

/// A scene with a window added below the others. Its pieces are the title bar
/// and its surfaces, and a shadow last.
pub open spec fn with_window<T>(
    scene: SceneView<T>,
    id: u64,
    widget: bool,
    body: Seq<T>,
    shadow: Seq<T>,
    blur: Option<Rect>,
) -> SceneView<T> {
    let start = if widget {
        scene.widgets.len()
    } else {
        scene.normal.len()
    };
    SceneView {
        normal: if widget {
            scene.normal
        } else {
            scene.normal + body + shadow
        },
        widgets: if widget {
            scene.widgets + body + shadow
        } else {
            scene.widgets
        },
        blur_requests: match blur {
            Some(screen_rect) => scene.blur_requests.push(
                BlurRequest {
                    surface: id,
                    screen_rect,
                    elem_start: start as usize,
                    elem_count: body.len() as usize,
                    layer: if widget {
                        BlurLayer::Widget
                    } else {
                        BlurLayer::Normal
                    },
                },
            ),
            None => scene.blur_requests,
        },
    }
}

/// The pieces of something that may be missing.
pub open spec fn pieces_of<T>(piece: Option<T>) -> Seq<T> {
    match piece {
        Some(p) => seq![p],
        None => seq![],
    }
}

impl<T> Scene<T> {
    /// A frame without windows.
    pub fn new() -> (r: Scene<T>)
        ensures
            r@ == (SceneView::<T> { normal: seq![], widgets: seq![], blur_requests: seq![] }),
    {
        Scene { normal: Vec::new(), widgets: Vec::new(), blur_requests: Vec::new() }
    }

    /// Adds the pieces of a window below those that are there. `blur` is where
    /// the window is on the screen, if what is behind it is blurred.
    pub fn push_window(
        &mut self,
        id: u64,
        widget: bool,
        body: Vec<T>,
        shadow: Option<T>,
        blur: Option<Rect>,
    )
        ensures
            final(self)@ == with_window(
                old(self)@,
                id,
                widget,
                body@,
                pieces_of(shadow),
                blur,
            ),
    {
        let elem_count: usize = body.len();
        let mut body = body;
        let ghost pieces = body@;
        let ghost last = pieces_of(shadow);
        let elem_start: usize = if widget {
            self.widgets.len()
        } else {
            self.normal.len()
        };
        if widget {
            self.widgets.append(&mut body);
            if let Some(s) = shadow {
                self.widgets.push(s);
            }
            assert(self.widgets@ =~= old(self)@.widgets + pieces + last);
        } else {
            self.normal.append(&mut body);
            if let Some(s) = shadow {
                self.normal.push(s);
            }
            assert(self.normal@ =~= old(self)@.normal + pieces + last);
        }
        if let Some(screen_rect) = blur {
            let layer = if widget {
                BlurLayer::Widget
            } else {
                BlurLayer::Normal
            };
            self.blur_requests.push(
                BlurRequest { surface: id, screen_rect, elem_start, elem_count, layer },
            );
        }
    }
}

/// The layer surfaces of one layer, top first.
pub struct LayerGroup<T> {
    pub elements: Vec<T>,
    pub blur_requests: Vec<BlurRequest>,
}

impl<T> LayerGroup<T> {
    /// A layer without surfaces.
    pub fn new() -> (r: LayerGroup<T>)
        ensures
            r.elements@ == Seq::<T>::empty(),
            r.blur_requests@ == Seq::<BlurRequest>::empty(),
    {
        LayerGroup { elements: Vec::new(), blur_requests: Vec::new() }
    }

    /// Adds the pieces of a surface below those that are there. `blur` is where
    /// the surface is on the screen, if what is behind it is blurred.
    pub fn push_surface(&mut self, id: u64, pieces: Vec<T>, blur: Option<Rect>, layer: BlurLayer)
        ensures
            final(self).elements@ == old(self).elements@ + pieces@,
            final(self).blur_requests@ == match blur {
                Some(screen_rect) => old(self).blur_requests@.push(
                    BlurRequest {
                        surface: id,
                        screen_rect,
                        elem_start: old(self).elements@.len() as usize,
                        elem_count: pieces@.len() as usize,
                        layer,
                    },
                ),
                None => old(self).blur_requests@,
            },
    {
        let elem_start: usize = self.elements.len();
        let elem_count: usize = pieces.len();
        let mut pieces = pieces;
        self.elements.append(&mut pieces);
        if let Some(screen_rect) = blur {
            self.blur_requests.push(
                BlurRequest { surface: id, screen_rect, elem_start, elem_count, layer },
            );
        }
    }
}

/// Everything of a frame but the windows.
pub struct FrameGroups<T> {
    pub cursor: Vec<T>,
    /// Menus and tooltips of X11 clients.
    pub override_redirect: Vec<T>,
    pub overlay: LayerGroup<T>,
    pub top: LayerGroup<T>,
    pub canvas_layers: Vec<T>,
    pub bottom: Vec<T>,
    /// Where other outputs look.
    pub outlines: Vec<T>,
    pub background: Vec<T>,
    pub background_layer: Vec<T>,
}

/// A frame, top first.
pub struct Frame<T> {
    pub elements: Vec<T>,
    pub blur_requests: Vec<BlurRequest>,
    pub prefixes: Prefixes,
}

/// Where the groups begin that may hold blurred surfaces.
#[derive(Clone, Copy, Debug, PartialEq, Eq, Structural)]
pub struct Prefixes {
    pub overlay: usize,
    pub top: usize,
    pub normal: usize,
    pub widget: usize,
}

/// Everything of a frame, top first. The bars of the screen are not there
/// while a window fills it.
pub open spec fn layered<T>(g: FrameGroups<T>, s: SceneView<T>, fullscreen: bool) -> Seq<T> {
    let top = if fullscreen {
        seq![]
    } else {
        g.top.elements@
    };
    let bottom = if fullscreen {
        seq![]
    } else {
        g.bottom@
    };
    g.cursor@ + g.override_redirect@ + g.overlay.elements@ + top + s.normal + g.canvas_layers@
        + s.widgets + bottom + g.outlines@ + g.background@ + g.background_layer@
}

/// The blurred surfaces of a frame, top first.
pub open spec fn blurred<T>(g: FrameGroups<T>, s: SceneView<T>, fullscreen: bool) -> Seq<BlurRequest> {
    g.overlay.blur_requests@ + (if fullscreen {
        seq![]
    } else {
        g.top.blur_requests@
    }) + s.blur_requests
}

/// Where the groups of a frame begin.
pub open spec fn group_starts<T>(g: FrameGroups<T>, s: SceneView<T>, fullscreen: bool) -> (
    int,
    int,
    int,
    int,
) {
    let overlay = (g.cursor@.len() + g.override_redirect@.len()) as int;
    let top = overlay + g.overlay.elements@.len();
    let normal = top + if fullscreen {
        0
    } else {
        g.top.elements@.len() as int
    };
    let widget = normal + s.normal.len() + g.canvas_layers@.len();
    (overlay, top, normal, widget)
}

/// The pieces of an output's lock surface; there are none without one.
pub open spec fn lock_pieces<T>(surface: Option<Vec<T>>) -> Seq<T> {
    match surface {
        Some(pieces) => pieces@,
        None => seq![],
    }
}

/// Puts a frame together. Unless the session is unlocked, an output shows its
/// lock surface and nothing else, and nothing at all as long as it has none.
/// `surface` holds the pieces of that surface.
pub fn compose_frame<T>(
    groups: FrameGroups<T>,
    scene: Scene<T>,
    fullscreen: bool,
    lock: SessionLock,
    surface: Option<Vec<T>>,
) -> (r: Frame<T>)
    ensures
        lock != SessionLock::Unlocked ==> {
            &&& r.elements@ == lock_pieces(surface)
            &&& r.blur_requests@ == Seq::<BlurRequest>::empty()
            &&& r.prefixes == (Prefixes { overlay: 0, top: 0, normal: 0, widget: 0 })
        },
        lock == SessionLock::Unlocked ==> {
            let (overlay, top, normal, widget) = group_starts(groups, scene@, fullscreen);
            &&& r.elements@ == layered(groups, scene@, fullscreen)
            &&& r.blur_requests@ == blurred(groups, scene@, fullscreen)
            &&& r.prefixes.overlay == overlay
            &&& r.prefixes.top == top
            &&& r.prefixes.normal == normal
            &&& r.prefixes.widget == widget
        },
{
    if lock != SessionLock::Unlocked {
        let elements: Vec<T> = match surface {
            Some(pieces) => pieces,
            None => Vec::new(),
        };
        return Frame {
            elements,
            blur_requests: Vec::new(),
            prefixes: Prefixes { overlay: 0, top: 0, normal: 0, widget: 0 },
        };
    }
    let ghost g = groups;
    let ghost s = scene@;
    let mut groups = groups;
    let mut scene = scene;
    let mut elements: Vec<T> = Vec::new();
    let mut blur_requests: Vec<BlurRequest> = Vec::new();
    elements.append(&mut groups.cursor);
    elements.append(&mut groups.override_redirect);
    let overlay: usize = elements.len();
    elements.append(&mut groups.overlay.elements);
    blur_requests.append(&mut groups.overlay.blur_requests);
    let top: usize = elements.len();
    if !fullscreen {
        elements.append(&mut groups.top.elements);
        blur_requests.append(&mut groups.top.blur_requests);
    }
    let normal: usize = elements.len();
    elements.append(&mut scene.normal);
    elements.append(&mut groups.canvas_layers);
    let widget: usize = elements.len();
    elements.append(&mut scene.widgets);
    if !fullscreen {
        elements.append(&mut groups.bottom);
    }
    elements.append(&mut groups.outlines);
    elements.append(&mut groups.background);
    elements.append(&mut groups.background_layer);
    blur_requests.append(&mut scene.blur_requests);
    assert(elements@ =~= layered(g, s, fullscreen));
    assert(blur_requests@ =~= blurred(g, s, fullscreen));
    Frame { elements, blur_requests, prefixes: Prefixes { overlay, top, normal, widget } }
}

/// A piece of a window lies, in the frame, as far behind the beginning of its
/// group as it lies in the scene.
pub proof fn groups_begin_where_they_should<T>(
    g: FrameGroups<T>,
    s: SceneView<T>,
    fullscreen: bool,
    k: int,
)
    ensures
        ({
            let all = layered(g, s, fullscreen);
            let (overlay, top, normal, widget) = group_starts(g, s, fullscreen);
            &&& 0 <= k < g.overlay.elements@.len() ==> all[overlay + k] == g.overlay.elements@[k]
            &&& 0 <= k < g.top.elements@.len() && !fullscreen ==> all[top + k]
                == g.top.elements@[k]
            &&& 0 <= k < s.normal.len() ==> all[normal + k] == s.normal[k]
            &&& 0 <= k < s.widgets.len() ==> all[widget + k] == s.widgets[k]
        }),
{
}

} // verus!
