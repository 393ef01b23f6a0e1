//! Layer surfaces and popups: where they are, and who gets the keyboard.

use crate::geometry::{Point, Rect, Size};
use crate::shell::corner_from_middle;
use crate::units::saturate_i32;
use vstd::prelude::*;

verus! {

use crate::shell::corner_of;
use crate::units::clamp_i32;

/// Who takes a commit of a surface.
#[derive(Clone, Copy, Debug, PartialEq, Eq, Structural)]
pub enum CommitTaker {
    /// The session lock: it is in force now, and the surface is focused.
    Lock,
    /// A layer surface on the canvas.
    CanvasLayer,
    /// A layer surface of the screen; popups get it too.
    Layer,
    /// Popups, and a window that was never configured.
    Toplevel,
}

/// Decides who takes a commit of a surface after windows have seen it.
pub fn commit_taker(confirms_lock: bool, canvas_layer: bool, layer: bool) -> (r: CommitTaker)
    ensures
        r == if confirms_lock {
            CommitTaker::Lock
        } else if canvas_layer {
            CommitTaker::CanvasLayer
        } else if layer {
            CommitTaker::Layer
        } else {
            CommitTaker::Toplevel
        },
{
    if confirms_lock {
        CommitTaker::Lock
    } else if canvas_layer {
        CommitTaker::CanvasLayer
    } else if layer {
        CommitTaker::Layer
    } else {
        CommitTaker::Toplevel
    }
}

/// A layer surface that a rule puts on the canvas.
#[derive(Clone, Copy, Debug)]
pub struct CanvasLayer {
    pub surface: u64,
    /// The middle of it, y upwards.
    pub rule_position: (i32, i32),
    /// Its top left corner, once its size is known.
    pub position: Option<Point>,
}

/// What a layer surface needs after a commit.
#[derive(Clone, Copy, Debug, PartialEq, Eq, Structural)]
pub struct LayerNeeds {
    /// It is told to start.
    pub configure: bool,
    /// It gets the keyboard.
    pub focus: bool,
}

/// What a layer surface needs: the first time to be told to start, and the
/// keyboard if it wants it for itself and does not have it.
pub fn layer_needs(configured: bool, exclusive: bool, focused: bool) -> (r: LayerNeeds)
    ensures
        r == (LayerNeeds { configure: !configured, focus: exclusive && !focused }),
{
    LayerNeeds { configure: !configured, focus: exclusive && !focused }
}

/// The place of the first layer with a surface, among the first `n`.
pub open spec fn layer_of(layers: Seq<CanvasLayer>, surface: u64, n: nat) -> Option<int>
    decreases n,
{
    if n == 0 {
        None
    } else {
        match layer_of(layers, surface, (n - 1) as nat) {
            Some(k) => Some(k),
            None => if layers[n - 1].surface == surface {
                Some(n - 1)
            } else {
                None
            },
        }
    }
}

proof fn layer_of_stays(layers: Seq<CanvasLayer>, surface: u64, n: nat, m: nat)
    requires
        n <= m,
        layer_of(layers, surface, n) is Some,
    ensures
        layer_of(layers, surface, m) == layer_of(layers, surface, n),
    decreases m,
{
    if n < m {
        layer_of_stays(layers, surface, n, (m - 1) as nat);
    }
}

/// A layer after a commit at a size: it is placed once, when it has one.
pub open spec fn settled(layer: CanvasLayer, size: Size) -> CanvasLayer {
    if layer.position is None && size.w > 0 && size.h > 0 {
        CanvasLayer { position: Some(corner_of(layer.rule_position, size)), ..layer }
    } else {
        layer
    }
}

/// Takes a commit of a layer surface at a size. Returns false where none of the
/// layers has this surface.
pub fn commit_canvas_layer(layers: &mut Vec<CanvasLayer>, surface: u64, size: Size) -> (r: bool)
    ensures
        match layer_of(old(layers)@, surface, old(layers)@.len()) {
            Some(k) => r && final(layers)@ == old(layers)@.update(
                k,
                settled(old(layers)@[k], size),
            ),
            None => !r && final(layers)@ == old(layers)@,
        },
{
    let mut i: usize = 0;
    while i < layers.len()
        invariant
            i <= layers@.len(),
            layers@ == old(layers)@,
            layer_of(layers@, surface, i as nat) is None,
        decreases layers.len() - i,
    {
        let layer = layers[i];
        if layer.surface == surface {
            proof {
                layer_of_stays(layers@, surface, (i + 1) as nat, layers@.len());
            }
            let mut after = layer;
            if layer.position.is_none() && size.w > 0 && size.h > 0 {
                after.position = Some(corner_from_middle(layer.rule_position, size));
            }
            layers.set(i, after);
            return true;
        }
        i += 1;
    }
    false
}

/// A layer on the canvas stays where it was placed first.
pub proof fn canvas_layers_stay(layer: CanvasLayer, first: Size, second: Size)
    requires
        first.w > 0,
        first.h > 0,
    ensures
        settled(settled(layer, first), second) == settled(layer, first),
{
}

/// The output of a new layer surface: the one it asks for, else the first.
pub fn layer_output(asked: Option<u64>, outputs: &[u64]) -> (r: Option<u64>)
    ensures
        r == if asked is Some {
            asked
        } else if outputs@.len() > 0 {
            Some(outputs@[0])
        } else {
            None
        },
{
    match asked {
        Some(o) => Some(o),
        None => if outputs.len() > 0 {
            Some(outputs[0])
        } else {
            None
        },
    }
}

/// Who gets the keyboard when a surface is gone that may have had it. The
/// outer option is empty where nothing changes; the inner one is the window
/// used last.
pub fn focus_after_layer(had_focus: bool, focus_history: &[u64]) -> (r: Option<Option<u64>>)
    ensures
        r == if !had_focus {
            None
        } else if focus_history@.len() > 0 {
            Some(Some(focus_history@[0]))
        } else {
            Some(None)
        },
{
    if !had_focus {
        return None;
    }
    if focus_history.len() > 0 {
        Some(Some(focus_history[0]))
    } else {
        Some(None)
    }
}

/// What a popup belongs to, with its place.
#[derive(Clone, Copy, Debug, PartialEq, Eq, Structural)]
pub enum PopupParent {
    /// A window on the canvas.
    Window(Point),
    /// A layer surface on the canvas.
    CanvasLayer(Point),
    /// A layer surface of the screen.
    Layer(Point),
}

/// An area as seen from a place in it.
pub open spec fn seen_from(area: Rect, at: Point) -> Rect {
    Rect {
        loc: Point {
            x: clamp_i32(area.loc.x - at.x) as i32,
            y: clamp_i32(area.loc.y - at.y) as i32,
        },
        size: area.size,
    }
}

fn relative_to(area: Rect, at: Point) -> (r: Rect)
    ensures
        r == seen_from(area, at),
{
    Rect {
        loc: Point {
            x: saturate_i32(area.loc.x as i64 - at.x as i64),
            y: saturate_i32(area.loc.y as i64 - at.y as i64),
        },
        size: area.size,
    }
}

/// The area that a popup has to stay in, as its parent sees it: the active
/// output for a window, what is in sight for a layer on the canvas, and the
/// screen for any other layer.
pub open spec fn popup_area(
    parent: PopupParent,
    output: Option<Rect>,
    in_sight: Rect,
    nested: Point,
) -> Option<Rect> {
    match parent {
        PopupParent::Window(at) => Some(
            seen_from(
                seen_from(
                    if output is Some {
                        output->0
                    } else {
                        Rect { loc: Point { x: 0, y: 0 }, size: Size { w: 0, h: 0 } }
                    },
                    at,
                ),
                nested,
            ),
        ),
        PopupParent::CanvasLayer(at) => Some(seen_from(seen_from(in_sight, at), nested)),
        PopupParent::Layer(at) => match output {
            Some(o) => Some(
                seen_from(
                    seen_from(Rect { loc: Point { x: 0, y: 0 }, size: o.size }, at),
                    nested,
                ),
            ),
            None => None,
        },
    }
}

/// The area that a popup has to stay in, as its parent sees it. `output` is the
/// active output on the canvas, `in_sight` the visible part of the canvas, and
/// `nested` the place of the popup in its window.
pub fn unconstrain_popup(parent: PopupParent, output: Option<Rect>, in_sight: Rect, nested: Point) -> (r:
    Option<Rect>)
    ensures
        r == popup_area(parent, output, in_sight, nested),
{
    let (area, at) = match parent {
        PopupParent::Window(at) => match output {
            Some(o) => (o, at),
            None => (Rect { loc: Point { x: 0, y: 0 }, size: Size { w: 0, h: 0 } }, at),
        },
        PopupParent::CanvasLayer(at) => (in_sight, at),
        PopupParent::Layer(at) => match output {
            Some(o) => (Rect { loc: Point { x: 0, y: 0 }, size: o.size }, at),
            None => {
                return None;
            },
        },
    };
    Some(relative_to(relative_to(area, at), nested))
}

} // verus!
