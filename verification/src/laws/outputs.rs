//! Displays, their modes, and the outputs that are made for them.

use crate::config::types::{OutputConfig, OutputMode, OutputPosition, Transform};
use crate::displays::{Disconnect, DisplaysView, OutputHead, RequestedHeadConfig};
use crate::geometry::Size;
use crate::gestures::GesturesView;
use crate::outputs::{DisplayMode, Interface, OutputSettings};
use vstd::prelude::*;

verus! {

use crate::desk::without;
use crate::displays::{changed_head, changed_heads, disconnected, head_named, marked, sifted};
use crate::outputs::{
    are_settings,
    cards,
    interface_name,
    is_chosen_mode,
    mode_seen,
    output_named,
    side_by_side,
};

/// Where the preferred mode is wanted, it is the first that the display
/// prefers; where it prefers none, no other has more pixels, nor as many and is
/// faster.
pub proof fn preferred_modes_are_preferred(modes: Seq<DisplayMode>, k: int, j: int)
    requires
        is_chosen_mode(modes, OutputMode::Preferred, k),
        0 <= j < modes.len(),
    ensures
        0 <= k < modes.len(),
        modes[j].preferred ==> modes[k].preferred && k <= j,
        !modes[k].preferred ==> {
            let (a, b) = (modes[k], modes[j]);
            &&& b.width * b.height <= a.width * a.height
            &&& b.width * b.height == a.width * a.height ==> b.vrefresh <= a.vrefresh
        },
{
}

/// Where a size is wanted that the display has, the mode has it, and no mode of
/// that size is faster; with a rate, the mode has that rate. Where the display
/// has none such, the preferred mode is taken.
pub proof fn wanted_sizes_are_taken(
    modes: Seq<DisplayMode>,
    w: i32,
    h: i32,
    hz: u32,
    k: int,
    j: int,
)
    requires
        0 <= w <= 0xffff,
        0 <= h <= 0xffff,
        0 <= j < modes.len(),
    ensures
        is_chosen_mode(modes, OutputMode::Size(w, h), k) && modes[j].width == w && modes[j].height
            == h ==> modes[k].width == w && modes[k].height == h && modes[j].vrefresh
            <= modes[k].vrefresh,
        is_chosen_mode(modes, OutputMode::SizeRefresh(w, h, hz), k) && modes[j].width == w
            && modes[j].height == h && modes[j].vrefresh == hz ==> modes[k].width == w
            && modes[k].height == h && modes[k].vrefresh == hz && k <= j,
        is_chosen_mode(modes, OutputMode::Size(w, h), k) && !(modes[k].width == w && modes[k].height
            == h) ==> is_chosen_mode(modes, OutputMode::Preferred, k),
        is_chosen_mode(modes, OutputMode::SizeRefresh(w, h, hz), k) && !(modes[k].width == w
            && modes[k].height == h && modes[k].vrefresh == hz) ==> is_chosen_mode(
            modes,
            OutputMode::Preferred,
            k,
        ),
{
}

/// Connectors go by their usual names.
pub proof fn connectors_have_their_names()
    ensures
        interface_name(Interface::DisplayPort) == "DP"@,
        interface_name(Interface::EmbeddedDisplayPort) == "eDP"@,
        interface_name(Interface::HdmiA) == "HDMI-A"@,
        interface_name(Interface::HdmiB) == "HDMI-B"@,
        interface_name(Interface::DviI) == "DVI-I"@,
        interface_name(Interface::DviD) == "DVI-D"@,
        interface_name(Interface::DviA) == "DVI-A"@,
        interface_name(Interface::Vga) == "VGA"@,
        interface_name(Interface::SVideo) == "S-Video"@,
        interface_name(Interface::Other) == "Unknown"@,
{
}

/// The settings of an output are the first ones under its name; there are none
/// where none has its name.
pub proof fn outputs_go_by_name(configs: Seq<OutputConfig>, name: Seq<char>)
    ensures
        match output_named(configs, name) {
            Some(c) => exists|k: int| #![trigger configs[k]]
                0 <= k < configs.len() && configs[k] == c && c.name@ == name && forall|j: int|
                    0 <= j < k ==> (#[trigger] configs[j]).name@ != name,
            None => forall|j: int| 0 <= j < configs.len() ==> (#[trigger] configs[j]).name@ != name,
        },
    decreases configs.len(),
{
    if configs.len() > 0 {
        if configs[0].name@ == name {
            assert(configs[0] == output_named(configs, name)->0);
        } else {
            let rest = configs.skip(1);
            outputs_go_by_name(rest, name);
            match output_named(rest, name) {
                Some(c) => {
                    let k = choose|k: int| #![trigger rest[k]]
                        0 <= k < rest.len() && rest[k] == c && c.name@ == name && forall|j: int|
                            0 <= j < k ==> (#[trigger] rest[j]).name@ != name;
                    assert(configs[k + 1] == c);
                    assert forall|j: int| 0 <= j < k + 1 implies (#[trigger] configs[j]).name@
                        != name by {
                        if j > 0 {
                            assert(rest[j - 1] == configs[j]);
                        }
                    }
                },
                None => {
                    assert forall|j: int| 0 <= j < configs.len() implies (
                    #[trigger] configs[j]).name@ != name by {
                        if j > 0 {
                            assert(rest[j - 1] == configs[j]);
                        }
                    }
                },
            }
        }
    }
}

/// Outputs stand side by side: each more takes its own width.
pub proof fn widths_add_up(widths: Seq<i32>, w: i32)
    requires
        0 <= side_by_side(widths) + w <= i32::MAX,
    ensures
        side_by_side(Seq::<i32>::empty()) == 0,
        side_by_side(widths.push(w)) == side_by_side(widths) + w,
{
    assert(widths.push(w).drop_last() =~= widths);
}

/// A new output has the size and rate of its mode, what is set for it or else
/// the defaults, a place of its own or else to the right of the others, and it
/// looks at the origin, turned as it is.
pub proof fn new_outputs_have_their_settings(
    entry: Option<OutputConfig>,
    scale: i64,
    modes: Seq<DisplayMode>,
    widths: Seq<i32>,
    s: OutputSettings,
    x: i32,
    y: i32,
)
    requires
        are_settings(entry, scale, modes, widths, s),
        s.mode < modes.len(),
    ensures
        s.size.w == modes[s.mode as int].width,
        s.size.h == modes[s.mode as int].height,
        s.refresh == 1000 * modes[s.mode as int].vrefresh,
        entry is None ==> s.scale == scale && s.transform == Transform::Normal
            && s.layout_position.x == side_by_side(widths) && s.layout_position.y == 0
            && is_chosen_mode(modes, OutputMode::Preferred, s.mode as int),
        entry matches Some(c) ==> is_chosen_mode(modes, c.mode, s.mode as int),
        entry matches Some(c) ==> (c.scale is None ==> s.scale == scale) && (c.scale matches Some(v)
            ==> s.scale == v),
        entry matches Some(c) ==> (c.transform is None ==> s.transform == Transform::Normal) && (
        c.transform matches Some(t) ==> s.transform == t),
        entry matches Some(c) ==> (c.position == OutputPosition::Fixed(x, y) ==> s.layout_position.x
            == x && s.layout_position.y == y),
        entry matches Some(c) ==> (c.position == OutputPosition::Auto ==> s.layout_position.x
            == side_by_side(widths) && s.layout_position.y == 0),
        2 * s.camera.x + 32_000 * s.transform.turned(s.size).w == 0,
        2 * s.camera.y + 32_000 * s.transform.turned(s.size).h == 0,
{
    side_by_side_fits(widths);
}

proof fn side_by_side_fits(widths: Seq<i32>)
    ensures
        i32::MIN <= side_by_side(widths) <= i32::MAX,
    decreases widths.len(),
{
    if widths.len() > 0 {
        side_by_side_fits(widths.drop_last());
    }
}

/// A mode is told as it is, its rate in thousandths.
pub proof fn modes_are_told_as_they_are(m: DisplayMode)
    requires
        m.vrefresh <= 2_147_483,
    ensures
        mode_seen(m).width == m.width,
        mode_seen(m).height == m.height,
        mode_seen(m).refresh == 1000 * m.vrefresh,
        mode_seen(m).preferred == m.preferred,
{
}

/// Cards are tried in order: the primary one, then the others as they are
/// listed, each once.
pub proof fn cards_are_tried_in_order(primary: Option<String>, devices: Seq<String>, d: String)
    ensures
        cards(primary, Seq::<String>::empty()) == (match primary {
            Some(p) => seq![p@],
            None => Seq::<Seq<char>>::empty(),
        }),
        cards(primary, devices.push(d)) == (if cards(primary, devices).contains(d@) {
            cards(primary, devices)
        } else {
            cards(primary, devices).push(d@)
        }),
{
    assert(devices.push(d).drop_last() =~= devices);
}

/// A display is marked for drawing where everything is, where its output is
/// animated, or where it was marked before; and only then.
pub proof fn animated_displays_are_marked(
    d: DisplaysView,
    n: nat,
    animated: Seq<u64>,
    everything: bool,
    crtc: u64,
)
    requires
        n <= d.surfaces.len(),
    ensures
        marked(d, n, animated, everything).contains(crtc) <==> d.redraws_needed.contains(crtc)
            || exists|k: int| #![trigger d.surfaces[k]]
            0 <= k < n && d.surfaces[k].0 == crtc && (everything || animated.contains(
                d.surfaces[k].1,
            )),
    decreases n,
{
    if n > 0 {
        animated_displays_are_marked(d, (n - 1) as nat, animated, everything, crtc);
        assert(d.surfaces[n - 1] == d.surfaces[n - 1]);
    }
}

/// Sifting keeps what is on the list and among the others, or what is not, in
/// order.
pub proof fn sifting_keeps_the_order(list: Seq<u64>, among: Seq<u64>, x: u64)
    ensures
        sifted(Seq::<u64>::empty(), among, true) == Seq::<u64>::empty(),
        sifted(Seq::<u64>::empty(), among, false) == Seq::<u64>::empty(),
        sifted(list.push(x), among, true) == (if among.contains(x) {
            sifted(list, among, true).push(x)
        } else {
            sifted(list, among, true)
        }),
        sifted(list.push(x), among, false) == (if among.contains(x) {
            sifted(list, among, false)
        } else {
            sifted(list, among, false).push(x)
        }),
{
    assert(list.push(x).drop_last() =~= list);
}

/// A display that goes takes its output along, but the last one leaves its
/// output on the canvas to come back to. The focus moves on where it was there,
/// gestures there end, and the other displays go on.
pub proof fn gone_displays_take_their_output_along<Z>(
    before: DisplaysView,
    gestures: GesturesView<Z>,
    crtc: u64,
    after: DisplaysView,
    gestures_after: GesturesView<Z>,
    r: Disconnect,
    k: int,
    other: int,
)
    requires
        before.wf(),
        disconnected(before, gestures, crtc, after, gestures_after, r),
        0 <= k < before.surfaces.len(),
        before.surfaces[k].0 == crtc,
        0 <= other < before.surfaces.len(),
        other != k,
    ensures
        r == (Disconnect::Gone {
            output: before.surfaces[k].1,
            refocused: before.focused == Some(before.surfaces[k].1),
        }),
        after.surfaces.contains(before.surfaces[other]),
        after.surfaces.len() == before.surfaces.len() - 1,
        after.mapped == without(before.mapped, before.surfaces[k].1),
        before.focused != Some(before.surfaces[k].1) ==> after.focused == before.focused,
        before.focused == Some(before.surfaces[k].1) ==> after.focused == Some(after.mapped[0]),
        gestures.output == Some(before.surfaces[k].1) ==> gestures_after.state is None
            && gestures_after.output is None,
        gestures.output != Some(before.surfaces[k].1) ==> gestures_after == gestures,
        !after.frames_pending.contains(crtc) && !after.redraws_needed.contains(crtc),
{
    assert(before.drives(crtc, k));
    if r is Last {
        assert(before.surfaces.len() == 1);
    }
    if r matches Disconnect::Gone { output, refocused } {
        let i = choose|i: int| #[trigger]
            before.drives(crtc, i) && before.surfaces[i].1 == r->output && after.surfaces
                == before.surfaces.remove(i);
        assert(i == k);
        let at = if other < k {
            other
        } else {
            other - 1
        };
        assert(after.surfaces[at] == before.surfaces[other]);
    }
}

/// The last display that goes leaves its output behind, with the focus.
pub proof fn last_displays_leave_their_output<Z>(
    before: DisplaysView,
    gestures: GesturesView<Z>,
    crtc: u64,
    output: u64,
    after: DisplaysView,
    gestures_after: GesturesView<Z>,
    r: Disconnect,
)
    requires
        disconnected(before, gestures, crtc, after, gestures_after, r),
        before.surfaces == seq![(crtc, output)],
    ensures
        r == Disconnect::Last(output),
        after.surfaces.len() == 0,
        after.mapped == before.mapped,
        after.disconnected == before.disconnected.push(output),
        after.focused == before.focused,
        gestures_after == gestures,
{
    assert(before.drives(crtc, 0));
    if r matches Disconnect::Last(o) {
        assert(before.surfaces[0] == (crtc, r->Last_0));
    }
}

/// An output is found by its name, the first of several.
pub proof fn heads_go_by_name(heads: Seq<OutputHead>, name: Seq<char>, n: nat)
    requires
        n <= heads.len(),
    ensures
        match head_named(heads, name, n) {
            Some(k) => 0 <= k < n && heads[k].name@ == name && forall|j: int|
                0 <= j < k ==> (#[trigger] heads[j]).name@ != name,
            None => forall|j: int| 0 <= j < n ==> (#[trigger] heads[j]).name@ != name,
        },
    decreases n,
{
    if n > 0 {
        heads_go_by_name(heads, name, (n - 1) as nat);
    }
}

/// A request changes of an output what it names and nothing else.
pub proof fn requests_change_outputs(head: OutputHead, q: RequestedHeadConfig)
    ensures
        ({
            let r = changed_head(head, q);
            &&& r.name == head.name
            &&& q.transform matches Some(t) ==> r.transform == t
            &&& q.scale matches Some(v) ==> r.scale == v
            &&& q.position matches Some(p) ==> r.layout_position == p
            &&& q.transform is None ==> r.transform == head.transform
            &&& q.scale is None ==> r.scale == head.scale
            &&& q.position is None ==> r.layout_position == head.layout_position
        }),
{
}

/// Requests are taken in order, up to the first for an output that is not
/// there; then nothing more is done, and the whole is refused.
pub proof fn requests_are_taken_in_order(
    heads: Seq<OutputHead>,
    requests: Seq<RequestedHeadConfig>,
    from: int,
)
    requires
        0 <= from <= requests.len(),
    ensures
        from == requests.len() ==> changed_heads(heads, requests, from) == (heads, true),
        from < requests.len() && head_named(heads, requests[from].output_name@, heads.len()) is None
            ==> changed_heads(heads, requests, from) == (heads, false),
        from < requests.len() ==> (head_named(heads, requests[from].output_name@, heads.len())
            matches Some(k) ==> changed_heads(heads, requests, from) == changed_heads(
            heads.update(k, changed_head(heads[k], requests[from])),
            requests,
            from + 1,
        )),
{
}

/// A mode is as good as itself; of two modes one is as good as the other, and
/// the one with more pixels is the better.
pub proof fn modes_are_ranked(a: crate::outputs::DisplayMode, b: crate::outputs::DisplayMode)
    ensures
        a.at_least(a),
        a.at_least(b) || b.at_least(a),
        a.width * a.height > b.width * b.height ==> a.at_least(b) && !b.at_least(a),
        a.width * a.height == b.width * b.height && a.vrefresh > b.vrefresh ==> a.at_least(b)
            && !b.at_least(a),
{
}

/// The first mode that a display prefers is the one that it runs in, and so is
/// the only one of those with most pixels and the highest rate where it prefers
/// none.
pub proof fn preferred_modes_come_first(modes: Seq<crate::outputs::DisplayMode>, k: int)
    requires
        0 <= k < modes.len(),
    ensures
        modes[k].preferred && (forall|j: int| 0 <= j < k ==> !(#[trigger] modes[j]).preferred)
            ==> crate::outputs::is_preferred_mode(modes, k),
        (forall|j: int| 0 <= j < modes.len() ==> !(#[trigger] modes[j]).preferred) && (forall|j: int|
            0 <= j < modes.len() && j != k ==> modes[k].at_least(#[trigger] modes[j])
                && !modes[j].at_least(modes[k])) ==> crate::outputs::is_preferred_mode(modes, k),
        crate::outputs::is_preferred_mode(modes, k) && !modes[k].preferred ==> (forall|j: int|
            0 <= j < modes.len() ==> !(#[trigger] modes[j]).preferred && modes[k].at_least(modes[j])),
{
}

/// The mode of a size and a rate is the first there is.
pub proof fn modes_of_a_rate_are_the_first(
    modes: Seq<crate::outputs::DisplayMode>,
    w: i32,
    h: i32,
    hz: u32,
    k: int,
    j: int,
)
    requires
        crate::outputs::is_first_of_rate(modes, w, h, hz, k),
        0 <= j < modes.len(),
        modes[j].width == w,
        modes[j].height == h,
        modes[j].vrefresh == hz,
    ensures
        k <= j,
{
    assert(modes[j].has_size(w, h));
}

} // verus!
