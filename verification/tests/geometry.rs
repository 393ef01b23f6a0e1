use driftwm::canvas::{
    all_windows_bbox, camera_to_center_window, canvas_to_screen, closest_window, find_nearest,
    home_camera, is_origin_visible, nav_origin, nav_target, screen_to_canvas, CanvasPos,
    MomentumState, NavWindow, ScreenPos,
};
use driftwm::config::types::{Direction, Transform};
use driftwm::decorations::{
    close_button_contains, close_button_rect, resize_edge_at, title_bar_contains, DrawnBar,
};
use driftwm::desk::NavTarget;
use driftwm::geometry::{pick_edge, Point, Rect, ResizeEdge, Size};
use driftwm::snap::{
    find_edge_snap, find_snap_candidate, snap_resize_edges, update_axis, update_edge, AxisSnap,
    EdgeSnapParams, SnapParams, SnapRect, SnapState,
};
use driftwm::text::{cut_at, find_char, join3, read_i32, read_u32, same_text, to_decimal};
use driftwm::units::{
    ceil_to_pixels, distance, floor_to_pixels, pixels, saturate_i32, saturating_sum,
    trunc_to_pixels, UNITS_PER_PIXEL,
};

fn px(v: i64) -> i64 {
    v * UNITS_PER_PIXEL
}

fn rect(x: i32, y: i32, w: i32, h: i32) -> Rect {
    Rect {
        loc: Point { x, y },
        size: Size { w, h },
    }
}

fn snap_rect(x: i64, y: i64, w: i64, h: i64) -> SnapRect {
    SnapRect {
        x_low: px(x),
        x_high: px(x + w),
        y_low: px(y),
        y_high: px(y + h),
    }
}

fn moving(others: &[SnapRect], same_edge: bool) -> SnapParams<'_> {
    SnapParams {
        extent: px(200),
        perp_low: px(0),
        perp_high: px(200),
        horizontal: true,
        others,
        gap: px(12),
        threshold: px(24),
        break_force: px(32),
        same_edge,
    }
}

fn resizing(others: &[SnapRect], high_edge: bool) -> EdgeSnapParams<'_> {
    EdgeSnapParams {
        perp_low: px(0),
        perp_high: px(200),
        horizontal: true,
        same_edge: false,
        others,
        gap: px(12),
        threshold: px(24),
        break_force: px(32),
        high_edge,
    }
}

#[test]
fn units_round_to_pixels() {
    assert_eq!(pixels(3), 96_000);
    assert_eq!(floor_to_pixels(px(3)), 3);
    assert_eq!(ceil_to_pixels(px(-3)), -3);
    assert_eq!(floor_to_pixels(-1), -1);
    assert_eq!(ceil_to_pixels(-1), 0);
    assert_eq!(ceil_to_pixels(1), 1);
    assert_eq!(trunc_to_pixels(-px(2) - 1), -2);
    assert_eq!(distance(3, -4), 7);
    assert_eq!(saturate_i32(i64::MAX), i32::MAX);
    assert_eq!(saturating_sum(i32::MIN, -1), i32::MIN);
}

#[test]
fn text_is_cut_and_read() {
    assert!(same_text("auto", "auto"));
    assert!(!same_text("auto", "aut"));
    assert_eq!(find_char("1920x1080x", 'x'), Some(4));
    assert_eq!(find_char("1920", 'x'), None);
    assert_eq!(cut_at("1920x1080@60", '@'), Some(("1920x1080", "60")));
    assert_eq!(cut_at("1920", '@'), None);
    assert_eq!(read_u32("4294967295"), Some(u32::MAX));
    assert_eq!(read_u32("4294967296"), None);
    assert_eq!(read_u32("+7"), Some(7));
    assert_eq!(read_u32("-7"), None);
    assert_eq!(read_u32(""), None);
    assert_eq!(read_i32("-2147483648"), Some(i32::MIN));
    assert_eq!(read_i32("2147483648"), None);
    assert_eq!(read_i32("-"), None);
    assert_eq!(to_decimal(0), "0");
    assert_eq!(to_decimal(1020), "1020");
    assert_eq!(join3("a", "b", "c"), "abc");
}

#[test]
fn rectangles_share_what_lies_in_both() {
    let a = rect(0, 0, 100, 50);
    let b = rect(60, 20, 100, 50);
    assert!(a.overlaps(&b));
    assert_eq!(a.intersection(&b), Some(rect(60, 20, 40, 30)));
    let beside = rect(100, 0, 10, 50);
    assert!(!a.overlaps(&beside));
    assert_eq!(a.intersection(&beside), None);
}

#[test]
fn turning_back_undoes_a_turn() {
    let area = Size { w: 300, h: 200 };
    let inside = rect(10, 20, 30, 40);
    for t in [
        Transform::Normal,
        Transform::Rotated90,
        Transform::Rotated180,
        Transform::Rotated270,
        Transform::Flipped,
        Transform::Flipped180,
    ] {
        assert_eq!(t.invert().invert(), t);
        let turned = t.transform_rect_in(inside, &area);
        let back = t
            .invert()
            .transform_rect_in(turned, &t.transform_size(area));
        assert_eq!(back, inside);
    }
    assert_eq!(
        Transform::Rotated90.transform_size(area),
        Size { w: 200, h: 300 }
    );
    assert_eq!(
        Transform::Rotated90.transform_rect_in(inside, &area),
        rect(140, 10, 40, 30)
    );
}

#[test]
fn edges_have_bits() {
    assert_eq!(ResizeEdge::Empty.mask(), 0);
    assert_eq!(ResizeEdge::TopLeft.mask(), 5);
    assert_eq!(ResizeEdge::BottomRight.mask(), 10);
    assert_eq!(pick_edge(true, false, true, false), Some(ResizeEdge::TopLeft));
    assert_eq!(pick_edge(false, false, false, false), None);
}

#[test]
fn title_bar_and_close_button_do_not_meet() {
    let at = Point { x: 100, y: 100 };
    assert_eq!(close_button_rect(at, 200, 25), rect(267, 75, 25, 25));
    for x in 95..305 {
        for y in 70..105 {
            let pos = (px(x), px(y));
            assert!(
                !(title_bar_contains(pos, at, 200, 25) && close_button_contains(pos, at, 200, 25))
            );
        }
    }
    assert!(title_bar_contains((px(266), px(99)), at, 200, 25));
    assert!(!title_bar_contains((px(266), px(100)), at, 200, 25));
    assert!(close_button_contains((px(267), px(75)), at, 200, 25));
    assert!(!close_button_contains((px(292), px(75)), at, 200, 25));
}

#[test]
fn the_border_lies_around_the_window() {
    let at = Point { x: 0, y: 0 };
    let size = Size { w: 100, h: 100 };
    let edge = |x: i64, y: i64| resize_edge_at((px(x), px(y)), at, size, 25, 8);
    assert_eq!(edge(50, 50), None);
    assert_eq!(edge(50, -20), None);
    assert_eq!(edge(-8, 50), Some(ResizeEdge::Left));
    assert_eq!(edge(-9, 50), None);
    assert_eq!(edge(-1, -26), Some(ResizeEdge::TopLeft));
    assert_eq!(edge(100, 100), Some(ResizeEdge::BottomRight));
    assert_eq!(edge(50, 107), Some(ResizeEdge::Bottom));
}

#[test]
fn a_bar_is_drawn_again_when_it_changes() {
    let mut bar = DrawnBar {
        width: 100,
        focused: false,
    };
    assert!(!bar.update(100, false));
    assert!(bar.update(100, true));
    assert!(!bar.update(100, true));
    assert!(bar.update(120, true));
}

#[test]
fn the_closest_candidate_is_found() {
    let others = [snap_rect(300, 0, 200, 200), snap_rect(290, 0, 10, 200)];
    // The right edge, at 290, is 10 from the first window and 0 from the second.
    assert_eq!(
        find_snap_candidate(px(90), &moving(&others, false)),
        Some((px(78), 0))
    );
    assert_eq!(find_snap_candidate(px(0), &moving(&others, false)), None);
    assert_eq!(
        find_snap_candidate(px(310), &moving(&others[..1], true)),
        Some((px(300), px(10)))
    );
    let below = [snap_rect(300, 200, 200, 200)];
    assert_eq!(find_snap_candidate(px(100), &moving(&below, false)), None);
}

#[test]
fn a_resized_edge_finds_a_gap() {
    let others = [snap_rect(300, 0, 200, 200)];
    assert_eq!(
        find_edge_snap(px(290), &resizing(&others, true)),
        Some((px(288), px(10)))
    );
    assert_eq!(
        find_edge_snap(px(505), &resizing(&others, false)),
        Some((px(512), px(5)))
    );
    assert_eq!(find_edge_snap(px(505), &resizing(&others, true)), None);
}

#[test]
fn a_snap_holds_until_it_breaks() {
    let others = [snap_rect(300, 0, 200, 200)];
    let p = moving(&others, false);
    let mut snap: Option<AxisSnap> = None;
    let mut cooldown: Option<i64> = None;
    assert_eq!(update_axis(&mut snap, &mut cooldown, px(20), &p), px(20));
    assert_eq!(update_axis(&mut snap, &mut cooldown, px(80), &p), px(88));
    assert_eq!(
        snap,
        Some(AxisSnap {
            snapped_pos: px(88),
            natural_at_engage: px(80),
        })
    );
    assert_eq!(update_axis(&mut snap, &mut cooldown, px(119), &p), px(88));
    assert_eq!(update_axis(&mut snap, &mut cooldown, px(49), &p), px(88));
    assert_eq!(update_axis(&mut snap, &mut cooldown, px(120), &p), px(120));
    assert_eq!(cooldown, Some(px(88)));
    // Near the coordinate it just left, it moves freely.
    assert_eq!(update_axis(&mut snap, &mut cooldown, px(100), &p), px(100));
    assert_eq!(snap, None);
    // Once away, it engages again.
    assert_eq!(update_axis(&mut snap, &mut cooldown, px(10), &p), px(10));
    assert_eq!(cooldown, None);
    assert_eq!(update_axis(&mut snap, &mut cooldown, px(80), &p), px(88));
}

#[test]
fn nothing_holds_a_window_that_is_alone() {
    let p = moving(&[], true);
    let mut snap: Option<AxisSnap> = None;
    let mut cooldown: Option<i64> = None;
    assert_eq!(update_axis(&mut snap, &mut cooldown, 17, &p), 17);
    assert_eq!(snap, None);
    let e = resizing(&[], true);
    assert_eq!(update_edge(&mut snap, &mut cooldown, 17, &e), 17);
}

#[test]
fn a_resize_snaps_its_dragged_edges() {
    let others = [snap_rect(300, 0, 200, 200)];
    let mut state = SnapState::default();
    let mut w: i32 = 280;
    let mut h: i32 = 150;
    snap_resize_edges(
        &mut state,
        8,
        (0, 0),
        (200, 150),
        0,
        &mut w,
        &mut h,
        &others,
        px(12),
        px(24),
        px(32),
        false,
    );
    assert_eq!((w, h), (288, 150));
    assert!(state.x.is_some());
    assert!(state.y.is_none());
}

#[test]
fn positions_go_to_the_canvas_and_back() {
    let camera = CanvasPos { x: px(500), y: px(-20) };
    let screen = ScreenPos { x: px(3), y: 7 };
    let canvas = screen_to_canvas(screen, camera);
    assert_eq!(canvas, CanvasPos { x: px(503), y: px(-20) + 7 });
    assert_eq!(canvas_to_screen(canvas, camera), screen);
}

#[test]
fn centering_puts_the_middle_in_the_middle() {
    let viewport = Size { w: 1920, h: 1080 };
    assert_eq!(
        camera_to_center_window(Point { x: 100, y: 0 }, Size { w: 201, h: 80 }, viewport),
        CanvasPos {
            x: px(100) + px(201) / 2 - px(960),
            y: px(-500),
        }
    );
    let home = home_camera(viewport);
    assert_eq!(home, CanvasPos { x: px(-960), y: px(-540) });
    assert!(is_origin_visible(home, viewport));
    assert!(!is_origin_visible(CanvasPos { x: 1, y: 0 }, viewport));
}

#[test]
fn the_nearest_window_in_a_direction_is_found() {
    let at = |x: i64, y: i64| CanvasPos { x: px(x), y: px(y) };
    let items = [
        (1, at(100, 0)),
        (2, at(50, 10)),
        (3, at(10, 50)),
        (4, at(-30, 0)),
        (5, at(50, -10)),
    ];
    let origin = at(0, 0);
    assert_eq!(find_nearest(origin, &Direction::Right, &items, None), Some(2));
    assert_eq!(find_nearest(origin, &Direction::Right, &items, Some(2)), Some(5));
    assert_eq!(find_nearest(origin, &Direction::Left, &items, None), Some(4));
    assert_eq!(find_nearest(origin, &Direction::Down, &items, None), Some(3));
    assert_eq!(find_nearest(origin, &Direction::Up, &items, None), None);
}

fn nav(id: u64, x: i32, y: i32, widget: bool) -> NavWindow {
    NavWindow {
        id,
        location: Point { x, y },
        size: Size { w: 100, h: 100 },
        widget,
        no_focus: false,
    }
}

#[test]
fn the_closest_window_is_the_one_in_the_middle() {
    let center = CanvasPos { x: px(60), y: px(60) };
    let windows = [
        nav(1, 500, 0, false),
        nav(2, 10, 10, true),
        nav(3, 20, 20, false),
        nav(4, 0, 0, false),
    ];
    // Windows 3 and 4 have their middles as far away.
    assert_eq!(closest_window(center, &windows), Some(3));
    assert_eq!(closest_window(center, &windows[1..2]), None);
    assert_eq!(closest_window(center, &[]), None);
    let odd = NavWindow {
        no_focus: true,
        ..nav(5, 10, 10, false)
    };
    assert_eq!(closest_window(center, &[odd]), None);
}

#[test]
fn a_direction_leads_to_windows_and_anchors() {
    let origin = CanvasPos { x: px(50), y: px(50) };
    let windows = [
        nav(1, 0, 0, false),
        nav(2, 300, -200, false),
        nav(3, 160, 0, true),
        nav(4, 200, 0, false),
    ];
    let right = Direction::Right;
    let go = |anchors: &[(i64, i64)], skip: Option<u64>| {
        nav_target(origin, &right, &windows, anchors, skip)
    };
    assert_eq!(go(&[], Some(1)), Some(NavTarget::Window(4)));
    assert_eq!(
        go(&[(px(150), px(50))], Some(1)),
        Some(NavTarget::Anchor(px(150), px(50)))
    );
    // A window counts before an anchor that is as near.
    assert_eq!(
        go(&[(px(200), px(50))], Some(1)),
        Some(NavTarget::Window(4))
    );
    // Window 2 counts by its nearest corner, which is not too far up.
    assert_eq!(go(&[], Some(4)), Some(NavTarget::Window(2)));
    assert_eq!(
        nav_target(origin, &Direction::Left, &windows, &[], Some(1)),
        None
    );
}

#[test]
fn a_search_starts_at_the_window_in_sight() {
    let center = CanvasPos { x: px(7), y: px(8) };
    let window = nav(3, 20, 40, false);
    let middle = CanvasPos { x: px(70), y: px(90) };
    assert_eq!(nav_origin(Some(window), true, center), (middle, Some(3)));
    assert_eq!(nav_origin(Some(window), false, center), (center, None));
    assert_eq!(nav_origin(None, true, center), (center, None));
}

#[test]
fn the_box_around_all_windows_is_tight() {
    let windows = [
        nav(1, 500, 0, false),
        nav(2, -1000, -1000, true),
        nav(3, 20, -30, false),
    ];
    let all = Rect {
        loc: Point { x: 20, y: -30 },
        size: Size { w: 580, h: 130 },
    };
    assert_eq!(all_windows_bbox(&windows), Some(all));
    assert_eq!(all_windows_bbox(&windows[1..2]), None);
    assert_eq!(all_windows_bbox(&[]), None);
    let far = [nav(1, i32::MIN, 0, false), nav(2, i32::MAX, 0, false)];
    assert_eq!(all_windows_bbox(&far).map(|b| b.size.w), Some(i32::MAX));
}

#[test]
fn drift_goes_on_after_the_frame_of_the_scroll() {
    let mut m = MomentumState::new(0);
    m.accumulate(40, 7);
    assert_eq!(m.tick(7, false, 38, 0), None);
    assert_eq!(m.velocity, 40);
    assert_eq!(m.tick(8, false, 38, 0), Some(40));
    assert_eq!(m.tick(9, true, 36, 0), None);
    assert_eq!(m.velocity, 0);
    m.accumulate(5, 10);
    m.stop(0);
    assert_eq!(m.velocity, 0);
}
