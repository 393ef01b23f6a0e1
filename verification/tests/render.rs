use driftwm::canvas::CanvasPos;
use driftwm::config::types::{BackgroundConfig, DecorationMode, OutputOutlineSettings};
use driftwm::cursors::{
    active_frame, choose_image, closest_image, cursor_draw, cursor_size, load_xcursor,
    oversized, CursorBitmap, CursorDraw,
};
use driftwm::geometry::{Point, Rect, Size};
use driftwm::grabs::CursorIcon;
use driftwm::protocols::screencopy::{Screencopy, ScreencopyBuffer, ScreencopyFrameInfo};
use driftwm::render::background::{
    background_source, expand_tile, tile_positions, BackgroundSource,
};
use driftwm::render::blur::{
    blur_pass_sizes, insert_blurs, look_at, mark_clean, needs_allocation, plan_blur, prune,
    BlurCache, BlurStep, Generations,
};
use driftwm::render::capture::{
    capture_key, captured_elements, is_persistent, take_for_output, CaptureState,
};
use driftwm::render::corners::cut_corners;
use driftwm::render::frame::{
    compose_frame, plan_window, BlurLayer, BlurRequest, Clip, FrameGroups, LayerGroup, Prefixes,
    RenderOptions, Scene, WindowInfo,
};
use driftwm::render::outlines::{draws_outlines, fill_color, outline_strips};
use driftwm::session::SessionLock;
use driftwm::shell::CursorImage;
use driftwm::units::UNITS_PER_PIXEL;

fn px(v: i64) -> i64 {
    v * UNITS_PER_PIXEL
}

fn rect(x: i32, y: i32, w: i32, h: i32) -> Rect {
    Rect {
        loc: Point { x, y },
        size: Size { w, h },
    }
}

fn options() -> RenderOptions {
    RenderOptions {
        visible: rect(0, 0, 1000, 1000),
        corner_clip: true,
        corner_radius: 8,
        shadows: true,
        blur: true,
    }
}

fn window() -> WindowInfo {
    WindowInfo {
        id: 1,
        location: Point { x: 100, y: 100 },
        geometry: rect(0, 0, 300, 200),
        bbox: rect(0, 0, 300, 200),
        fullscreen: false,
        decorated: true,
        decoration_rule: None,
        widget: false,
        blur: false,
    }
}

fn request(surface: u64, start: usize, count: usize, layer: BlurLayer) -> BlurRequest {
    BlurRequest {
        surface,
        screen_rect: rect(0, 0, 10, 10),
        elem_start: start,
        elem_count: count,
        layer,
    }
}

fn copy_of(output: u64, frame: u64) -> Screencopy {
    Screencopy {
        info: ScreencopyFrameInfo {
            output,
            buffer_size: Size { w: 1, h: 1 },
            region_loc: Point { x: 0, y: 0 },
            overlay_cursor: false,
        },
        frame,
        buffer: ScreencopyBuffer::Shm(0),
        with_damage: false,
        submitted: false,
    }
}

/// A cursor file with one picture of a single pixel for each size.
fn cursor_file(sizes: &[u32]) -> Vec<u8> {
    let mut out = Vec::new();
    out.extend_from_slice(b"Xcur");
    let words = |out: &mut Vec<u8>, list: &[u32]| {
        for w in list {
            out.extend_from_slice(&w.to_le_bytes());
        }
    };
    words(&mut out, &[16, 0x1_0000, sizes.len() as u32]);
    let first = 16 + 12 * sizes.len() as u32;
    for (k, size) in sizes.iter().enumerate() {
        words(&mut out, &[0xfffd_0002, *size, first + 40 * k as u32]);
    }
    for size in sizes {
        words(&mut out, &[36, 0xfffd_0002, *size, 1, 1, 1, 0, 1, 50]);
        out.extend_from_slice(&[*size as u8, 2, 3, 4]);
    }
    out
}

fn bitmap(size: u32) -> CursorBitmap {
    CursorBitmap {
        size,
        width: 1,
        height: 1,
        xhot: 0,
        yhot: 0,
        delay: 0,
        pixels_rgba: vec![0; 4],
    }
}

#[test]
fn windows_are_planned() {
    let plan = plan_window(&options(), &window()).unwrap();
    assert!(plan.title_bar);
    assert_eq!(plan.clip, Clip::Bottom);
    assert_eq!(plan.shadow, Some(Size { w: 328, h: 253 }));
    assert!(!plan.blur);
    let own = WindowInfo {
        decorated: false,
        geometry: rect(10, 10, 300, 200),
        bbox: rect(0, 0, 320, 220),
        ..window()
    };
    let plan = plan_window(&options(), &own).unwrap();
    assert!(!plan.title_bar);
    assert_eq!(plan.clip, Clip::All);
    assert_eq!(plan.shadow, Some(Size { w: 328, h: 228 }));
    let stripped = WindowInfo {
        decoration_rule: Some(DecorationMode::Off),
        ..own
    };
    let plan = plan_window(&options(), &stripped).unwrap();
    assert_eq!(plan.clip, Clip::Plain);
    assert_eq!(plan.shadow, None);
}

#[test]
fn windows_out_of_sight_are_not_drawn() {
    let at = |x: i32, y: i32, decorated: bool| {
        let w = WindowInfo {
            location: Point { x, y },
            decorated,
            ..window()
        };
        plan_window(&options(), &w).is_some()
    };
    assert!(!at(1000, 0, false));
    // The shadow of a decorated window is still seen.
    assert!(at(1013, 0, true));
    assert!(!at(1014, 0, true));
    assert!(at(0, 1038, true));
    assert!(!at(0, 1039, true));
}

#[test]
fn a_window_that_fills_the_screen_is_bare() {
    let w = WindowInfo {
        fullscreen: true,
        ..window()
    };
    let plan = plan_window(&options(), &w).unwrap();
    assert!(!plan.title_bar);
    assert_eq!(plan.clip, Clip::Plain);
    assert_eq!(plan.shadow, None);
}

fn groups() -> FrameGroups<u32> {
    let mut overlay = LayerGroup::new();
    overlay.push_surface(20, vec![30, 31], Some(rect(0, 0, 5, 5)), BlurLayer::Overlay);
    let mut top = LayerGroup::new();
    top.push_surface(21, vec![40], Some(rect(0, 0, 5, 5)), BlurLayer::Top);
    FrameGroups {
        cursor: vec![10],
        override_redirect: vec![20],
        overlay,
        top,
        canvas_layers: vec![60],
        bottom: vec![80],
        outlines: vec![85],
        background: vec![90],
        background_layer: vec![95],
    }
}

fn scene() -> Scene<u32> {
    let mut scene = Scene::new();
    scene.push_window(1, false, vec![50, 51], Some(52), Some(rect(0, 0, 9, 9)));
    scene.push_window(2, true, vec![70], None, None);
    scene.push_window(3, false, vec![53], None, Some(rect(0, 0, 9, 9)));
    scene
}

#[test]
fn a_frame_is_put_together_in_order() {
    let frame = compose_frame(groups(), scene(), false, SessionLock::Unlocked, None);
    assert_eq!(
        frame.elements,
        vec![10, 20, 30, 31, 40, 50, 51, 52, 53, 60, 70, 80, 85, 90, 95]
    );
    assert_eq!(
        frame.prefixes,
        Prefixes {
            overlay: 2,
            top: 4,
            normal: 5,
            widget: 10,
        }
    );
    let surfaces: Vec<u64> = frame.blur_requests.iter().map(|r| r.surface).collect();
    assert_eq!(surfaces, vec![20, 21, 1, 3]);
    assert_eq!(frame.blur_requests[3].elem_start, 3);
    assert_eq!(frame.blur_requests[2].elem_count, 2);
}

#[test]
fn bars_are_gone_in_fullscreen_and_everything_behind_a_lock() {
    let frame = compose_frame(groups(), scene(), true, SessionLock::Unlocked, None);
    assert_eq!(
        frame.elements,
        vec![10, 20, 30, 31, 50, 51, 52, 53, 60, 70, 85, 90, 95]
    );
    assert_eq!(frame.prefixes.normal, 4);
    assert_eq!(frame.blur_requests.len(), 3);
    for lock in [SessionLock::Pending, SessionLock::Locked] {
        let frame = compose_frame(groups(), scene(), false, lock, Some(vec![7]));
        assert_eq!(frame.elements, vec![7]);
        assert!(frame.blur_requests.is_empty());
        let frame = compose_frame(groups(), scene(), false, lock, None);
        assert!(frame.elements.is_empty());
    }
    // A surface that is left over does not count.
    let frame = compose_frame(groups(), scene(), true, SessionLock::Unlocked, Some(vec![7]));
    assert_eq!(frame.elements[0], 10);
    assert!(!frame.elements.contains(&7));
}

#[test]
fn a_surface_is_blurred_when_something_changed() {
    let mut cache: Vec<BlurCache> = Vec::new();
    let now = |scene: u64, camera: u64| Generations {
        scene,
        geometry: 1,
        camera,
    };
    let r = request(1, 0, 1, BlurLayer::Normal);
    assert!(needs_allocation(&cache, &r));
    assert!(!look_at(&mut cache, &r, false, now(1, 1)));
    assert!(cache.is_empty());
    assert!(look_at(&mut cache, &r, true, now(1, 1)));
    assert!(!needs_allocation(&cache, &r));
    mark_clean(&mut cache, 1);
    assert!(!look_at(&mut cache, &r, true, now(1, 1)));
    assert!(look_at(&mut cache, &r, true, now(2, 1)));
    mark_clean(&mut cache, 1);
    // A moved viewport matters only to surfaces of the screen.
    assert!(!look_at(&mut cache, &r, true, now(2, 2)));
    let top = BlurRequest {
        layer: BlurLayer::Top,
        ..r
    };
    assert!(look_at(&mut cache, &top, true, now(2, 3)));
    mark_clean(&mut cache, 1);
    let larger = BlurRequest {
        screen_rect: rect(0, 0, 20, 10),
        ..r
    };
    assert!(needs_allocation(&cache, &larger));
    assert!(look_at(&mut cache, &larger, true, now(2, 3)));
    let sizeless = BlurRequest {
        screen_rect: rect(0, 0, 0, 10),
        ..r
    };
    assert!(!needs_allocation(&cache, &sizeless));
    assert!(!look_at(&mut cache, &sizeless, true, now(9, 9)));
    prune(&mut cache, &vec![request(2, 0, 1, BlurLayer::Normal)]);
    assert!(cache.is_empty());
}

#[test]
fn what_is_behind_is_drawn_once_per_depth() {
    let p = Prefixes {
        overlay: 1,
        top: 3,
        normal: 4,
        widget: 8,
    };
    let requests = vec![
        request(1, 0, 2, BlurLayer::Normal),
        request(2, 1, 1, BlurLayer::Normal),
        request(3, 0, 9, BlurLayer::Widget),
        request(4, 0, 1, BlurLayer::Overlay),
    ];
    let steps = plan_blur(&p, &requests, &vec![true, true, true, false], 10);
    assert_eq!(
        steps,
        vec![
            BlurStep {
                request: 0,
                behind: 6,
                draw_behind: true,
                own_start: 4,
            },
            BlurStep {
                request: 1,
                behind: 6,
                draw_behind: false,
                own_start: 5,
            },
            BlurStep {
                request: 2,
                behind: 10,
                draw_behind: true,
                own_start: 8,
            },
        ]
    );
}

#[test]
fn blurred_pieces_lie_behind_their_surfaces() {
    let p = Prefixes {
        overlay: 0,
        top: 0,
        normal: 1,
        widget: 4,
    };
    let requests = vec![
        request(1, 0, 2, BlurLayer::Normal),
        request(2, 2, 1, BlurLayer::Normal),
    ];
    let mut elements = vec![0, 1, 2, 3, 4];
    insert_blurs(&mut elements, &p, &requests, vec![100, 200]);
    assert_eq!(elements, vec![0, 1, 2, 100, 3, 200, 4]);
}

#[test]
fn passes_halve_and_double() {
    let size = Size { w: 100, h: 3 };
    let at = |i: usize, down: bool| blur_pass_sizes(size, i, 3, down);
    assert_eq!(at(0, true), (size, Size { w: 50, h: 1 }));
    assert_eq!(at(2, true), (Size { w: 25, h: 1 }, Size { w: 12, h: 1 }));
    assert_eq!(at(0, false), (Size { w: 12, h: 1 }, Size { w: 25, h: 1 }));
    assert_eq!(at(2, false).1, size);
}

#[test]
fn the_background_has_a_source() {
    let both = BackgroundConfig {
        shader_path: Some(String::from("a.glsl")),
        tile_path: Some(String::from("a.png")),
    };
    assert!(matches!(
        background_source(&both, true),
        BackgroundSource::Shader(p) if p == "a.glsl"
    ));
    let tile = BackgroundConfig {
        shader_path: None,
        tile_path: Some(String::from("a.png")),
    };
    assert!(matches!(
        background_source(&tile, true),
        BackgroundSource::Tile(p) if p == "a.png"
    ));
    assert!(matches!(
        background_source(&tile, false),
        BackgroundSource::BuiltIn
    ));
    assert!(matches!(
        background_source(&BackgroundConfig::default(), true),
        BackgroundSource::BuiltIn
    ));
}

#[test]
fn a_tile_repeats_its_edges() {
    let raw = vec![1, 1, 1, 1, 2, 2, 2, 2];
    let out = expand_tile(&raw, 2, 1);
    let row: Vec<u8> = vec![1, 1, 1, 1, 2, 2, 2, 2, 2, 2, 2, 2, 2, 2, 2, 2];
    assert_eq!(out.len(), 4 * 3 * 4);
    for y in 0..3 {
        assert_eq!(out[y * 16..(y + 1) * 16], row[..]);
    }
}

#[test]
fn tiles_cover_the_screen() {
    let camera = CanvasPos {
        x: px(-150),
        y: px(20),
    };
    let tiles = tile_positions(camera, (px(200), px(50)), Size { w: 100, h: 101 });
    assert_eq!(tiles, vec![(-200, 0), (-100, 0), (0, 0)]);
    for x in -150..50i64 {
        assert!(tiles.iter().any(|t| t.0 <= x && x < t.0 + 100));
    }
    assert!(tile_positions(camera, (px(200), px(50)), Size { w: 0, h: 10 }).is_empty());
    let origin = CanvasPos { x: 0, y: 0 };
    assert_eq!(
        tile_positions(origin, (px(15), px(10)), Size { w: 10, h: 10 }),
        vec![(0, 0), (10, 0)]
    );
    assert_eq!(
        tile_positions(origin, (px(2), px(2)), Size { w: 1, h: 1 }),
        vec![(0, 0), (1, 0), (0, 1), (1, 1)]
    );
}

#[test]
fn outlines_stay_on_the_screen() {
    let viewport = Size { w: 100, h: 100 };
    assert_eq!(
        outline_strips(rect(10, 10, 50, 40), viewport, 2),
        vec![
            rect(10, 10, 50, 2),
            rect(10, 48, 50, 2),
            rect(10, 10, 2, 40),
            rect(58, 10, 2, 40),
        ]
    );
    let cut = outline_strips(rect(-10, 50, 50, 100), viewport, 2);
    assert_eq!(cut, vec![rect(0, 50, 40, 2), rect(38, 50, 2, 50)]);
    assert!(outline_strips(rect(200, 0, 10, 10), viewport, 2).is_empty());
    assert!(outline_strips(rect(10, 10, 50, 40), viewport, 0).is_empty());
    let mut settings = OutputOutlineSettings::default();
    assert_eq!(
        draws_outlines(&settings),
        settings.thickness > 0 && settings.opacity > 0
    );
    settings.opacity = 0;
    assert!(!draws_outlines(&settings));
    assert_eq!(
        fill_color([1, 2, 3, 4], Size { w: 2, h: 1 }),
        vec![1, 2, 3, 4, 1, 2, 3, 4]
    );
}

#[test]
fn corners_are_cut_where_there_is_room() {
    let size = Size { w: 100, h: 50 };
    assert_eq!(
        cut_corners(size, 8, true),
        vec![
            rect(0, 0, 8, 8),
            rect(92, 0, 8, 8),
            rect(0, 42, 8, 8),
            rect(92, 42, 8, 8),
        ]
    );
    assert_eq!(
        cut_corners(size, 8, false),
        vec![rect(0, 42, 8, 8), rect(92, 42, 8, 8)]
    );
    assert!(cut_corners(size, 25, true).is_empty());
}

#[test]
fn captures_are_taken_by_output() {
    let mut pending = vec![copy_of(1, 10), copy_of(2, 20), copy_of(1, 11), copy_of(3, 30)];
    let taken = take_for_output(&mut pending, 1);
    let frames = |list: &[Screencopy]| list.iter().map(|c| c.frame).collect::<Vec<u64>>();
    assert_eq!(frames(&taken), vec![10, 11]);
    assert_eq!(frames(&pending), vec![30, 20]);
}

#[test]
fn a_kept_capture_grows_old() {
    let size = Size { w: 10, h: 10 };
    assert!(is_persistent(size, size));
    assert!(!is_persistent(size, Size { w: 10, h: 11 }));
    let mut state = CaptureState::new(false);
    assert!(state.fit(size));
    state.drawn();
    assert_eq!(state.age, 1);
    assert!(!state.fit(size));
    state.set_paint_cursors(false);
    assert_eq!(state.age, 1);
    state.set_paint_cursors(true);
    assert_eq!(state.age, 0);
    state.drawn();
    assert!(state.fit(Size { w: 20, h: 10 }));
    assert_eq!(state.age, 0);
    let cursors = vec![true, false, true, false];
    assert_eq!(captured_elements(&cursors, false), vec![1, 3]);
    assert_eq!(captured_elements(&cursors, true), vec![0, 1, 2, 3]);
    assert_eq!(capture_key("ext", "DP-1"), "ext:DP-1");
}

#[test]
fn the_closest_cursor_of_a_file_is_taken() {
    let file = cursor_file(&[16, 32, 48]);
    let image = load_xcursor(&file, 30).unwrap();
    assert_eq!(image.size, 32);
    assert_eq!((image.width, image.height), (1, 1));
    assert_eq!((image.xhot, image.yhot, image.delay), (0, 1, 50));
    assert_eq!(image.pixels_rgba, vec![32, 2, 3, 4]);
    // The first of two that are as close.
    assert_eq!(load_xcursor(&file, 24).unwrap().size, 16);
    assert!(load_xcursor(&cursor_file(&[]), 24).is_none());
    assert!(load_xcursor(&b"not a cursor".to_vec(), 24).is_none());
    let mut cut = file;
    cut.pop();
    assert!(load_xcursor(&cut, 24).is_none());
}

#[test]
fn a_cursor_file_is_measured_before_it_is_read() {
    // Three pictures of one pixel each.
    let mut file = cursor_file(&[16, 32, 48]);
    assert!(!oversized(&file, 1, 4));
    assert!(oversized(&file, 1, 3));
    assert!(!oversized(&file, 10, 30));
    assert!(oversized(&file, 11, 30));
    // The second one now claims 32767 by 32767.
    let second = 16 + 12 * 3 + 40;
    for at in [second + 16, second + 20] {
        file[at..at + 4].copy_from_slice(&0x7fff_u32.to_le_bytes());
    }
    assert!(!oversized(&file, 72, 4_294_705_156));
    assert!(oversized(&file, 72, 4_294_705_155));
    assert!(oversized(&file, 48, i32::MAX as u64));
    // One column more, and it claims nothing.
    file[second + 16..second + 20].copy_from_slice(&0x8000_u32.to_le_bytes());
    assert!(!oversized(&file, 1, 4));
    // Entries beyond the end of the file do not count.
    assert!(!oversized(&file[..16].to_vec(), 1, 3));
    assert!(!oversized(&file[..15].to_vec(), 1, 0));
}

#[test]
fn the_closest_cursor_is_chosen() {
    let list = || vec![bitmap(16), bitmap(48), bitmap(32), bitmap(32)];
    assert_eq!(closest_image(&list(), 30), Some(2));
    assert_eq!(closest_image(&list(), 100), Some(1));
    assert_eq!(closest_image(&Vec::new(), 30), None);
    assert_eq!(choose_image(list(), 1).unwrap().size, 16);
    assert!(choose_image(Vec::new(), 1).is_none());
    assert_eq!(cursor_size(None), 24);
    assert_eq!(cursor_size(Some("48")), 48);
    assert_eq!(cursor_size(Some("large")), 24);
}

#[test]
fn an_animated_cursor_shows_one_frame() {
    let delays = vec![50, 30, 20];
    assert_eq!(active_frame(&delays, 100, 0), 0);
    assert_eq!(active_frame(&delays, 100, 49), 0);
    assert_eq!(active_frame(&delays, 100, 50), 1);
    assert_eq!(active_frame(&delays, 100, 99), 2);
    assert_eq!(active_frame(&delays, 100, 100), 0);
    assert_eq!(active_frame(&vec![0, 0], 0, 70), 0);
}

#[test]
fn cursors_are_drawn() {
    let named = CursorImage::Named(CursorIcon::Default);
    assert_eq!(cursor_draw(false, named, true), CursorDraw::Nothing);
    assert_eq!(cursor_draw(true, named, true), CursorDraw::Icon);
    assert_eq!(
        cursor_draw(true, CursorImage::Hidden, true),
        CursorDraw::Nothing
    );
    assert_eq!(
        cursor_draw(true, CursorImage::Surface(4), true),
        CursorDraw::Surface(4)
    );
    assert_eq!(
        cursor_draw(true, CursorImage::Surface(4), false),
        CursorDraw::FallBack
    );
}
