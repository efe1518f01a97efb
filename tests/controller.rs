use showimg::config::{Args, ImageSource, MouseBehavior, UseClipboard};
use showimg::geometry::{compute_image_rect, is_surface_wider, AspectRatio, ImageRect};
use showimg::gesture::{click_action, ClickAction};
use showimg::region::{compute_input_region, InputRegion};
use showimg::window::{Align, ChildAlignment, Window};

fn ratio(width: u32, height: u32) -> AspectRatio {
    AspectRatio { width, height }
}

fn rect(x: i32, y: i32, width: i32, height: i32) -> ImageRect {
    ImageRect { x, y, width, height }
}

fn args(mouse: MouseBehavior, no_maximize: bool, no_context_menu: bool) -> Args {
    Args {
        file: None,
        quit_with: "q".to_string(),
        mouse,
        no_context_menu,
        no_maximize,
        clipboard: UseClipboard::No,
    }
}

fn shown(mouse: MouseBehavior, r: AspectRatio) -> Window {
    let mut w = Window::new(&args(mouse, false, false));
    w.set_ratio(r);
    w
}

#[test]
fn tie_takes_the_wider_branch() {
    assert!(is_surface_wider(800, 400, ratio(2, 1)));
    assert_eq!(compute_image_rect(800, 400, ratio(2, 1)), rect(0, 0, 800, 400));
}

#[test]
fn taller_surface_fills_width_and_centres_vertically() {
    assert!(!is_surface_wider(800, 400, ratio(4, 1)));
    assert_eq!(compute_image_rect(800, 400, ratio(4, 1)), rect(0, 100, 800, 200));
}

#[test]
fn wider_surface_fills_height_and_centres_horizontally() {
    assert_eq!(compute_image_rect(1000, 300, ratio(4, 3)), rect(300, 0, 400, 300));
}

#[test]
fn odd_margin_is_floored() {
    assert_eq!(compute_image_rect(101, 100, ratio(1, 1)), rect(0, 0, 100, 100));
    assert_eq!(compute_image_rect(103, 100, ratio(1, 1)), rect(1, 0, 100, 100));
}

#[test]
fn side_is_rounded_to_nearest() {
    // 10 * 3 / 2 = 15 exactly; 11 * 3 / 2 = 16.5 rounds up to 17; 7 * 2 / 3 = 4.67 rounds to 5
    assert_eq!(compute_image_rect(100, 10, ratio(3, 2)), rect(42, 0, 15, 10));
    assert_eq!(compute_image_rect(100, 11, ratio(3, 2)), rect(41, 0, 17, 11));
    assert_eq!(compute_image_rect(7, 100, ratio(3, 2)), rect(0, 47, 7, 5));
}

#[test]
fn degenerate_surface_gives_empty_rect() {
    assert_eq!(compute_image_rect(0, 400, ratio(2, 1)), rect(0, 0, 0, 0));
    assert_eq!(compute_image_rect(800, 0, ratio(2, 1)), rect(0, 0, 0, 0));
    assert_eq!(compute_image_rect(-5, -5, ratio(2, 1)), rect(0, 0, 0, 0));
    assert!(compute_image_rect(0, 0, ratio(1, 1)).is_empty());
}

#[test]
fn largest_surface_and_ratio_fit() {
    let r = compute_image_rect(i32::MAX, i32::MAX, ratio(u32::MAX, 1));
    assert_eq!(r.width, i32::MAX);
    assert!(r.height >= 0 && r.y + r.height <= i32::MAX);
    let r = compute_image_rect(i32::MAX, 1, ratio(1, u32::MAX));
    assert_eq!(r.height, 1);
    assert!(r.x >= 0 && r.x + r.width <= i32::MAX);
}

#[test]
fn rect_is_contained_and_close_to_ratio() {
    let sizes = [(1, 1), (800, 400), (333, 777), (1920, 1080), (5, 3000)];
    let ratios = [ratio(1, 1), ratio(16, 9), ratio(3, 7), ratio(1000, 1)];
    for &(sw, sh) in sizes.iter() {
        for r in ratios.iter() {
            let c = compute_image_rect(sw, sh, *r);
            assert!(c.x >= 0 && c.y >= 0 && c.width >= 0 && c.height >= 0);
            assert!(c.x + c.width <= sw && c.y + c.height <= sh);
            let lhs = 2 * c.width as i64 * r.height as i64;
            let rhs = 2 * c.height as i64 * r.width as i64;
            let unit = r.width.max(r.height) as i64;
            assert!((lhs - rhs).abs() <= unit);
        }
    }
}

#[test]
fn same_inputs_same_rect() {
    let a = compute_image_rect(1234, 567, ratio(16, 9));
    let b = compute_image_rect(1234, 567, ratio(16, 9));
    assert_eq!(a, b);
}

#[test]
fn image_size_must_be_positive() {
    assert_eq!(AspectRatio::from_image_size(640, 480), Some(ratio(640, 480)));
    assert_eq!(AspectRatio::from_image_size(0, 480), None);
    assert_eq!(AspectRatio::from_image_size(640, 0), None);
    assert_eq!(AspectRatio::from_image_size(-1, 480), None);
}

#[test]
fn passthrough_region_is_empty() {
    assert_eq!(compute_input_region(MouseBehavior::Passthrough, rect(1, 2, 3, 4)), Some(InputRegion::Empty));
    assert_eq!(compute_input_region(MouseBehavior::Passthrough, rect(0, 0, 0, 0)), Some(InputRegion::Empty));
    let w = shown(MouseBehavior::Passthrough, ratio(2, 1));
    for &(sw, sh) in [(800, 400), (0, 0), (100, 900), (1, 1)].iter() {
        assert_eq!(w.size_allocate(sw, sh).region, Some(InputRegion::Empty));
    }
    let bare = Window::new(&args(MouseBehavior::Passthrough, false, false));
    assert_eq!(bare.size_allocate(800, 400).region, Some(InputRegion::Empty));
}

#[test]
fn region_equals_image_rect_outside_passthrough() {
    for mode in [MouseBehavior::Disabled, MouseBehavior::Drag] {
        assert_eq!(compute_input_region(mode, rect(5, 6, 7, 8)), Some(InputRegion::Rect(rect(5, 6, 7, 8))));
        assert_eq!(compute_input_region(mode, rect(5, 6, 0, 8)), None);
        let w = shown(mode, ratio(4, 1));
        assert_eq!(w.size_allocate(800, 400).region, Some(InputRegion::Rect(rect(0, 100, 800, 200))));
        assert_eq!(w.size_allocate(2000, 100).region, Some(InputRegion::Rect(rect(800, 0, 400, 100))));
        assert_eq!(w.size_allocate(0, 100).region, None);
        let bare = Window::new(&args(mode, false, false));
        assert_eq!(bare.size_allocate(800, 400).region, None);
    }
}

#[test]
fn resize_sequence_keeps_region_square_and_centred() {
    let w = shown(MouseBehavior::Drag, ratio(1, 1));
    let steps = [
        ((100, 100), rect(0, 0, 100, 100)),
        ((200, 100), rect(50, 0, 100, 100)),
        ((100, 200), rect(0, 50, 100, 100)),
    ];
    for &((sw, sh), expected) in steps.iter() {
        let out = w.size_allocate(sw, sh);
        assert_eq!(out.region, Some(InputRegion::Rect(expected)));
    }
}

#[test]
fn alignment_follows_orientation() {
    let w = shown(MouseBehavior::Disabled, ratio(2, 1));
    assert_eq!(
        w.size_allocate(800, 400).alignment,
        Some(ChildAlignment { halign: Align::Center, valign: Align::Fill })
    );
    assert_eq!(
        w.size_allocate(400, 400).alignment,
        Some(ChildAlignment { halign: Align::Fill, valign: Align::Center })
    );
    assert_eq!(w.size_allocate(0, 400).alignment, None);
    let bare = Window::new(&args(MouseBehavior::Disabled, false, false));
    assert_eq!(bare.size_allocate(800, 400).alignment, None);
}

#[test]
fn click_dispatch_table() {
    assert_eq!(click_action(1, 2, false, false), ClickAction::ToggleMaximized);
    assert_eq!(click_action(1, 2, true, false), ClickAction::Nothing);
    assert_eq!(click_action(1, 1, false, false), ClickAction::Nothing);
    assert_eq!(click_action(3, 1, false, false), ClickAction::ShowWindowMenu);
    assert_eq!(click_action(3, 1, false, true), ClickAction::Nothing);
    assert_eq!(click_action(3, 2, false, false), ClickAction::Nothing);
    for n in 0..4 {
        assert_eq!(click_action(2, n, false, false), ClickAction::Nothing);
    }
}

#[test]
fn window_click_uses_its_flags() {
    let w = Window::new(&args(MouseBehavior::Drag, true, false));
    assert_eq!(w.on_click_pressed(1, 2), ClickAction::Nothing);
    assert_eq!(w.on_click_pressed(3, 1), ClickAction::ShowWindowMenu);
    let w = Window::new(&args(MouseBehavior::Drag, false, true));
    assert_eq!(w.on_click_pressed(1, 2), ClickAction::ToggleMaximized);
    assert_eq!(w.on_click_pressed(3, 1), ClickAction::Nothing);
}

#[test]
fn drag_moves_only_in_drag_mode() {
    let w = Window::new(&args(MouseBehavior::Drag, false, false));
    assert!(w.wants_drag_gesture());
    assert_eq!(w.drag_move_button(1), Some(1));
    assert_eq!(w.drag_move_button(u32::MAX), None);
    for mode in [MouseBehavior::Disabled, MouseBehavior::Passthrough] {
        let w = Window::new(&args(mode, false, false));
        assert!(!w.wants_drag_gesture());
        assert_eq!(w.drag_move_button(1), None);
    }
}

#[test]
fn set_ratio_keeps_options() {
    let before = Window::new(&args(MouseBehavior::Passthrough, true, true));
    let mut after = before;
    after.set_ratio(ratio(3, 2));
    assert_eq!(after.ratio, Some(ratio(3, 2)));
    assert_eq!(after.behavior, MouseBehavior::Passthrough);
    assert!(after.no_maximize && after.no_context_menu);
    assert_eq!(before.ratio, None);
}

#[test]
fn image_source_choice() {
    let mut a = args(MouseBehavior::Drag, false, false);
    assert!(matches!(a.image_source(), ImageSource::Chooser));
    a.file = Some("cat.png".to_string());
    match a.image_source() {
        ImageSource::File(f) => assert_eq!(f, "cat.png"),
        _ => panic!("expected a file"),
    }
    a.clipboard = UseClipboard::Primary;
    assert!(matches!(a.image_source(), ImageSource::PrimaryClipboard));
    a.clipboard = UseClipboard::Yes;
    assert!(matches!(a.image_source(), ImageSource::Clipboard));
}

#[test]
fn quit_accelerator_can_be_turned_off() {
    let mut a = args(MouseBehavior::Drag, false, false);
    assert_eq!(a.quit_accelerator(), Some("q".to_string()));
    a.quit_with = "<Ctrl>w".to_string();
    assert_eq!(a.quit_accelerator(), Some("<Ctrl>w".to_string()));
    a.quit_with = "none".to_string();
    assert_eq!(a.quit_accelerator(), None);
    a.quit_with = "None".to_string();
    assert_eq!(a.quit_accelerator(), Some("None".to_string()));
}

#[test]
fn default_behavior_is_disabled() {
    assert_eq!(MouseBehavior::default(), MouseBehavior::Disabled);
}
