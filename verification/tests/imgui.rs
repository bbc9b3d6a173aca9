use nivalis::entity::world::{Camera, World};
use nivalis::entity::Entity;
use nivalis::renderer::imgui::{same_cursor, ImguiRenderer, MouseCursor, UiFrame, BASE_FONT_SIZE};
use nivalis::renderer::text::PhysicalSize;
use nivalis::units::ScaleFactor;

fn overlay(per_mille: u32, width: u32, height: u32) -> ImguiRenderer {
    ImguiRenderer::new(
        ScaleFactor::new(per_mille).unwrap(),
        PhysicalSize { width, height },
    )
}

#[test]
fn overlay_fonts_follow_the_scale() {
    assert_eq!(BASE_FONT_SIZE, 13_000);
    let overlay = overlay(2000, 800, 600);
    assert_eq!(overlay.get_font_size(), 26_000);
    assert_eq!(overlay.get_font_global_scale(), 500);
    let overlay = self::overlay(1250, 800, 600);
    assert_eq!(overlay.get_font_size(), 16_250);
    assert_eq!(overlay.get_font_global_scale(), 800);
    let overlay = self::overlay(3000, 800, 600);
    assert_eq!(overlay.get_font_size(), 39_000);
    assert_eq!(overlay.get_font_global_scale(), 333);
}

#[test]
fn overlay_starts_open_and_without_cursor() {
    let overlay = overlay(1000, 800, 600);
    assert!(overlay.is_demo_open());
    assert_eq!(overlay.get_last_cursor(), None);
    assert_eq!(overlay.get_display_size(), (800_000, 600_000));
}

#[test]
fn overlay_display_size_is_logical() {
    let mut overlay = overlay(2000, 800, 600);
    assert_eq!(overlay.get_display_size(), (400_000, 300_000));
    overlay.resize(
        PhysicalSize { width: 1920, height: 1080 },
        ScaleFactor::new(1500).unwrap(),
    );
    assert_eq!(overlay.get_display_size(), (1_280_000, 720_000));
    assert_eq!(overlay.get_font_size(), 26_000);
    assert_eq!(overlay.get_font_global_scale(), 500);
}

#[test]
fn cursor_is_pushed_only_when_it_changes() {
    let mut overlay = overlay(1000, 800, 600);
    let arrow = UiFrame { cursor: Some(MouseCursor::Arrow), demo_open: true };
    let hand = UiFrame { cursor: Some(MouseCursor::Hand), demo_open: true };
    let hidden = UiFrame { cursor: None, demo_open: true };
    assert!(overlay.track(arrow));
    assert!(!overlay.track(arrow));
    assert!(!overlay.track(arrow));
    assert!(overlay.track(hand));
    assert_eq!(overlay.get_last_cursor(), Some(MouseCursor::Hand));
    assert!(overlay.track(hidden));
    assert!(!overlay.track(hidden));
    assert_eq!(overlay.get_last_cursor(), None);
    assert!(overlay.track(arrow));
}

#[test]
fn a_hidden_cursor_at_the_start_is_no_change() {
    let mut overlay = overlay(1000, 800, 600);
    assert!(!overlay.track(UiFrame { cursor: None, demo_open: true }));
}

#[test]
fn overlay_remembers_whether_the_metrics_window_is_open() {
    let mut overlay = overlay(1000, 800, 600);
    overlay.track(UiFrame { cursor: None, demo_open: false });
    assert!(!overlay.is_demo_open());
    overlay.track(UiFrame { cursor: None, demo_open: true });
    assert!(overlay.is_demo_open());
}

#[test]
fn cursors_compare_by_shape() {
    let all = [
        MouseCursor::Arrow,
        MouseCursor::TextInput,
        MouseCursor::ResizeAll,
        MouseCursor::ResizeNS,
        MouseCursor::ResizeEW,
        MouseCursor::ResizeNESW,
        MouseCursor::ResizeNWSE,
        MouseCursor::Hand,
        MouseCursor::NotAllowed,
    ];
    for (i, a) in all.iter().enumerate() {
        for (j, b) in all.iter().enumerate() {
            assert_eq!(same_cursor(Some(*a), Some(*b)), i == j);
        }
        assert!(!same_cursor(Some(*a), None));
        assert!(!same_cursor(None, Some(*a)));
    }
    assert!(same_cursor(None, None));
}

#[test]
fn world_holds_entities() {
    let world = World {
        entities: vec![Entity { id: 7, name: "cat".to_string() }],
        camera: Camera {},
    };
    assert_eq!(world.entities[0].id, 7);
    assert_eq!(world.entities[0].name, "cat");
}
