use mut_paint::canvas::{Canvas, ImageSize};
use mut_paint::geometry::Point;
use mut_paint::transform::{Transform, ZOOM_ONE};

fn drawn_canvas(width: u32, height: u32) -> Canvas {
    let mut canvas = Canvas::new();
    canvas.open(ImageSize { width, height });
    canvas.draw();
    canvas
}

#[test]
fn canvas_starts_at_identity() {
    let canvas = Canvas::new();
    assert!(canvas.image.is_none());
    assert_eq!(canvas.position, Point::new(0, 0));
    assert_eq!(canvas.zoom, ZOOM_ONE);
    assert_eq!(canvas.rotation, 0);
    assert_eq!(canvas.transform, Transform::identity());
}

#[test]
fn draw_without_image_records_nothing() {
    let mut canvas = Canvas::new();
    assert_eq!(canvas.draw(), None);
    assert_eq!(canvas.transform, Transform::identity());
}

#[test]
fn draw_records_center_pivot_transform() {
    let mut canvas = Canvas::new();
    canvas.open(ImageSize { width: 200, height: 100 });
    canvas.position = Point::new(5_000, -7_000);
    canvas.rotation = 3;
    let t = canvas.draw().unwrap();
    assert_eq!(t.position, Point::new(5_000, -7_000));
    assert_eq!(t.rotation, 3);
    assert_eq!(t.zoom, ZOOM_ONE);
    assert_eq!(t.half, Point::new(100_000, 50_000));
    assert_eq!(canvas.transform, t);
}

#[test]
fn screen_origin_maps_to_image_center_offset() {
    let canvas = drawn_canvas(200, 100);
    let p = canvas.screen_to_canvas_coords(Point::new(0, 0));
    assert_eq!(p, Point::new(100_000, 50_000));
    let q = canvas.screen_to_canvas_coords(Point::new(10_000, -4_000));
    assert_eq!(q, Point::new(110_000, 46_000));
}

#[test]
fn zoom_halves_screen_offsets() {
    let mut canvas = Canvas::new();
    canvas.open(ImageSize { width: 200, height: 100 });
    canvas.zoom = 2 * ZOOM_ONE;
    canvas.draw();
    let p = canvas.screen_to_canvas_coords(Point::new(10_000, 6_000));
    assert_eq!(p, Point::new(105_000, 53_000));
}

#[test]
fn quarter_turn_rotates_screen_offsets_back() {
    let mut canvas = Canvas::new();
    canvas.open(ImageSize { width: 200, height: 100 });
    canvas.rotation = 18;
    canvas.draw();
    let p = canvas.screen_to_canvas_coords(Point::new(10_000, 0));
    assert_eq!(p, Point::new(100_000, 40_000));
}

#[test]
fn mapping_is_stale_until_the_next_draw() {
    let mut canvas = drawn_canvas(200, 100);
    canvas.position = Point::new(50_000, 0);
    let stale = canvas.screen_to_canvas_coords(Point::new(0, 0));
    assert_eq!(stale, Point::new(100_000, 50_000));
    canvas.draw();
    let fresh = canvas.screen_to_canvas_coords(Point::new(0, 0));
    assert_eq!(fresh, Point::new(50_000, 50_000));
}

#[test]
fn open_replaces_image_and_keeps_view() {
    let mut canvas = drawn_canvas(200, 100);
    canvas.position = Point::new(1_000, 2_000);
    canvas.open(ImageSize { width: 10, height: 20 });
    assert_eq!(canvas.image, Some(ImageSize { width: 10, height: 20 }));
    assert_eq!(canvas.position, Point::new(1_000, 2_000));
    let t = canvas.draw().unwrap();
    assert_eq!(t.half, Point::new(5_000, 10_000));
}
