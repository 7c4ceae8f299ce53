use mut_paint::app::Tools;
use mut_paint::brush::BrushTool;
use mut_paint::brush_definition::{BrushDefinition, BrushError};
use mut_paint::brush_manager::BrushManager;
use mut_paint::canvas::{Canvas, ImageSize};
use mut_paint::event::AppEvents;
use mut_paint::geometry::Point;
use mut_paint::program::Program;
use mut_paint::state::ProgramState;
use mut_paint::stroke::{effective_spacing, stamp_points};
use mut_paint::texture::{premultiply_rgba, stride_for_width};

fn png_bytes(width: u32, height: u32, rgba: Vec<u8>) -> Vec<u8> {
    let img = image::RgbaImage::from_raw(width, height, rgba).unwrap();
    let mut out = std::io::Cursor::new(Vec::new());
    img.write_to(&mut out, image::ImageFormat::Png).unwrap();
    out.into_inner()
}

fn solid_texture(side: u32) -> Vec<u8> {
    let mut px = Vec::new();
    for _ in 0..side * side {
        px.extend_from_slice(&[255, 255, 255, 255]);
    }
    png_bytes(side, side, px)
}

fn brush_tool() -> BrushTool {
    let mut tool = BrushTool::new();
    tool.load_default(&solid_texture(8)).unwrap();
    tool
}

#[test]
fn long_stroke_gets_one_stamp_per_pixel() {
    let spacing = effective_spacing(10_000, 100);
    assert_eq!(spacing, 1_000);
    let pts = stamp_points(Point::new(0, 0), Point::new(100_000, 0), spacing);
    assert_eq!(pts.len(), 101);
    assert_eq!(pts[0], Point::new(0, 0));
    assert_eq!(pts[1], Point::new(1_000, 0));
    assert_eq!(pts[100], Point::new(100_000, 0));
}

#[test]
fn coincident_points_get_one_stamp() {
    let pts = stamp_points(Point::new(4_321, -77), Point::new(4_321, -77), 1_000);
    assert_eq!(pts, vec![Point::new(4_321, -77)]);
}

#[test]
fn spacing_is_capped_by_thickness_and_floored_at_a_pixel() {
    assert_eq!(effective_spacing(15_000, 100), 1_000);
    assert_eq!(effective_spacing(15_000, 5_000), 5_000);
    assert_eq!(effective_spacing(15_000, 20_000), 10_500);
    assert_eq!(effective_spacing(1_000, 20_000), 1_000);
}

#[test]
fn diagonal_stroke_rounds_steps_up() {
    // length 5 px at 2 px spacing: 3 steps, 4 stamps
    let pts = stamp_points(Point::new(0, 0), Point::new(3_000, 4_000), 2_000);
    assert_eq!(pts.len(), 4);
    assert_eq!(pts[1], Point::new(1_000, 1_333));
    assert_eq!(pts[3], Point::new(3_000, 4_000));
}

#[test]
fn premultiplies_into_bgra() {
    let out = premultiply_rgba(&vec![200, 100, 50, 128, 10, 20, 30, 0, 255, 0, 0, 255], 3, 1);
    assert_eq!(out, vec![25, 50, 100, 128, 0, 0, 0, 0, 0, 0, 255, 255]);
}

#[test]
fn stride_is_four_bytes_a_pixel() {
    assert_eq!(stride_for_width(0), Some(0));
    assert_eq!(stride_for_width(17), Some(68));
    assert_eq!(stride_for_width(67_108_862), Some(268_435_448));
    assert_eq!(stride_for_width(67_108_863), None);
}

#[test]
fn too_wide_texture_is_refused() {
    let r = BrushDefinition::from_image("wide", 67_108_863, 0, &Vec::new());
    assert!(matches!(r, Err(BrushError::TooWide)));
}

#[test]
fn undecodable_texture_is_refused() {
    let r = BrushDefinition::from_bytes("junk", &[1, 2, 3, 4, 5]);
    assert!(matches!(r, Err(BrushError::Decode)));
}

#[test]
fn decoded_texture_is_premultiplied() {
    let bytes = png_bytes(2, 1, vec![200, 100, 50, 128, 1, 2, 3, 255]);
    let brush = BrushDefinition::from_bytes("Dots", &bytes).unwrap();
    assert_eq!(brush.get_name(), "Dots");
    assert_eq!(brush.texture.width, 2);
    assert_eq!(brush.texture.height, 1);
    assert_eq!(brush.texture.stride, 8);
    assert_eq!(brush.texture.data, vec![25, 50, 100, 128, 3, 2, 1, 255]);
    assert!(brush.cache.is_empty());
}

#[test]
fn variant_square_holds_rotated_texture() {
    let brush = BrushDefinition::from_image("sq", 10, 10, &vec![0; 400]).unwrap();
    let v = brush.generate_variant(15_000, 30);
    // 15 x 15 scaled; diagonal 21.2 rounds up to 22; 4 pixels of padding
    assert_eq!(v.size, 26);
    assert_eq!(v.thickness_px, 15);
    assert_eq!(v.angle_deg, 30);
    let wide = BrushDefinition::from_image("wide", 20, 5, &vec![0; 400]).unwrap();
    // 10 x 3 (2.5 rounded up); diagonal 10.44 rounds up to 11
    assert_eq!(wide.generate_variant(10_000, 0).size, 15);
}

#[test]
fn same_rounded_thickness_and_angle_reuse_the_variant() {
    let mut brush = BrushDefinition::from_image("sq", 4, 4, &vec![255; 64]).unwrap();
    let a = brush.get_cached(15_000, 30);
    let b = brush.get_cached(15_000, 30);
    let c = brush.get_cached(15_400, 30);
    assert_eq!(a, b);
    assert_eq!(a, c);
    assert_eq!(brush.cache.len(), 1);
    let d = brush.get_cached(15_500, 30);
    assert_ne!(d, a);
    let e = brush.get_cached(15_000, 45);
    assert_ne!(e, a);
    assert_ne!(e, d);
    assert_eq!(brush.cache.len(), 3);
    assert_eq!(brush.cache[d].thickness_px, 16);
}

#[test]
fn manager_without_brushes_has_no_active_brush() {
    let mut manager = BrushManager::new();
    assert!(manager.get_active_brush_mut().is_none());
    manager.load_default(&solid_texture(4)).unwrap();
    assert_eq!(manager.active_brush_name, "Circle");
    assert_eq!(manager.get_active_brush_mut().unwrap().get_name(), "Circle");
    manager.active_brush_name = String::from("Gone");
    assert!(manager.get_active_brush_mut().is_none());
}

#[test]
fn bad_default_texture_leaves_manager_alone() {
    let mut manager = BrushManager::new();
    assert_eq!(manager.load_default(&[0, 1, 2]), Err(BrushError::Decode));
    assert!(manager.brushes.is_empty());
}

#[test]
fn stamps_take_multiples_of_fifteen_degrees() {
    let mut tool = brush_tool();
    let mut angles = std::collections::BTreeSet::new();
    for _ in 0..400 {
        let stamp = tool.stamp_with_angle(Point::new(0, 0), 0).unwrap();
        assert_eq!(stamp.slot, 0);
    }
    let mut canvas = Canvas::new();
    let mut state = ProgramState::new();
    canvas.open(ImageSize { width: 64, height: 64 });
    canvas.draw();
    tool.on_event(AppEvents::MouseDown(Point::new(0, 0)), &canvas, &mut state);
    tool.on_event(AppEvents::MouseMove(Point::new(300_000, 0)), &canvas, &mut state);
    for v in &tool.brush_manager.brushes[0].cache {
        assert_eq!(v.angle_deg % 15, 0);
        assert!(v.angle_deg >= 0 && v.angle_deg < 360);
        assert_eq!(v.thickness_px, 15);
        angles.insert(v.angle_deg);
    }
    // 301 random draws over 24 angles
    assert!(angles.len() > 1);
}

#[test]
fn stamp_is_centered_on_its_point() {
    let mut tool = brush_tool();
    let stamp = tool.stamp_with_angle(Point::new(50_000, 60_000), 2).unwrap();
    let v = tool.brush_manager.brushes[0].cache[stamp.slot];
    assert_eq!(v.angle_deg, 30);
    let half = v.size as i64 * 500;
    assert_eq!(stamp.origin, Point::new(50_000 - half, 60_000 - half));
}

#[test]
fn brush_stroke_stamps_along_the_drag() {
    let mut tool = brush_tool();
    let mut canvas = Canvas::new();
    let mut state = ProgramState::new();
    canvas.open(ImageSize { width: 200, height: 100 });
    canvas.draw();
    let down = tool.on_event(AppEvents::MouseDown(Point::new(0, 0)), &canvas, &mut state);
    assert_eq!(down.len(), 1);
    assert!(tool.is_drawing);
    assert_eq!(tool.last_point, Point::new(100_000, 50_000));
    assert!(state.needs_paint());
    let moved = tool.on_event(AppEvents::MouseMove(Point::new(100_000, 0)), &canvas, &mut state);
    assert_eq!(moved.len(), 101);
    assert_eq!(tool.last_point, Point::new(200_000, 50_000));
    let up = tool.on_event(AppEvents::MouseUp(Point::new(0, 0)), &canvas, &mut state);
    assert!(up.is_empty());
    assert!(!tool.is_drawing);
    assert!(!state.needs_paint());
    let idle = tool.on_event(AppEvents::MouseMove(Point::new(5_000, 0)), &canvas, &mut state);
    assert!(idle.is_empty());
}

#[test]
fn brush_without_image_does_nothing() {
    let mut tool = brush_tool();
    let canvas = Canvas::new();
    let mut state = ProgramState::new();
    let r = tool.on_event(AppEvents::MouseDown(Point::new(0, 0)), &canvas, &mut state);
    assert!(r.is_empty());
    assert!(!tool.is_drawing);
    assert!(!state.needs_paint());
}

#[test]
fn brush_without_loaded_brush_stamps_nothing() {
    let mut tool = BrushTool::new();
    let mut canvas = Canvas::new();
    let mut state = ProgramState::new();
    canvas.open(ImageSize { width: 20, height: 20 });
    let r = tool.on_event(AppEvents::MouseDown(Point::new(0, 0)), &canvas, &mut state);
    assert!(r.is_empty());
    assert!(tool.is_drawing);
    assert!(state.needs_paint());
}

#[test]
fn opening_an_image_mid_stroke_keeps_stroking() {
    let mut program = Program::new();
    program.load_default_brush(&solid_texture(8)).unwrap();
    program.set_tool(Tools::Brush);
    program.open_image(ImageSize { width: 100, height: 100 });
    program.draw();
    assert_eq!(program.on_event(AppEvents::MouseDown(Point::new(0, 0))).len(), 1);
    program.open_image(ImageSize { width: 300, height: 40 });
    assert!(program.app.brush.is_drawing);
    let stamps = program.on_event(AppEvents::MouseMove(Point::new(2_000, 0)));
    assert_eq!(stamps.len(), 3);
    program.draw();
    let after = program.on_event(AppEvents::MouseMove(Point::new(2_000, 0)));
    // the new render moved the image center under the pointer
    assert!(!after.is_empty());
    assert_eq!(program.app.brush.last_point, Point::new(152_000, 20_000));
}
