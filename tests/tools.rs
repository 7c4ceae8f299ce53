use mut_paint::app::{App, Tools};
use mut_paint::canvas::{Canvas, ImageSize};
use mut_paint::event::AppEvents;
use mut_paint::geometry::Point;
use mut_paint::pan::PanTool;
use mut_paint::program::Program;
use mut_paint::rotate::RotateTool;
use mut_paint::state::ProgramState;
use mut_paint::transform::{MAX_ZOOM, MIN_ZOOM, ZOOM_ONE};
use mut_paint::zoom::{ZoomTool, ZOOM_DRIFT};

#[test]
fn drag_moves_canvas_by_total_motion() {
    let mut pan = PanTool::new();
    let mut canvas = Canvas::new();
    let mut state = ProgramState::new();
    canvas.position = Point::new(3_000, -2_000);
    pan.on_event(AppEvents::MouseDown(Point::new(10_000, 10_000)), &mut canvas, &mut state);
    assert!(state.needs_paint());
    pan.on_event(AppEvents::MouseMove(Point::new(15_000, 7_000)), &mut canvas, &mut state);
    assert_eq!(canvas.position, Point::new(8_000, -5_000));
    pan.on_event(AppEvents::MouseMove(Point::new(40_500, 1_000)), &mut canvas, &mut state);
    pan.on_event(AppEvents::MouseUp(Point::new(99_000, 99_000)), &mut canvas, &mut state);
    assert_eq!(canvas.position, Point::new(3_000 + 30_500, -2_000 - 9_000));
    assert!(!state.needs_paint());
    assert!(pan.last_point.is_none());
}

#[test]
fn move_without_press_does_not_pan() {
    let mut pan = PanTool::new();
    let mut canvas = Canvas::new();
    let mut state = ProgramState::new();
    pan.on_event(AppEvents::MouseMove(Point::new(15_000, 7_000)), &mut canvas, &mut state);
    assert_eq!(canvas.position, Point::new(0, 0));
    assert!(!state.needs_paint());
    pan.on_event(AppEvents::MouseUp(Point::new(0, 0)), &mut canvas, &mut state);
    assert!(pan.last_point.is_none());
}

#[test]
fn scrolling_in_stops_at_largest_zoom() {
    let zoom = ZoomTool::new();
    let mut canvas = Canvas::new();
    for _ in 0..100 {
        zoom.zoom_in(&mut canvas);
        assert!(canvas.zoom <= MAX_ZOOM);
    }
    assert_eq!(canvas.zoom, MAX_ZOOM);
}

#[test]
fn scrolling_out_stops_at_smallest_zoom() {
    let mut zoom = ZoomTool::new();
    let mut canvas = Canvas::new();
    let mut state = ProgramState::new();
    for _ in 0..100 {
        zoom.on_event(AppEvents::ScrollEvent { delta_y: 1 }, &mut canvas, &mut state);
        assert!(canvas.zoom >= MIN_ZOOM);
    }
    assert_eq!(canvas.zoom, MIN_ZOOM);
    state.stop_request_paint();
    zoom.on_event(AppEvents::ScrollEvent { delta_y: 1 }, &mut canvas, &mut state);
    assert!(!state.needs_paint());
}

#[test]
fn one_zoom_step_scales_by_eleven_tenths() {
    let mut zoom = ZoomTool::new();
    let mut canvas = Canvas::new();
    let mut state = ProgramState::new();
    zoom.on_event(AppEvents::ScrollEvent { delta_y: -1 }, &mut canvas, &mut state);
    assert_eq!(canvas.zoom, 1_100_000);
    assert!(state.needs_paint());
    zoom.on_event(AppEvents::ScrollEvent { delta_y: 1 }, &mut canvas, &mut state);
    assert_eq!(canvas.zoom, 1_000_000);
}

#[test]
fn zoom_anchors_on_tracked_pointer() {
    let mut zoom = ZoomTool::new();
    let mut canvas = Canvas::new();
    let mut state = ProgramState::new();
    canvas.position = Point::new(10_000, 20_000);
    zoom.on_event(AppEvents::MouseMove(Point::new(110_000, 20_000)), &mut canvas, &mut state);
    assert_eq!(zoom.point, Point::new(110_000, 20_000));
    assert!(!state.needs_paint());
    zoom.on_event(AppEvents::ScrollEvent { delta_y: -3 }, &mut canvas, &mut state);
    // offset 100 px at zoom 1.0 becomes 110 px at zoom 1.1
    assert_eq!(canvas.position, Point::new(0, 20_000));
}

#[test]
fn cursor_point_stays_put_through_zoom() {
    let mut zoom = ZoomTool::new();
    let mut canvas = Canvas::new();
    let mut state = ProgramState::new();
    canvas.open(ImageSize { width: 640, height: 480 });
    canvas.position = Point::new(123_456, -65_432);
    canvas.rotation = 7;
    canvas.draw();
    let cursor = Point::new(250_321, 180_777);
    zoom.on_event(AppEvents::MouseMove(cursor), &mut canvas, &mut state);
    for step in 0..40 {
        let before = canvas.screen_to_canvas_coords(cursor);
        let delta_y = if step % 3 == 0 { 1 } else { -1 };
        zoom.on_event(AppEvents::ScrollEvent { delta_y }, &mut canvas, &mut state);
        canvas.draw();
        let after = canvas.screen_to_canvas_coords(cursor);
        assert!((after.x - before.x).abs() <= ZOOM_DRIFT);
        assert!((after.y - before.y).abs() <= ZOOM_DRIFT);
    }
}

#[test]
fn left_then_right_turns_cancel() {
    let rotate = RotateTool::new();
    let mut canvas = Canvas::new();
    canvas.rotation = 11;
    for _ in 0..50 {
        rotate.rotate_left(&mut canvas);
    }
    assert_eq!(canvas.rotation, 11 - 50);
    for _ in 0..50 {
        rotate.rotate_right(&mut canvas);
    }
    assert_eq!(canvas.rotation, 11);
}

#[test]
fn rotation_does_not_wrap() {
    let mut app = App::new();
    for _ in 0..80 {
        app.rotate_right();
    }
    assert_eq!(app.get_rotate(), 400);
}

#[test]
fn readouts_format_one_decimal() {
    let mut program = Program::new();
    assert_eq!(program.zoom_view(), "100.0%");
    assert_eq!(program.rotate_view(), "0.0\u{b0}");
    program.zoom_in();
    assert_eq!(program.zoom_view(), "110.0%");
    program.zoom_out();
    program.zoom_out();
    assert_eq!(program.zoom_view(), "90.9%");
    program.rotate_left();
    assert_eq!(program.rotate_view(), "-5.0\u{b0}");
    program.rotate_right();
    program.rotate_right();
    program.rotate_right();
    assert_eq!(program.rotate_view(), "10.0\u{b0}");
}

#[test]
fn tool_names_round_trip() {
    assert_eq!(Tools::Pan.as_str(), "pan");
    assert_eq!(Tools::Brush.as_str(), "brush");
    assert_eq!("pan".parse::<Tools>(), Ok(Tools::Pan));
    assert_eq!("brush".parse::<Tools>(), Ok(Tools::Brush));
    assert_eq!("eraser".parse::<Tools>(), Err("Tool Invalid"));
    assert_eq!(Tools::parse("Pan"), Err("Tool Invalid"));
}

#[test]
fn zoom_tracks_pointer_while_panning() {
    let mut app = App::new();
    let mut state = ProgramState::new();
    app.open(ImageSize { width: 100, height: 100 });
    app.on_event(AppEvents::MouseDown(Point::new(0, 0)), &mut state);
    app.on_event(AppEvents::MouseMove(Point::new(20_000, 30_000)), &mut state);
    assert_eq!(app.canvas.position, Point::new(20_000, 30_000));
    assert_eq!(app.zoom.point, Point::new(20_000, 30_000));
    app.on_event(AppEvents::MouseUp(Point::new(20_000, 30_000)), &mut state);
    app.on_event(AppEvents::ScrollEvent { delta_y: -1 }, &mut state);
    assert_eq!(app.canvas.zoom, 1_100_000);
    // the pointer sits on the position, so the position stays
    assert_eq!(app.canvas.position, Point::new(20_000, 30_000));
}

#[test]
fn set_tool_switches_dispatch() {
    let mut app = App::new();
    let mut state = ProgramState::new();
    app.set_tool(Tools::Brush);
    app.on_event(AppEvents::MouseDown(Point::new(0, 0)), &mut state);
    app.on_event(AppEvents::MouseMove(Point::new(20_000, 30_000)), &mut state);
    assert_eq!(app.canvas.position, Point::new(0, 0));
    assert_eq!(app.active_tool, Tools::Brush);
    assert_eq!(app.canvas.zoom, ZOOM_ONE);
}
