use vstd::prelude::*;
use crate::brush::{BrushTool, Stamp};
use crate::brush_definition::BrushError;
use crate::canvas::{Canvas, ImageSize};
use crate::event::AppEvents;
use crate::pan::{pan_anchor_after, pan_position_after, PanTool};
use crate::rotate::{turned, RotateTool};
use crate::state::ProgramState;
use crate::transform::Transform;
use crate::zoom::{zoom_position, zoom_target, ZoomTool};

verus! {

/// The tool that receives pointer events.
#[derive(Clone, Copy, Debug, PartialEq, Eq, Structural)]
pub enum Tools {
    Pan,
    Brush,
}

/// The name of a tool.
pub open spec fn tool_name(t: Tools) -> Seq<char> {
    match t {
        Tools::Pan => seq!['p', 'a', 'n'],
        Tools::Brush => seq!['b', 'r', 'u', 's', 'h'],
    }
}

impl Tools {
    pub fn as_str(&self) -> (r: &'static str)
        ensures
            r@ == tool_name(*self),
    {
        proof {
            reveal_strlit("pan");
            reveal_strlit("brush");
        }
        match self {
            Tools::Pan => "pan",
            Tools::Brush => "brush",
        }
    }

    /// The tool of a name; any other name is refused.
    pub fn parse(s: &str) -> (r: Result<Tools, &'static str>)
        ensures
            r == Ok::<Tools, &'static str>(Tools::Pan) <==> s@ == tool_name(Tools::Pan),
            r == Ok::<Tools, &'static str>(Tools::Brush) <==> s@ == tool_name(Tools::Brush),
            r.is_err() <==> (s@ != tool_name(Tools::Pan) && s@ != tool_name(Tools::Brush)),
    {
        let n = s.unicode_len();
        if n == 3 && s.get_char(0) == 'p' && s.get_char(1) == 'a' && s.get_char(2) == 'n' {
            assert(s@ =~= tool_name(Tools::Pan));
            Ok(Tools::Pan)
        } else if n == 5 && s.get_char(0) == 'b' && s.get_char(1) == 'r' && s.get_char(2) == 'u'
            && s.get_char(3) == 's' && s.get_char(4) == 'h' {
            assert(s@ =~= tool_name(Tools::Brush));
            Ok(Tools::Brush)
        } else {
            proof {
                if s@ == tool_name(Tools::Pan) {
                    assert(s@[0] == 'p' && s@[1] == 'a' && s@[2] == 'n');
                }
                if s@ == tool_name(Tools::Brush) {
                    assert(s@[0] == 'b' && s@[1] == 'r' && s@[2] == 'u' && s@[3] == 's' && s@[4] == 'h');
                }
            }
            Err("Tool Invalid")
        }
    }
}

impl std::str::FromStr for Tools {
    type Err = &'static str;

    fn from_str(s: &str) -> Result<Tools, &'static str> {
        Tools::parse(s)
    }
}

/// What one event does to the app: the active tool acts, then the zoom tool
/// tracks the pointer or zooms on scroll; only the brush yields stamps.
pub open spec fn event_applied(before: App, after: App, events: AppEvents, stamps: Seq<Stamp>) -> bool {
    &&& after.active_tool == before.active_tool
    &&& after.canvas.image == before.canvas.image
    &&& after.canvas.rotation == before.canvas.rotation
    &&& after.canvas.transform == before.canvas.transform
    &&& before.active_tool == Tools::Brush ==> after.pan == before.pan
    &&& before.active_tool == Tools::Pan ==> stamps.len() == 0 && after.brush == before.brush
    &&& before.active_tool == Tools::Pan ==>
        after.pan.last_point == pan_anchor_after(before.pan.last_point, events)
    &&& match events {
        AppEvents::ScrollEvent { delta_y } => {
            let nz = zoom_target(before.canvas.zoom as int, delta_y < 0);
            &&& after.canvas.zoom == nz
            &&& after.canvas.position == zoom_position(
                before.zoom.point, before.canvas.position, nz, before.canvas.zoom as int)
        },
        _ => {
            &&& after.canvas.zoom == before.canvas.zoom
            &&& after.canvas.position == (if before.active_tool == Tools::Pan {
                pan_position_after(before.pan.last_point, before.canvas.position, events)
            } else {
                before.canvas.position
            })
        },
    }
    &&& events is MouseMove ==> after.zoom.point == events->MouseMove_0
}

/// The canvas and its tools. Pointer events go to the active tool, then to
/// the zoom tool, which tracks the pointer whatever tool is active.
pub struct App {
    pub canvas: Canvas,
    pub pan: PanTool,
    pub zoom: ZoomTool,
    pub rotate: RotateTool,
    pub brush: BrushTool,
    pub active_tool: Tools,
}

impl App {
    pub open spec fn wf(&self) -> bool {
        &&& self.canvas.wf()
        &&& self.pan.wf()
        &&& self.zoom.wf()
        &&& self.brush.wf()
    }

    pub fn new() -> (a: App)
        ensures
            a.wf(),
            a.active_tool == Tools::Pan,
            a.canvas.image.is_none(),
            a.canvas.zoom == crate::transform::ZOOM_ONE,
            a.canvas.rotation == 0,
            a.pan.last_point.is_none(),
            a.rotate.step == 1,
            !a.brush.is_drawing,
    {
        App {
            canvas: Canvas::new(),
            pan: PanTool::new(),
            zoom: ZoomTool::new(),
            rotate: RotateTool::new(),
            brush: BrushTool::new(),
            active_tool: Tools::Pan,
        }
    }

    /// Loads the default brush from an encoded texture.
    pub fn load_default_brush(&mut self, texture: &[u8]) -> (r: Result<(), BrushError>)
        requires
            old(self).wf(),
        ensures
            final(self).wf(),
            final(self).canvas == old(self).canvas,
            final(self).active_tool == old(self).active_tool,
            r.is_ok() ==> final(self).brush.brush_manager.has_active(),
    {
        self.brush.load_default(texture)
    }

    pub fn set_tool(&mut self, tool: Tools)
        ensures
            final(self).active_tool == tool,
            final(self).canvas == old(self).canvas,
            final(self).pan == old(self).pan,
            final(self).zoom == old(self).zoom,
            final(self).brush == old(self).brush,
    {
        self.active_tool = tool;
    }

    pub fn zoom_in(&mut self)
        requires
            old(self).wf(),
        ensures
            final(self).wf(),
            final(self).canvas.zoom == zoom_target(old(self).canvas.zoom as int, true),
            final(self).canvas.position == zoom_position(old(self).zoom.point,
                old(self).canvas.position, zoom_target(old(self).canvas.zoom as int, true),
                old(self).canvas.zoom as int),
            final(self).canvas.rotation == old(self).canvas.rotation,
    {
        self.zoom.zoom_in(&mut self.canvas);
    }

    pub fn zoom_out(&mut self)
        requires
            old(self).wf(),
        ensures
            final(self).wf(),
            final(self).canvas.zoom == zoom_target(old(self).canvas.zoom as int, false),
            final(self).canvas.position == zoom_position(old(self).zoom.point,
                old(self).canvas.position, zoom_target(old(self).canvas.zoom as int, false),
                old(self).canvas.zoom as int),
            final(self).canvas.rotation == old(self).canvas.rotation,
    {
        self.zoom.zoom_out(&mut self.canvas);
    }

    /// The zoom as a percentage, in ten-thousandths of a percent.
    pub fn get_zoom(&self) -> (r: i64)
        ensures
            r == self.canvas.zoom,
    {
        self.canvas.zoom
    }

    /// The rotation in degrees.
    pub fn get_rotate(&self) -> (r: i128)
        ensures
            r == self.canvas.rotation * 5,
    {
        self.canvas.rotation as i128 * 5
    }

    pub fn rotate_left(&mut self)
        requires
            old(self).wf(),
        ensures
            final(self).wf(),
            final(self).canvas.rotation == turned(old(self).canvas.rotation as int, -old(self).rotate.step),
            final(self).canvas.zoom == old(self).canvas.zoom,
            final(self).canvas.position == old(self).canvas.position,
    {
        self.rotate.rotate_left(&mut self.canvas);
    }

    pub fn rotate_right(&mut self)
        requires
            old(self).wf(),
        ensures
            final(self).wf(),
            final(self).canvas.rotation == turned(old(self).canvas.rotation as int, old(self).rotate.step as int),
            final(self).canvas.zoom == old(self).canvas.zoom,
            final(self).canvas.position == old(self).canvas.position,
    {
        self.rotate.rotate_right(&mut self.canvas);
    }

    /// Replaces the image; the view and any stroke in progress are kept.
    pub fn open(&mut self, image: ImageSize)
        requires
            old(self).wf(),
        ensures
            final(self).wf(),
            final(self).canvas.image == Some(image),
            final(self).canvas.position == old(self).canvas.position,
            final(self).canvas.zoom == old(self).canvas.zoom,
            final(self).canvas.rotation == old(self).canvas.rotation,
            final(self).brush == old(self).brush,
            final(self).pan == old(self).pan,
    {
        self.canvas.open(image);
    }

    /// Hands an event to the active tool, then to the zoom tool. Returns the
    /// brush stamps to composite onto the image.
    pub fn on_event(&mut self, events: AppEvents, state: &mut ProgramState) -> (r: Vec<Stamp>)
        requires
            old(self).wf(),
            events.in_bounds(),
        ensures
            final(self).wf(),
            event_applied(*old(self), *final(self), events, r@),
    {
        let stamps = match self.active_tool {
            Tools::Pan => {
                self.pan.on_event(events, &mut self.canvas, state);
                Vec::new()
            },
            Tools::Brush => self.brush.on_event(events, &self.canvas, state),
        };
        self.zoom.on_event(events, &mut self.canvas, state);
        stamps
    }

    /// Records the transform of a render of the image, if one is loaded.
    pub fn draw(&mut self) -> (r: Option<Transform>)
        requires
            old(self).wf(),
        ensures
            final(self).wf(),
            final(self).canvas.position == old(self).canvas.position,
            final(self).canvas.zoom == old(self).canvas.zoom,
            final(self).canvas.rotation == old(self).canvas.rotation,
            match old(self).canvas.image {
                None => r.is_none(),
                Some(img) => r == Some(old(self).canvas.forward_spec(img))
                    && final(self).canvas.transform == old(self).canvas.forward_spec(img),
            },
    {
        self.canvas.draw()
    }
}

} // verus!
