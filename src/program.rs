use vstd::prelude::*;
use vstd::string::*;
use crate::app::{event_applied, App, Tools};
use crate::brush::Stamp;
use crate::brush_definition::BrushError;
use crate::canvas::ImageSize;
use crate::event::AppEvents;
use crate::state::ProgramState;
use crate::text::{tenths, tenths_text};
use crate::transform::Transform;

verus! {

/// The zoom in tenths of a percent, rounded to nearest, from a zoom in millionths.
pub open spec fn zoom_tenths(zoom: int) -> int {
    (zoom + 500) / 1000
}

/// The text of a zoom readout: a percentage with one decimal.
pub open spec fn zoom_label(zoom: int) -> Seq<char> {
    tenths(zoom_tenths(zoom)) + seq!['%']
}

/// The text of a rotation readout: degrees with one decimal.
pub open spec fn rotate_label(rotation: int) -> Seq<char> {
    tenths(rotation * 50) + seq!['\u{b0}']
}

/// The application as the user interface sees it: the app and the shared
/// interaction state, driven one event or command at a time.
pub struct Program {
    pub app: App,
    pub state: ProgramState,
}

impl Program {
    pub open spec fn wf(&self) -> bool {
        self.app.wf()
    }

    pub fn new() -> (p: Program)
        ensures
            p.wf(),
            p.app.active_tool == Tools::Pan,
            p.app.canvas.image.is_none(),
            !p.state.needs_paint,
    {
        Program { app: App::new(), state: ProgramState::new() }
    }

    /// Loads the default brush from an encoded texture.
    pub fn load_default_brush(&mut self, texture: &[u8]) -> (r: Result<(), BrushError>)
        requires
            old(self).wf(),
        ensures
            final(self).wf(),
            final(self).app.canvas == old(self).app.canvas,
            r.is_ok() ==> final(self).app.brush.brush_manager.has_active(),
    {
        self.app.load_default_brush(texture)
    }

    pub fn set_tool(&mut self, tool: Tools)
        requires
            old(self).wf(),
        ensures
            final(self).wf(),
            final(self).app.active_tool == tool,
            final(self).app.canvas == old(self).app.canvas,
    {
        self.app.set_tool(tool);
    }

    pub fn zoom_in(&mut self)
        requires
            old(self).wf(),
        ensures
            final(self).wf(),
            final(self).app.canvas.zoom == crate::zoom::zoom_target(old(self).app.canvas.zoom as int, true),
    {
        self.app.zoom_in();
    }

    pub fn zoom_out(&mut self)
        requires
            old(self).wf(),
        ensures
            final(self).wf(),
            final(self).app.canvas.zoom == crate::zoom::zoom_target(old(self).app.canvas.zoom as int, false),
    {
        self.app.zoom_out();
    }

    pub fn rotate_left(&mut self)
        requires
            old(self).wf(),
        ensures
            final(self).wf(),
            final(self).app.canvas.rotation == crate::rotate::turned(
                old(self).app.canvas.rotation as int, -old(self).app.rotate.step),
    {
        self.app.rotate_left();
    }

    pub fn rotate_right(&mut self)
        requires
            old(self).wf(),
        ensures
            final(self).wf(),
            final(self).app.canvas.rotation == crate::rotate::turned(
                old(self).app.canvas.rotation as int, old(self).app.rotate.step as int),
    {
        self.app.rotate_right();
    }

    /// The zoom readout, such as `110.0%`.
    pub fn zoom_view(&self) -> (r: String)
        requires
            self.wf(),
        ensures
            r@ == zoom_label(self.app.canvas.zoom as int),
    {
        let zoom = self.app.get_zoom();
        let t = (zoom as i128 + 500) / 1000;
        let mut s = tenths_text(t);
        proof {
            reveal_strlit("%");
        }
        s.append("%");
        s
    }

    /// The rotation readout in degrees, such as `-5.0°`.
    pub fn rotate_view(&self) -> (r: String)
        ensures
            r@ == rotate_label(self.app.canvas.rotation as int),
    {
        let degrees = self.app.get_rotate();
        let mut s = tenths_text(degrees * 10);
        proof {
            reveal_strlit("\u{b0}");
        }
        s.append("\u{b0}");
        s
    }

    /// Replaces the image with a decoded one of this size.
    pub fn open_image(&mut self, image: ImageSize)
        requires
            old(self).wf(),
        ensures
            final(self).wf(),
            final(self).app.canvas.image == Some(image),
            final(self).app.brush == old(self).app.brush,
    {
        self.app.open(image);
    }

    /// Delivers one pointer or scroll event; returns the stamps to composite.
    pub fn on_event(&mut self, events: AppEvents) -> (r: Vec<Stamp>)
        requires
            old(self).wf(),
            events.in_bounds(),
        ensures
            final(self).wf(),
            event_applied(old(self).app, final(self).app, events, r@),
    {
        self.app.on_event(events, &mut self.state)
    }

    /// Records the transform of a render of the image, if one is loaded.
    pub fn draw(&mut self) -> (r: Option<Transform>)
        requires
            old(self).wf(),
        ensures
            final(self).wf(),
            final(self).app.canvas.position == old(self).app.canvas.position,
            final(self).app.canvas.zoom == old(self).app.canvas.zoom,
            final(self).app.canvas.rotation == old(self).app.canvas.rotation,
            match old(self).app.canvas.image {
                None => r.is_none(),
                Some(img) => r == Some(old(self).app.canvas.forward_spec(img))
                    && final(self).app.canvas.transform == old(self).app.canvas.forward_spec(img),
            },
    {
        self.app.draw()
    }
}

} // verus!
