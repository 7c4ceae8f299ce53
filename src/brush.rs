use vstd::prelude::*;
use crate::brush_definition::{cache_lookup, rounded_px, BrushDefinition, BrushError, Variant, MAX_THICKNESS};
use crate::brush_manager::BrushManager;
use crate::canvas::Canvas;
use crate::event::AppEvents;
use crate::geometry::Point;
use crate::state::ProgramState;
use crate::stroke::{effective_spacing, effective_spacing_spec, stamp_points, stroke_points};
use crate::transform::{inverse_x, inverse_y, IMAGE_COORD_LIMIT};

verus! {

/// Relies on `rand::rng` and `Rng::random_range`: a draw from `0..bound`,
/// which panics only on an empty range.
#[verifier::external_body]
fn random_below(bound: u32) -> (r: u32)
    requires
        bound > 0,
    ensures
        r < bound,
{
    rand::Rng::random_range(&mut rand::rng(), 0..bound)
}

/// Degrees between the angles a stamp may take.
pub const ANGLE_STEP_DEG: i32 = 15;

/// The number of angles a stamp may take: 0, 15, ..., 345 degrees.
pub const ANGLE_COUNT: u32 = 24;

/// One stamp to composite onto the image: the variant in cache `slot` of the
/// active brush, with its top-left corner at `origin` in image space.
#[derive(Clone, Copy, Debug, PartialEq, Eq, Structural)]
pub struct Stamp {
    pub origin: Point,
    pub slot: usize,
}

/// The top-left corner of a square stamp `size` pixels wide centered on `center`.
pub open spec fn stamp_origin(center: Point, size: int) -> Point {
    Point { x: (center.x - size * 500) as i64, y: (center.y - size * 500) as i64 }
}

/// The screen point `p` mapped into image space by the canvas's last render.
pub open spec fn image_point(canvas: Canvas, p: Point) -> Point {
    Point {
        x: inverse_x(canvas.transform, p.x as int, p.y as int) as i64,
        y: inverse_y(canvas.transform, p.x as int, p.y as int) as i64,
    }
}

/// `s` is a stamp of a variant at `thickness` units in some multiple of
/// 15 degrees, centered on `center`, in a cache `cache`.
pub open spec fn stamp_fits(s: Stamp, center: Point, cache: Seq<Variant>, thickness: int) -> bool {
    &&& s.slot < cache.len()
    &&& cache[s.slot as int].thickness_px == rounded_px(thickness)
    &&& 0 <= cache[s.slot as int].angle_deg < 360
    &&& cache[s.slot as int].angle_deg % 15 == 0
    &&& s.origin == stamp_origin(center, cache[s.slot as int].size as int)
}

/// Paints textured stamps into the image along the pointer's path.
pub struct BrushTool {
    pub brush_manager: BrushManager,
    pub is_drawing: bool,
    /// The last point stamped, in image space.
    pub last_point: Point,
    /// Stamp thickness, in length units.
    pub thickness: i64,
    /// Configured distance between stamps, in length units.
    pub spacing: i64,
}

impl BrushTool {
    pub open spec fn wf(&self) -> bool {
        &&& self.brush_manager.wf()
        &&& self.last_point.within(IMAGE_COORD_LIMIT as int)
        &&& 0 < self.thickness <= MAX_THICKNESS
    }

    /// The active brush's variants.
    pub open spec fn active_cache(&self) -> Seq<Variant> {
        self.brush_manager.brushes@[self.brush_manager.active_index()].cache@
    }

    /// Everything but the active brush's variant cache is as in `other`.
    pub open spec fn same_but_cache(&self, other: &BrushTool) -> bool {
        &&& self.brush_manager.active_brush_name == other.brush_manager.active_brush_name
        &&& self.brush_manager.brushes@.len() == other.brush_manager.brushes@.len()
        &&& forall|i: int| 0 <= i < self.brush_manager.brushes@.len() ==> {
            &&& (#[trigger] self.brush_manager.brushes@[i]).name == other.brush_manager.brushes@[i].name
            &&& self.brush_manager.brushes@[i].texture == other.brush_manager.brushes@[i].texture
        }
        &&& self.thickness == other.thickness
        &&& self.spacing == other.spacing
    }

    /// A tool with no brush loaded, a thickness of 15 pixels and a spacing
    /// of 0.1 pixel.
    pub fn new() -> (t: BrushTool)
        ensures
            t.wf(),
            !t.is_drawing,
            t.last_point == Point::zero_spec(),
            t.thickness == 15_000,
            t.spacing == 100,
            t.brush_manager.brushes@.len() == 0,
    {
        BrushTool {
            brush_manager: BrushManager::new(),
            is_drawing: false,
            last_point: Point::zero(),
            thickness: 15_000,
            spacing: 100,
        }
    }

    /// Loads the round default brush from an encoded texture.
    pub fn load_default(&mut self, texture: &[u8]) -> (r: Result<(), BrushError>)
        requires
            old(self).wf(),
        ensures
            final(self).wf(),
            final(self).is_drawing == old(self).is_drawing,
            final(self).last_point == old(self).last_point,
            final(self).thickness == old(self).thickness,
            final(self).spacing == old(self).spacing,
            r.is_ok() ==> final(self).brush_manager.has_active(),
            r.is_err() ==> final(self).brush_manager.brushes@ == old(self).brush_manager.brushes@,
    {
        self.brush_manager.load_default(texture)
    }

    /// Plans one stamp at `point` with the angle `angle_index * 15` degrees,
    /// making the variant if the active brush has none for it. Without an
    /// active brush there is no stamp.
    pub fn stamp_with_angle(&mut self, point: Point, angle_index: u32) -> (r: Option<Stamp>)
        requires
            old(self).wf(),
            point.within(IMAGE_COORD_LIMIT as int),
            angle_index < ANGLE_COUNT,
        ensures
            final(self).wf(),
            final(self).same_but_cache(old(self)),
            final(self).is_drawing == old(self).is_drawing,
            final(self).last_point == old(self).last_point,
            final(self).brush_manager.has_active() == old(self).brush_manager.has_active(),
            r.is_some() == old(self).brush_manager.has_active(),
            match r {
                Some(s) => {
                    let cache = final(self).active_cache();
                    &&& s.slot < cache.len()
                    &&& cache[s.slot as int].thickness_px == rounded_px(old(self).thickness as int)
                    &&& cache[s.slot as int].angle_deg == angle_index * 15
                    &&& s.origin == stamp_origin(point, cache[s.slot as int].size as int)
                    &&& cache_lookup(old(self).active_cache(), cache, s.slot as int,
                        rounded_px(old(self).thickness as int), angle_index * 15)
                },
                None => final(self).brush_manager.brushes@ == old(self).brush_manager.brushes@,
            },
    {
        let angle_deg = (angle_index as i32) * ANGLE_STEP_DEG;
        let thickness = self.thickness;
        match self.brush_manager.get_active_brush_mut() {
            None => None,
            Some(brush) => {
                let slot = brush.get_cached(thickness, angle_deg);
                let size = brush.cache[slot].size as i64;
                let origin = Point { x: point.x - size * 500, y: point.y - size * 500 };
                proof {
                    old(self).brush_manager.lemma_same_names(&self.brush_manager);
                }
                Some(Stamp { origin, slot })
            },
        }
    }

    /// Plans one stamp at `point` in a random multiple of 15 degrees.
    fn draw_stamp(&mut self, point: Point) -> (r: Option<Stamp>)
        requires
            old(self).wf(),
            point.within(IMAGE_COORD_LIMIT as int),
        ensures
            final(self).wf(),
            final(self).same_but_cache(old(self)),
            final(self).is_drawing == old(self).is_drawing,
            final(self).last_point == old(self).last_point,
            final(self).brush_manager.has_active() == old(self).brush_manager.has_active(),
            r.is_some() == old(self).brush_manager.has_active(),
            match r {
                Some(s) => {
                    &&& stamp_fits(s, point, final(self).active_cache(), old(self).thickness as int)
                    &&& (final(self).active_cache() == old(self).active_cache()
                        || exists|v: Variant| final(self).active_cache() == #[trigger] old(self).active_cache().push(v))
                },
                None => final(self).brush_manager.brushes@ == old(self).brush_manager.brushes@,
            },
    {
        let angle_index = random_below(ANGLE_COUNT);
        let r = self.stamp_with_angle(point, angle_index);
        proof {
            if r.is_some() {
                let cache = self.active_cache();
                let s = r.unwrap();
                assert((angle_index * 15) % 15 == 0);
                if cache != old(self).active_cache() {
                    assert(cache == old(self).active_cache().push(cache[s.slot as int]));
                }
            }
        }
        r
    }

    /// Plans the stamps along the segment from `start` to `end`.
    fn draw_stamps(&mut self, start: Point, end: Point) -> (r: Vec<Stamp>)
        requires
            old(self).wf(),
            start.within(IMAGE_COORD_LIMIT as int),
            end.within(IMAGE_COORD_LIMIT as int),
        ensures
            final(self).wf(),
            final(self).same_but_cache(old(self)),
            final(self).is_drawing == old(self).is_drawing,
            final(self).last_point == old(self).last_point,
            final(self).brush_manager.has_active() == old(self).brush_manager.has_active(),
            ({
                let pts = stroke_points(start, end,
                    effective_spacing_spec(old(self).thickness as int, old(self).spacing as int));
                &&& r@.len() == (if old(self).brush_manager.has_active() { pts.len() } else { 0 })
                &&& forall|i: int| 0 <= i < r@.len() ==> stamp_fits(#[trigger] r@[i], pts[i],
                    final(self).active_cache(), old(self).thickness as int)
            }),
    {
        let spacing = effective_spacing(self.thickness, self.spacing);
        let pts = stamp_points(start, end, spacing);
        let mut out: Vec<Stamp> = Vec::new();
        let mut i: usize = 0;
        while i < pts.len()
            invariant
                self.wf(),
                self.same_but_cache(old(self)),
                self.is_drawing == old(self).is_drawing,
                self.last_point == old(self).last_point,
                self.brush_manager.has_active() == old(self).brush_manager.has_active(),
                0 <= i <= pts@.len(),
                forall|j: int| 0 <= j < pts@.len() ==> (#[trigger] pts@[j]).within(IMAGE_COORD_LIMIT as int),
                out@.len() == (if old(self).brush_manager.has_active() { i as int } else { 0 }),
                forall|j: int| 0 <= j < out@.len() ==> stamp_fits(#[trigger] out@[j], pts@[j],
                    self.active_cache(), old(self).thickness as int),
            decreases pts@.len() - i,
        {
            let ghost before = self.active_cache();
            match self.draw_stamp(pts[i]) {
                Some(s) => {
                    proof {
                        assert forall|j: int| 0 <= j < out@.len() implies stamp_fits(#[trigger] out@[j], pts@[j],
                            self.active_cache(), old(self).thickness as int) by {
                            let c = self.active_cache();
                            if c != before {
                                let v = choose|v: Variant| c == #[trigger] before.push(v);
                                assert(c[out@[j].slot as int] == before[out@[j].slot as int]);
                            }
                        }
                    }
                    out.push(s);
                },
                None => {},
            }
            i = i + 1;
        }
        out
    }

    /// Press maps the pointer into image space and stamps once; a move while
    /// drawing stamps along the way from the last point; release ends the
    /// stroke and drops the pending repaint. Without an image, press and
    /// move do nothing. Returns the stamps to composite, in order.
    pub fn on_event(&mut self, events: AppEvents, canvas: &Canvas, state: &mut ProgramState) -> (r: Vec<Stamp>)
        requires
            old(self).wf(),
            canvas.wf(),
            events.in_bounds(),
        ensures
            final(self).wf(),
            final(self).same_but_cache(old(self)),
            final(self).brush_manager.has_active() == old(self).brush_manager.has_active(),
            match events {
                AppEvents::MouseDown(p) => if canvas.image.is_some() {
                    let ip = image_point(*canvas, p);
                    &&& final(self).is_drawing
                    &&& final(self).last_point == ip
                    &&& final(state).needs_paint
                    &&& r@.len() == (if old(self).brush_manager.has_active() { 1int } else { 0 })
                    &&& r@.len() == 1 ==> stamp_fits(r@[0], ip, final(self).active_cache(), old(self).thickness as int)
                } else {
                    &&& final(self).is_drawing == old(self).is_drawing
                    &&& final(self).last_point == old(self).last_point
                    &&& final(state).needs_paint == old(state).needs_paint
                    &&& r@.len() == 0
                },
                AppEvents::MouseMove(p) => if old(self).is_drawing && canvas.image.is_some() {
                    let ip = image_point(*canvas, p);
                    let pts = stroke_points(old(self).last_point, ip,
                        effective_spacing_spec(old(self).thickness as int, old(self).spacing as int));
                    &&& final(self).is_drawing
                    &&& final(self).last_point == ip
                    &&& final(state).needs_paint
                    &&& r@.len() == (if old(self).brush_manager.has_active() { pts.len() } else { 0 })
                    &&& forall|i: int| 0 <= i < r@.len() ==> stamp_fits(#[trigger] r@[i], pts[i],
                        final(self).active_cache(), old(self).thickness as int)
                } else {
                    &&& final(self).is_drawing == old(self).is_drawing
                    &&& final(self).last_point == old(self).last_point
                    &&& final(state).needs_paint == old(state).needs_paint
                    &&& r@.len() == 0
                },
                AppEvents::MouseUp(_) => {
                    &&& !final(self).is_drawing
                    &&& final(self).last_point == old(self).last_point
                    &&& !final(state).needs_paint
                    &&& r@.len() == 0
                },
                AppEvents::ScrollEvent { .. } => {
                    &&& final(self).is_drawing == old(self).is_drawing
                    &&& final(self).last_point == old(self).last_point
                    &&& final(state).needs_paint == old(state).needs_paint
                    &&& r@.len() == 0
                },
            },
    {
        let mut stamps: Vec<Stamp> = Vec::new();
        match events {
            AppEvents::MouseDown(point) => {
                if canvas.image.is_some() {
                    let image_point = canvas.screen_to_canvas_coords(point);
                    self.last_point = image_point;
                    self.is_drawing = true;
                    if let Some(s) = self.draw_stamp(image_point) {
                        stamps.push(s);
                    }
                    state.request_paint();
                }
            },
            AppEvents::MouseMove(point) => {
                if self.is_drawing && canvas.image.is_some() {
                    let image_point = canvas.screen_to_canvas_coords(point);
                    stamps = self.draw_stamps(self.last_point, image_point);
                    self.last_point = image_point;
                    state.request_paint();
                }
            },
            AppEvents::MouseUp(_) => {
                self.is_drawing = false;
                state.stop_request_paint();
            },
            AppEvents::ScrollEvent { .. } => {},
        }
        stamps
    }
}

} // verus!
