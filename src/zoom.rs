use vstd::prelude::*;
use crate::canvas::{Canvas, ImageSize};
use crate::event::AppEvents;
use crate::geometry::{Point, COORD_LIMIT};
use crate::numeric::{abs, clamp, clamp_wide, div_tz, lemma_div_tz_error, lemma_mul_bound, mul_div, mul_div_exec};
use crate::state::ProgramState;
use crate::transform::{
    cos_of, inverse_x, inverse_y, lemma_trig_bounds, sin_of, MAX_ZOOM, MIN_ZOOM, POSITION_LIMIT,
    TRIG_ONE, ZOOM_ONE,
};

verus! {

/// The zoom after one step in (by 1.1) or out (by 1/1.1), held to the zoom range.
pub open spec fn zoom_target(zoom: int, zoom_in: bool) -> int {
    let scaled = if zoom_in {
        zoom * 11 / 10
    } else {
        zoom * 10 / 11
    };
    clamp(scaled, MIN_ZOOM as int, MAX_ZOOM as int)
}

/// The position coordinate that keeps the canvas point under the cursor
/// coordinate `c` in place when the zoom goes from `old_zoom` to `new_zoom`.
pub open spec fn anchored(c: int, pos: int, new_zoom: int, old_zoom: int) -> int {
    clamp(c - mul_div(c - pos, new_zoom, old_zoom), -(POSITION_LIMIT as int), POSITION_LIMIT as int)
}

/// The canvas position after a zoom step about `cursor`.
pub open spec fn zoom_position(cursor: Point, pos: Point, new_zoom: int, old_zoom: int) -> Point {
    if new_zoom != old_zoom {
        Point {
            x: anchored(cursor.x as int, pos.x as int, new_zoom, old_zoom) as i64,
            y: anchored(cursor.y as int, pos.y as int, new_zoom, old_zoom) as i64,
        }
    } else {
        pos
    }
}

/// Zooms about the pointer: it tracks the pointer on every move and zooms
/// on scroll so that the point under the pointer stays in place.
pub struct ZoomTool {
    /// The last known pointer position, the anchor of the next zoom.
    pub point: Point,
}

impl ZoomTool {
    pub open spec fn wf(&self) -> bool {
        self.point.within(COORD_LIMIT as int)
    }

    pub fn new() -> (t: ZoomTool)
        ensures
            t.point == Point::zero_spec(),
            t.wf(),
    {
        ZoomTool { point: Point::zero() }
    }

    /// One zoom step about the tracked point; returns whether the zoom changed.
    fn zoom_step(&self, canvas: &mut Canvas, zoom_in: bool) -> (changed: bool)
        requires
            self.wf(),
            old(canvas).wf(),
        ensures
            final(canvas).wf(),
            changed == (zoom_target(old(canvas).zoom as int, zoom_in) != old(canvas).zoom),
            final(canvas).zoom == zoom_target(old(canvas).zoom as int, zoom_in),
            final(canvas).position == zoom_position(
                self.point,
                old(canvas).position,
                zoom_target(old(canvas).zoom as int, zoom_in),
                old(canvas).zoom as int,
            ),
            final(canvas).image == old(canvas).image,
            final(canvas).rotation == old(canvas).rotation,
            final(canvas).transform == old(canvas).transform,
    {
        let old_zoom = canvas.zoom;
        let scaled = if zoom_in {
            old_zoom * 11 / 10
        } else {
            old_zoom * 10 / 11
        };
        let new_zoom = clamp_wide(scaled as i128, MIN_ZOOM, MAX_ZOOM);
        if new_zoom != old_zoom {
            let ax = mul_div_exec(self.point.x - canvas.position.x, new_zoom, old_zoom);
            let ay = mul_div_exec(self.point.y - canvas.position.y, new_zoom, old_zoom);
            proof {
                let dx = self.point.x - canvas.position.x;
                let dy = self.point.y - canvas.position.y;
                lemma_div_tz_error(dx * new_zoom, old_zoom as int);
                lemma_div_tz_error(dy * new_zoom, old_zoom as int);
                assert(-0x8_0000_0000_0000_0000 <= ax <= 0x8_0000_0000_0000_0000) by (nonlinear_arith)
                    requires
                        (if ax < 0 { -ax } else { ax as int }) * old_zoom
                            <= (if dx * new_zoom < 0 { -(dx * new_zoom) } else { dx * new_zoom }),
                        -0x10_0000_0000_0000 <= dx <= 0x10_0000_0000_0000,
                        0 < new_zoom <= MAX_ZOOM,
                        old_zoom >= MIN_ZOOM;
                assert(-0x8_0000_0000_0000_0000 <= ay <= 0x8_0000_0000_0000_0000) by (nonlinear_arith)
                    requires
                        (if ay < 0 { -ay } else { ay as int }) * old_zoom
                            <= (if dy * new_zoom < 0 { -(dy * new_zoom) } else { dy * new_zoom }),
                        -0x10_0000_0000_0000 <= dy <= 0x10_0000_0000_0000,
                        0 < new_zoom <= MAX_ZOOM,
                        old_zoom >= MIN_ZOOM;
            }
            canvas.zoom = new_zoom;
            canvas.position.x = clamp_wide(self.point.x as i128 - ax, -POSITION_LIMIT, POSITION_LIMIT);
            canvas.position.y = clamp_wide(self.point.y as i128 - ay, -POSITION_LIMIT, POSITION_LIMIT);
            true
        } else {
            false
        }
    }

    /// Zooms in one step about the tracked point.
    pub fn zoom_in(&self, canvas: &mut Canvas)
        requires
            self.wf(),
            old(canvas).wf(),
        ensures
            final(canvas).wf(),
            final(canvas).zoom == zoom_target(old(canvas).zoom as int, true),
            final(canvas).position == zoom_position(
                self.point,
                old(canvas).position,
                zoom_target(old(canvas).zoom as int, true),
                old(canvas).zoom as int,
            ),
            final(canvas).image == old(canvas).image,
            final(canvas).rotation == old(canvas).rotation,
            final(canvas).transform == old(canvas).transform,
    {
        self.zoom_step(canvas, true);
    }

    /// Zooms out one step about the tracked point.
    pub fn zoom_out(&self, canvas: &mut Canvas)
        requires
            self.wf(),
            old(canvas).wf(),
        ensures
            final(canvas).wf(),
            final(canvas).zoom == zoom_target(old(canvas).zoom as int, false),
            final(canvas).position == zoom_position(
                self.point,
                old(canvas).position,
                zoom_target(old(canvas).zoom as int, false),
                old(canvas).zoom as int,
            ),
            final(canvas).image == old(canvas).image,
            final(canvas).rotation == old(canvas).rotation,
            final(canvas).transform == old(canvas).transform,
    {
        self.zoom_step(canvas, false);
    }

    /// A move updates the tracked point; a scroll up zooms in and a scroll
    /// down zooms out, requesting a repaint when the zoom changed.
    pub fn on_event(&mut self, events: AppEvents, canvas: &mut Canvas, state: &mut ProgramState)
        requires
            old(self).wf(),
            old(canvas).wf(),
            events.in_bounds(),
        ensures
            final(self).wf(),
            final(canvas).wf(),
            final(canvas).image == old(canvas).image,
            final(canvas).rotation == old(canvas).rotation,
            final(canvas).transform == old(canvas).transform,
            match events {
                AppEvents::MouseMove(p) => final(self).point == p
                    && final(canvas).zoom == old(canvas).zoom
                    && final(canvas).position == old(canvas).position
                    && final(state).needs_paint == old(state).needs_paint,
                AppEvents::ScrollEvent { delta_y } => {
                    let nz = zoom_target(old(canvas).zoom as int, delta_y < 0);
                    &&& final(self).point == old(self).point
                    &&& final(canvas).zoom == nz
                    &&& final(canvas).position == zoom_position(
                        old(self).point, old(canvas).position, nz, old(canvas).zoom as int)
                    &&& final(state).needs_paint == (old(state).needs_paint || nz != old(canvas).zoom)
                },
                _ => final(self).point == old(self).point
                    && final(canvas).zoom == old(canvas).zoom
                    && final(canvas).position == old(canvas).position
                    && final(state).needs_paint == old(state).needs_paint,
            },
    {
        match events {
            AppEvents::MouseMove(point) => {
                self.point = point;
            },
            AppEvents::ScrollEvent { delta_y } => {
                if self.zoom_step(canvas, delta_y < 0) {
                    state.request_paint();
                }
            },
            _ => {},
        }
    }
}

} // verus!

verus! {

/// The zoom after `n` steps in one direction.
pub open spec fn zoom_steps(zoom: int, zoom_in: bool, n: nat) -> int
    decreases n,
{
    if n == 0 {
        zoom
    } else {
        zoom_target(zoom_steps(zoom, zoom_in, (n - 1) as nat), zoom_in)
    }
}

/// However many steps in or out, the zoom stays within `[MIN_ZOOM, MAX_ZOOM]`.
pub proof fn lemma_zoom_steps_in_range(zoom: int, zoom_in: bool, n: nat)
    requires
        MIN_ZOOM <= zoom <= MAX_ZOOM,
    ensures
        MIN_ZOOM <= zoom_steps(zoom, zoom_in, n) <= MAX_ZOOM,
    decreases n,
{
    if n > 0 {
        lemma_zoom_steps_in_range(zoom, zoom_in, (n - 1) as nat);
    }
}

/// How far, in length units, the image point under the cursor may drift
/// through one zoom step, from rounding alone.
pub const ZOOM_DRIFT: i64 = 24;

/// If `a2 / z2` is within one part in `z2` of `a / z`, the two offsets
/// scaled back to zoom 1.0 differ by at most 11 units.
proof fn lemma_unzoom_drift(a: int, z: int, a2: int, z2: int)
    requires
        MIN_ZOOM <= z <= MAX_ZOOM,
        MIN_ZOOM <= z2 <= MAX_ZOOM,
        -z < a2 * z - a * z2 < z,
    ensures
        abs(div_tz(a2 * ZOOM_ONE, z2) - div_tz(a * ZOOM_ONE, z)) <= 11,
{
    let one = ZOOM_ONE as int;
    let v = div_tz(a * one, z);
    let v2 = div_tz(a2 * one, z2);
    lemma_div_tz_error(a * one, z);
    lemma_div_tz_error(a2 * one, z2);
    let e0 = v * z - a * one;
    let e1 = v2 * z2 - a2 * one;
    let e = a2 * z - a * z2;
    assert(-z < e0 < z);
    assert(-z2 < e1 < z2);
    let d = v2 - v;
    assert(d * z * z2 == v2 * z2 * z - v * z * z2) by (nonlinear_arith) requires d == v2 - v;
    assert(v2 * z2 * z == e1 * z + a2 * one * z) by (nonlinear_arith) requires e1 == v2 * z2 - a2 * one;
    assert(v * z * z2 == e0 * z2 + a * one * z2) by (nonlinear_arith) requires e0 == v * z - a * one;
    assert(one * e == a2 * one * z - a * one * z2) by (nonlinear_arith) requires e == a2 * z - a * z2;
    assert(-(one * z) < one * e < one * z) by (nonlinear_arith) requires -z < e < z, one > 0;
    assert(-(z2 * z) < e1 * z < z2 * z) by (nonlinear_arith) requires -z2 < e1 < z2, z > 0;
    assert(-(z * z2) < e0 * z2 < z * z2) by (nonlinear_arith) requires -z < e0 < z, z2 > 0;
    assert(z2 * z == z * z2) by (nonlinear_arith);
    assert(-(z * (one + 2 * z2)) < d * z * z2 < z * (one + 2 * z2)) by (nonlinear_arith)
        requires
            d * z * z2 == one * e + e1 * z - e0 * z2,
            -(one * z) < one * e < one * z,
            -(z2 * z) < e1 * z < z2 * z,
            -(z * z2) < e0 * z2 < z * z2,
            z2 * z == z * z2;
    assert(-(one + 2 * z2) < d * z2 < one + 2 * z2) by (nonlinear_arith)
        requires -(z * (one + 2 * z2)) < d * z * z2 < z * (one + 2 * z2), z > 0;
    assert(-12 < d < 12) by (nonlinear_arith)
        requires -(one + 2 * z2) < d * z2 < one + 2 * z2, one == 1_000_000, z2 >= 100_000;
}

/// A rotation moves two points at most 11 units apart per axis to results at
/// most 23 units apart per axis.
proof fn lemma_turn_drift(c: int, s: int, x: int, y: int, x2: int, y2: int)
    requires
        abs(c) <= TRIG_ONE,
        abs(s) <= TRIG_ONE,
        abs(x2 - x) <= 11,
        abs(y2 - y) <= 11,
    ensures
        abs(div_tz(c * x2 + s * y2, TRIG_ONE as int) - div_tz(c * x + s * y, TRIG_ONE as int)) <= 23,
        abs(div_tz(c * y2 - s * x2, TRIG_ONE as int) - div_tz(c * y - s * x, TRIG_ONE as int)) <= 23,
{
    let t = TRIG_ONE as int;
    lemma_mul_bound(c, x2 - x, t, 11);
    lemma_mul_bound(s, y2 - y, t, 11);
    lemma_mul_bound(c, y2 - y, t, 11);
    lemma_mul_bound(s, x2 - x, t, 11);
    assert(c * x2 - c * x == c * (x2 - x)) by (nonlinear_arith);
    assert(s * y2 - s * y == s * (y2 - y)) by (nonlinear_arith);
    assert(c * y2 - c * y == c * (y2 - y)) by (nonlinear_arith);
    assert(s * x2 - s * x == s * (x2 - x)) by (nonlinear_arith);
    let p = c * x + s * y;
    let pa = c * x2 + s * y2;
    let q = c * y - s * x;
    let qa = c * y2 - s * x2;
    lemma_div_tz_error(p, t);
    lemma_div_tz_error(pa, t);
    lemma_div_tz_error(q, t);
    lemma_div_tz_error(qa, t);
    let u = div_tz(p, t);
    let ua = div_tz(pa, t);
    let w = div_tz(q, t);
    let wa = div_tz(qa, t);
    assert(-24 * t < (ua - u) * t < 24 * t) by (nonlinear_arith)
        requires
            -t < u * t - p < t,
            -t < ua * t - pa < t,
            -22 * t <= pa - p <= 22 * t;
    assert(-24 < ua - u < 24) by (nonlinear_arith)
        requires -24 * t < (ua - u) * t < 24 * t, t > 0;
    assert(-24 * t < (wa - w) * t < 24 * t) by (nonlinear_arith)
        requires
            -t < w * t - q < t,
            -t < wa * t - qa < t,
            -22 * t <= qa - q <= 22 * t;
    assert(-24 < wa - w < 24) by (nonlinear_arith)
        requires -24 * t < (wa - w) * t < 24 * t, t > 0;
}

/// A zoom step about the cursor keeps the image point under the cursor in
/// place: after a render at the new zoom, the cursor maps to the image point
/// it mapped to before, within `ZOOM_DRIFT` units of rounding, as long as
/// the new position stays inside the position range.
pub proof fn lemma_zoom_keeps_cursor_point(canvas: Canvas, image: ImageSize, cursor: Point, zoom_in: bool)
    requires
        canvas.wf(),
        cursor.within(COORD_LIMIT as int),
        ({
            let nz = zoom_target(canvas.zoom as int, zoom_in);
            &&& -POSITION_LIMIT <= cursor.x - mul_div(cursor.x - canvas.position.x, nz, canvas.zoom as int) <= POSITION_LIMIT
            &&& -POSITION_LIMIT <= cursor.y - mul_div(cursor.y - canvas.position.y, nz, canvas.zoom as int) <= POSITION_LIMIT
        }),
    ensures
        ({
            let nz = zoom_target(canvas.zoom as int, zoom_in);
            let zoomed = Canvas {
                zoom: nz as i64,
                position: zoom_position(cursor, canvas.position, nz, canvas.zoom as int),
                ..canvas
            };
            let t0 = canvas.forward_spec(image);
            let t1 = zoomed.forward_spec(image);
            &&& abs(inverse_x(t1, cursor.x as int, cursor.y as int) - inverse_x(t0, cursor.x as int, cursor.y as int)) <= ZOOM_DRIFT
            &&& abs(inverse_y(t1, cursor.x as int, cursor.y as int) - inverse_y(t0, cursor.x as int, cursor.y as int)) <= ZOOM_DRIFT
        }),
{
    let z = canvas.zoom as int;
    let nz = zoom_target(z, zoom_in);
    let ax = cursor.x - canvas.position.x;
    let ay = cursor.y - canvas.position.y;
    if nz != z {
        let mx = mul_div(ax, nz, z);
        let my = mul_div(ay, nz, z);
        lemma_div_tz_error(ax * nz, z);
        lemma_div_tz_error(ay * nz, z);
        let np = zoom_position(cursor, canvas.position, nz, z);
        assert(cursor.x - np.x == mx);
        assert(cursor.y - np.y == my);
        lemma_unzoom_drift(ax, z, mx, nz);
        lemma_unzoom_drift(ay, z, my, nz);
        lemma_trig_bounds(canvas.rotation as int);
        lemma_turn_drift(
            cos_of(canvas.rotation as int),
            sin_of(canvas.rotation as int),
            div_tz(ax * ZOOM_ONE, z),
            div_tz(ay * ZOOM_ONE, z),
            div_tz(mx * ZOOM_ONE, nz),
            div_tz(my * ZOOM_ONE, nz),
        );
    }
}

} // verus!
