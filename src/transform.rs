use vstd::prelude::*;
use crate::geometry::{Point, COORD_LIMIT};
use crate::numeric::{div_tz, div_tz_exec, mul_div, mul_div_exec, abs, lemma_div_tz_error, lemma_mul_bound};

verus! {

/// Zoom is held in millionths: `ZOOM_ONE` is a scale of 1.0.
pub const ZOOM_ONE: i64 = 1_000_000;

/// Smallest zoom (0.1).
pub const MIN_ZOOM: i64 = 100_000;

/// Largest zoom (10.0).
pub const MAX_ZOOM: i64 = 10_000_000;

/// Largest magnitude (2^50 units) of the canvas position.
pub const POSITION_LIMIT: i64 = 0x4_0000_0000_0000;

/// Largest half extent of an image, in units (2^42).
pub const HALF_LIMIT: i64 = 0x400_0000_0000;

/// Largest magnitude (2^58 units) of an image-local point mapped from the screen.
pub const IMAGE_COORD_LIMIT: i64 = 0x400_0000_0000_0000;

/// Rotation steps in a full turn: one step is 5 degrees.
pub const STEPS_PER_TURN: i64 = 72;

/// Degrees in one rotation step.
pub const DEGREES_PER_STEP: i64 = 5;

/// Fixed-point scale of the sine table (2^20 is 1.0).
pub const TRIG_ONE: i64 = 1_048_576;

/// `sin(5 * i degrees)` for `i` in `0..=18`, scaled by `TRIG_ONE` and rounded.
pub open spec fn sine_step(i: int) -> int {
    if i <= 0 { 0 }
    else if i == 1 { 91389 }
    else if i == 2 { 182083 }
    else if i == 3 { 271391 }
    else if i == 4 { 358634 }
    else if i == 5 { 443147 }
    else if i == 6 { 524288 }
    else if i == 7 { 601438 }
    else if i == 8 { 674012 }
    else if i == 9 { 741455 }
    else if i == 10 { 803256 }
    else if i == 11 { 858943 }
    else if i == 12 { 908093 }
    else if i == 13 { 950333 }
    else if i == 14 { 985339 }
    else if i == 15 { 1012847 }
    else if i == 16 { 1032646 }
    else if i == 17 { 1044586 }
    else { 1048576 }
}

fn sine_step_exec(i: i64) -> (r: i64)
    requires
        0 <= i <= 18,
    ensures
        r == sine_step(i as int),
{
    match i {
        0 => 0,
        1 => 91389,
        2 => 182083,
        3 => 271391,
        4 => 358634,
        5 => 443147,
        6 => 524288,
        7 => 601438,
        8 => 674012,
        9 => 741455,
        10 => 803256,
        11 => 858943,
        12 => 908093,
        13 => 950333,
        14 => 985339,
        15 => 1012847,
        16 => 1032646,
        17 => 1044586,
        _ => 1048576,
    }
}

/// The position of a rotation within one turn, in `0..72`.
pub open spec fn turn_index(rotation: int) -> int {
    rotation % (STEPS_PER_TURN as int)
}

/// Cosine of `rotation` steps, scaled by `TRIG_ONE`.
pub open spec fn cos_of(rotation: int) -> int {
    let k = turn_index(rotation);
    let q = k / 18;
    let r = k % 18;
    if q == 0 {
        sine_step(18 - r)
    } else if q == 1 {
        -sine_step(r)
    } else if q == 2 {
        -sine_step(18 - r)
    } else {
        sine_step(r)
    }
}

/// Sine of `rotation` steps, scaled by `TRIG_ONE`.
pub open spec fn sin_of(rotation: int) -> int {
    let k = turn_index(rotation);
    let q = k / 18;
    let r = k % 18;
    if q == 0 {
        sine_step(r)
    } else if q == 1 {
        sine_step(18 - r)
    } else if q == 2 {
        -sine_step(r)
    } else {
        -sine_step(18 - r)
    }
}

pub proof fn lemma_trig_bounds(rotation: int)
    ensures
        abs(cos_of(rotation)) <= TRIG_ONE,
        abs(sin_of(rotation)) <= TRIG_ONE,
{
}

fn turn_index_exec(rotation: i64) -> (k: i64)
    ensures
        k == turn_index(rotation as int),
        0 <= k < 72,
{
    if rotation >= 0 {
        rotation % 72
    } else {
        let m: i64 = -(rotation + 1);
        let b: i64 = m % 72;
        proof {
            vstd::arithmetic::div_mod::lemma_fundamental_div_mod(m as int, 72);
            let a = m as int / 72;
            assert(rotation as int == (-a - 1) * 72 + (71 - b));
            vstd::arithmetic::div_mod::lemma_fundamental_div_mod_converse_mod(
                rotation as int, 72, -a - 1, 71 - b);
        }
        71 - b
    }
}

/// Cosine and sine of `rotation` steps, scaled by `TRIG_ONE`.
pub fn cos_sin(rotation: i64) -> (r: (i64, i64))
    ensures
        r.0 == cos_of(rotation as int),
        r.1 == sin_of(rotation as int),
{
    let k = turn_index_exec(rotation);
    let q = k / 18;
    let r = k % 18;
    let low = sine_step_exec(r);
    let high = sine_step_exec(18 - r);
    if q == 0 {
        (high, low)
    } else if q == 1 {
        (-low, high)
    } else if q == 2 {
        (-high, -low)
    } else {
        (low, -high)
    }
}

/// The forward transform of a render: translate by `position`, rotate by
/// `rotation` steps, scale by `zoom`, then translate by `-half` so that the
/// image turns and scales about its center.
#[derive(Clone, Copy, Debug, PartialEq, Eq, Structural)]
pub struct Transform {
    pub position: Point,
    pub rotation: i64,
    pub zoom: i64,
    pub half: Point,
}

/// The image-local point that a transform maps onto the screen point
/// `(sx, sy)`: the inverse of the forward transform, rounded toward zero at
/// each division.
pub open spec fn inverse_x(t: Transform, sx: int, sy: int) -> int {
    let vx = mul_div(sx - t.position.x, ZOOM_ONE as int, t.zoom as int);
    let vy = mul_div(sy - t.position.y, ZOOM_ONE as int, t.zoom as int);
    div_tz(cos_of(t.rotation as int) * vx + sin_of(t.rotation as int) * vy, TRIG_ONE as int)
        + t.half.x
}

pub open spec fn inverse_y(t: Transform, sx: int, sy: int) -> int {
    let vx = mul_div(sx - t.position.x, ZOOM_ONE as int, t.zoom as int);
    let vy = mul_div(sy - t.position.y, ZOOM_ONE as int, t.zoom as int);
    div_tz(cos_of(t.rotation as int) * vy - sin_of(t.rotation as int) * vx, TRIG_ONE as int)
        + t.half.y
}

impl Transform {
    pub open spec fn identity_spec() -> Transform {
        Transform {
            position: Point::zero_spec(),
            rotation: 0,
            zoom: ZOOM_ONE,
            half: Point::zero_spec(),
        }
    }

    /// The transform that maps every point to itself.
    pub fn identity() -> (t: Transform)
        ensures
            t == Transform::identity_spec(),
            t.wf(),
    {
        Transform { position: Point::zero(), rotation: 0, zoom: ZOOM_ONE, half: Point::zero() }
    }

    pub open spec fn wf(self) -> bool {
        &&& self.position.within(POSITION_LIMIT as int)
        &&& MIN_ZOOM <= self.zoom <= MAX_ZOOM
        &&& 0 <= self.half.x <= HALF_LIMIT
        &&& 0 <= self.half.y <= HALF_LIMIT
    }

    /// Maps a screen point back into image-local space.
    pub fn invert_point(&self, s: Point) -> (r: Point)
        requires
            self.wf(),
            s.within(COORD_LIMIT as int),
        ensures
            r.x == inverse_x(*self, s.x as int, s.y as int),
            r.y == inverse_y(*self, s.x as int, s.y as int),
            r.within(IMAGE_COORD_LIMIT as int),
    {
        let dx = s.x - self.position.x;
        let dy = s.y - self.position.y;
        let vx = mul_div_exec(dx, ZOOM_ONE, self.zoom);
        let vy = mul_div_exec(dy, ZOOM_ONE, self.zoom);
        proof {
            lemma_div_tz_error(dx as int * ZOOM_ONE, self.zoom as int);
            lemma_div_tz_error(dy as int * ZOOM_ONE, self.zoom as int);
            assert(abs(vx as int) * MIN_ZOOM <= abs(dx as int) * ZOOM_ONE) by (nonlinear_arith)
                requires
                    abs(vx as int) * self.zoom <= abs(dx as int * ZOOM_ONE),
                    self.zoom >= MIN_ZOOM;
            assert(abs(vy as int) * MIN_ZOOM <= abs(dy as int) * ZOOM_ONE) by (nonlinear_arith)
                requires
                    abs(vy as int) * self.zoom <= abs(dy as int * ZOOM_ONE),
                    self.zoom >= MIN_ZOOM;
            lemma_trig_bounds(self.rotation as int);
        }
        let (c, sn) = cos_sin(self.rotation);
        let bound: i128 = 0x100_0000_0000_0000;
        assert(-bound <= vx <= bound && -bound <= vy <= bound);
        let cw = c as i128;
        let sw = sn as i128;
        proof {
            lemma_mul_bound(cw as int, vx as int, TRIG_ONE as int, bound as int);
            lemma_mul_bound(sw as int, vy as int, TRIG_ONE as int, bound as int);
            lemma_mul_bound(cw as int, vy as int, TRIG_ONE as int, bound as int);
            lemma_mul_bound(sw as int, vx as int, TRIG_ONE as int, bound as int);
        }
        let ux = div_tz_exec(cw * vx + sw * vy, TRIG_ONE as i128);
        let uy = div_tz_exec(cw * vy - sw * vx, TRIG_ONE as i128);
        proof {
            lemma_div_tz_error(cw * vx + sw * vy, TRIG_ONE as int);
            lemma_div_tz_error(cw * vy - sw * vx, TRIG_ONE as int);
            assert(abs(ux as int) <= 0x200_0000_0000_0000) by (nonlinear_arith)
                requires
                    abs(ux as int) * TRIG_ONE <= abs(cw * vx + sw * vy),
                    abs(cw * vx + sw * vy) <= 0x2000_0000_0000_0000_0000;
            assert(abs(uy as int) <= 0x200_0000_0000_0000) by (nonlinear_arith)
                requires
                    abs(uy as int) * TRIG_ONE <= abs(cw * vy - sw * vx),
                    abs(cw * vy - sw * vx) <= 0x2000_0000_0000_0000_0000;
        }
        Point { x: (ux + self.half.x as i128) as i64, y: (uy + self.half.y as i128) as i64 }
    }
}

} // verus!
