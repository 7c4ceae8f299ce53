use vstd::prelude::*;
use crate::geometry::{Point, UNITS_PER_PIXEL};
use crate::numeric::{
    covers, is_least_cover, least_cover, lemma_div_tz_error, lemma_least_cover_unique, mul_div,
    mul_div_exec, abs, lemma_abs_mul_nonneg,
};
use crate::transform::IMAGE_COORD_LIMIT;

verus! {

/// The spacing between stamps: the configured spacing, but no more than
/// 0.7 of the thickness, and no less than one pixel.
pub open spec fn effective_spacing_spec(thickness: int, spacing: int) -> int {
    let ideal = thickness * 7 / 10;
    let s = if spacing < ideal { spacing } else { ideal };
    if s < UNITS_PER_PIXEL { UNITS_PER_PIXEL as int } else { s }
}

pub fn effective_spacing(thickness: i64, spacing: i64) -> (r: i64)
    requires
        0 < thickness <= 0x1_0000_0000_0000,
    ensures
        r == effective_spacing_spec(thickness as int, spacing as int),
        r >= UNITS_PER_PIXEL,
{
    let ideal = thickness * 7 / 10;
    let s = if spacing < ideal { spacing } else { ideal };
    if s < UNITS_PER_PIXEL { UNITS_PER_PIXEL } else { s }
}

/// The squared length of the segment from `start` to `end`.
pub open spec fn dist2(start: Point, end: Point) -> int {
    (end.x - start.x) * (end.x - start.x) + (end.y - start.y) * (end.y - start.y)
}

/// The number of steps of length `spacing` along the segment: its length
/// divided by the spacing, rounded up.
pub open spec fn stroke_steps(start: Point, end: Point, spacing: int) -> int {
    choose|n: int| is_least_cover(n, spacing, dist2(start, end))
}

/// The point at parameter `i / n` from `start` to `end`.
pub open spec fn stroke_point(start: Point, end: Point, i: int, n: int) -> Point {
    Point {
        x: (start.x + mul_div(end.x - start.x, i, n)) as i64,
        y: (start.y + mul_div(end.y - start.y, i, n)) as i64,
    }
}

/// Where stamps go along a stroke: a single stamp at `end` when the points
/// coincide; otherwise `n + 1` evenly spaced points from `start` to `end`
/// inclusive, for `n` steps.
pub open spec fn stroke_points(start: Point, end: Point, spacing: int) -> Seq<Point> {
    let n = stroke_steps(start, end, spacing);
    if n == 0 {
        seq![end]
    } else {
        Seq::new((n + 1) as nat, |i: int| stroke_point(start, end, i, n))
    }
}

/// The stamp positions from `start` to `end` at `spacing` units apart.
pub fn stamp_points(start: Point, end: Point, spacing: i64) -> (r: Vec<Point>)
    requires
        start.within(IMAGE_COORD_LIMIT as int),
        end.within(IMAGE_COORD_LIMIT as int),
        spacing >= 1,
    ensures
        r@ == stroke_points(start, end, spacing as int),
        is_least_cover(stroke_steps(start, end, spacing as int), spacing as int, dist2(start, end)),
        (stroke_steps(start, end, spacing as int) == 0) == (start == end),
        start == end ==> r@ == seq![end],
        start != end ==> r@.len() == stroke_steps(start, end, spacing as int) + 1,
        forall|i: int| 0 <= i < r@.len() ==> (#[trigger] r@[i]).within(IMAGE_COORD_LIMIT as int),
{
    let dx = end.x - start.x;
    let dy = end.y - start.y;
    let adx: u128 = if dx < 0 { (-dx) as u128 } else { dx as u128 };
    let ady: u128 = if dy < 0 { (-dy) as u128 } else { dy as u128 };
    let sp = spacing as u128;
    proof {
        assert(adx * adx <= 0x100_0000_0000_0000_0000_0000_0000_0000) by (nonlinear_arith)
            requires adx <= 0x800_0000_0000_0000;
        assert(ady * ady <= 0x100_0000_0000_0000_0000_0000_0000_0000) by (nonlinear_arith)
            requires ady <= 0x800_0000_0000_0000;
        assert(adx * adx == dx * dx) by (nonlinear_arith)
            requires adx == abs(dx as int);
        assert(ady * ady == dy * dy) by (nonlinear_arith)
            requires ady == abs(dy as int);
    }
    let d2: u128 = adx * adx + ady * ady;
    let hi: u128 = (adx + ady) / sp + 1;
    proof {
        let (a, si) = ((adx + ady) as int, sp as int);
        assert(hi * sp >= adx + ady && hi * sp <= adx + ady + sp) by (nonlinear_arith)
            requires hi as int == a / si + 1, si >= 1, a >= 0, a == adx + ady, si == sp;
        assert(covers(hi as int, sp as int, d2 as int)) by (nonlinear_arith)
            requires
                hi * sp >= adx + ady,
                d2 == adx * adx + ady * ady,
                adx >= 0, ady >= 0;
    }
    let n = least_cover(d2, sp, hi);
    proof {
        assert(d2 == dist2(start, end));
        assert(is_least_cover(n as int, spacing as int, d2 as int));
        lemma_least_cover_unique(n as int, stroke_steps(start, end, spacing as int), spacing as int, d2 as int);
        if start != end {
            assert(d2 > 0) by (nonlinear_arith)
                requires d2 == adx * adx + ady * ady, adx > 0 || ady > 0;
            assert(!covers(0, sp as int, d2 as int)) by (nonlinear_arith) requires d2 > 0;
            assert(n != 0);
        } else {
            assert(d2 == 0) by (nonlinear_arith)
                requires d2 == adx * adx + ady * ady, adx == 0, ady == 0;
            if n != 0 {
                assert(covers(n - 1, sp as int, d2 as int)) by (nonlinear_arith)
                    requires d2 == 0, n >= 1;
            }
        }
    }
    let mut out: Vec<Point> = Vec::new();
    if n == 0 {
        out.push(end);
        proof {
            assert(out@ =~= stroke_points(start, end, spacing as int));
        }
        return out;
    }
    proof {
        assert(hi <= adx + ady + 1) by (nonlinear_arith)
            requires hi as int == (adx + ady) as int / (sp as int) + 1, sp >= 1;
    }
    let steps = n as i64;
    let mut i: i64 = 0;
    while i <= steps
        invariant
            0 <= i <= steps + 1,
            steps == n,
            n == stroke_steps(start, end, spacing as int),
            n >= 1,
            n <= 0x2000_0000_0000_0000,
            start.within(IMAGE_COORD_LIMIT as int),
            end.within(IMAGE_COORD_LIMIT as int),
            dx == end.x - start.x,
            dy == end.y - start.y,
            out@.len() == i,
            forall|j: int| 0 <= j < i ==> #[trigger] out@[j] == stroke_point(start, end, j, n as int),
            forall|j: int| 0 <= j < i ==> (#[trigger] out@[j]).within(IMAGE_COORD_LIMIT as int),
        decreases steps + 1 - i,
    {
        let ox = mul_div_exec(dx, i, steps);
        let oy = mul_div_exec(dy, i, steps);
        proof {
            lemma_div_tz_error(dx * i, steps as int);
            lemma_div_tz_error(dy * i, steps as int);
            lemma_abs_mul_nonneg(dx as int, i as int);
            lemma_abs_mul_nonneg(dy as int, i as int);
            let (a, o, ii, st) = (abs(dx as int), abs(ox as int), i as int, steps as int);
            assert(o <= a) by (nonlinear_arith)
                requires o * st <= a * ii, 0 <= ii <= st, st >= 1, a >= 0, o >= 0;
            let (b, q) = (abs(dy as int), abs(oy as int));
            assert(q <= b) by (nonlinear_arith)
                requires q * st <= b * ii, 0 <= ii <= st, st >= 1, b >= 0, q >= 0;
            assert(dx >= 0 ==> dx * ii >= 0) by (nonlinear_arith) requires ii >= 0;
            assert(dx < 0 ==> dx * ii <= 0) by (nonlinear_arith) requires ii >= 0;
            assert(dy >= 0 ==> dy * ii >= 0) by (nonlinear_arith) requires ii >= 0;
            assert(dy < 0 ==> dy * ii <= 0) by (nonlinear_arith) requires ii >= 0;
        }
        let p = Point { x: (start.x as i128 + ox) as i64, y: (start.y as i128 + oy) as i64 };
        out.push(p);
        i = i + 1;
    }
    proof {
        assert(out@ =~= stroke_points(start, end, spacing as int));
    }
    out
}

} // verus!
