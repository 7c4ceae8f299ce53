use vstd::prelude::*;

verus! {

/// `v` limited to the closed range `[lo, hi]`.
pub open spec fn clamp(v: int, lo: int, hi: int) -> int {
    if v < lo {
        lo
    } else if v > hi {
        hi
    } else {
        v
    }
}

/// `p / den`, rounded toward zero.
pub open spec fn div_tz(p: int, den: int) -> int {
    if p >= 0 {
        p / den
    } else {
        -((-p) / den)
    }
}

/// `v * num / den`, rounded toward zero.
pub open spec fn mul_div(v: int, num: int, den: int) -> int {
    div_tz(v * num, den)
}

pub open spec fn abs(v: int) -> int {
    if v < 0 {
        -v
    } else {
        v
    }
}

/// Rounding toward zero loses less than one part of `den`, and never adds magnitude.
pub proof fn lemma_div_tz_error(p: int, den: int)
    requires
        den > 0,
    ensures
        abs(div_tz(p, den) * den - p) < den,
        abs(div_tz(p, den)) * den <= abs(p),
        p >= 0 ==> div_tz(p, den) >= 0,
        p <= 0 ==> div_tz(p, den) <= 0,
{
    let a = abs(p);
    vstd::arithmetic::div_mod::lemma_fundamental_div_mod(a, den);
    let q = a / den;
    let r = a % den;
    assert(a == den * q + r && 0 <= r < den);
    assert(q >= 0) by (nonlinear_arith)
        requires a >= 0, a == den * q + r, 0 <= r < den, den > 0;
    assert(q * den <= a && a - q * den < den) by (nonlinear_arith)
        requires a == den * q + r, 0 <= r < den;
    if p < 0 {
        assert(div_tz(p, den) == -q);
        assert(-q * den == -(q * den)) by (nonlinear_arith);
    }
}

pub proof fn lemma_mul_bound(a: int, b: int, ba: int, bb: int)
    requires
        abs(a) <= ba,
        abs(b) <= bb,
    ensures
        abs(a * b) <= ba * bb,
{
    let x = abs(a);
    let y = abs(b);
    assert(x * y <= ba * bb) by (nonlinear_arith)
        requires 0 <= x <= ba, 0 <= y <= bb;
    if a >= 0 && b >= 0 {
    } else if a < 0 && b >= 0 {
        assert(a * b == -(x * y)) by (nonlinear_arith) requires x == -a, y == b;
    } else if a >= 0 && b < 0 {
        assert(a * b == -(x * y)) by (nonlinear_arith) requires y == -b, x == a;
    } else {
        assert(a * b == x * y) by (nonlinear_arith) requires x == -a, y == -b;
    }
}

pub proof fn lemma_abs_mul_nonneg(a: int, k: int)
    requires
        k >= 0,
    ensures
        abs(a * k) == abs(a) * k,
{
    if a < 0 {
        assert(a * k <= 0 && -(a * k) == (-a) * k) by (nonlinear_arith) requires a < 0, k >= 0;
    } else {
        assert(a * k >= 0) by (nonlinear_arith) requires a >= 0, k >= 0;
    }
}

/// Clamps `v` into `[lo, hi]`.
pub fn clamp_wide(v: i128, lo: i64, hi: i64) -> (r: i64)
    requires
        lo <= hi,
    ensures
        r == clamp(v as int, lo as int, hi as int),
{
    if v < lo as i128 {
        lo
    } else if v > hi as i128 {
        hi
    } else {
        v as i64
    }
}

/// Computes `p / den` rounded toward zero.
pub fn div_tz_exec(p: i128, den: i128) -> (r: i128)
    requires
        den > 0,
        p > i128::MIN,
    ensures
        r == div_tz(p as int, den as int),
{
    if p >= 0 {
        p / den
    } else {
        -((-p) / den)
    }
}

/// Computes `v * num / den` rounded toward zero.
pub fn mul_div_exec(v: i64, num: i64, den: i64) -> (r: i128)
    requires
        den > 0,
        num >= 0,
    ensures
        r == mul_div(v as int, num as int, den as int),
{
    let vw = v as i128;
    let nw = num as i128;
    assert(-0x4000_0000_0000_0000_0000_0000_0000_0000 <= vw * nw
        <= 0x4000_0000_0000_0000_0000_0000_0000_0000) by (nonlinear_arith)
        requires
            -0x8000_0000_0000_0000 <= vw <= 0x8000_0000_0000_0000,
            0 <= nw <= 0x8000_0000_0000_0000,
    ;
    div_tz_exec(vw * nw, den as i128)
}

/// The least `n` with `(n * step)^2 >= d2`: the number of steps of length
/// `step` that cover a distance whose square is `d2`.
pub open spec fn covers(n: int, step: int, d2: int) -> bool {
    (n * step) * (n * step) >= d2
}

/// `n` is the least count of steps of length `step` that covers `d2`.
pub open spec fn is_least_cover(n: int, step: int, d2: int) -> bool {
    &&& n >= 0
    &&& covers(n, step, d2)
    &&& (n == 0 || !covers(n - 1, step, d2))
}

/// Covering is monotone in the number of steps.
pub proof fn lemma_covers_monotone(a: int, b: int, step: int, d2: int)
    requires
        0 <= a <= b,
        step > 0,
        covers(a, step, d2),
    ensures
        covers(b, step, d2),
{
    assert((a * step) * (a * step) <= (b * step) * (b * step)) by (nonlinear_arith)
        requires 0 <= a <= b, step > 0;
}

/// There is one least cover.
pub proof fn lemma_least_cover_unique(n1: int, n2: int, step: int, d2: int)
    requires
        step > 0,
        is_least_cover(n1, step, d2),
        is_least_cover(n2, step, d2),
    ensures
        n1 == n2,
{
    if n1 < n2 {
        lemma_covers_monotone(n1, n2 - 1, step, d2);
    } else if n2 < n1 {
        lemma_covers_monotone(n2, n1 - 1, step, d2);
    }
}

/// Smallest `n` such that `(n * step)^2 >= d2`, found by bisection over `[0, hi]`.
pub fn least_cover(d2: u128, step: u128, hi: u128) -> (n: u128)
    requires
        step > 0,
        hi <= 0x1_0000_0000_0000_0000,
        step <= 0x1_0000_0000_0000_0000,
        hi * step <= 0x1_0000_0000_0000_0000,
        covers(hi as int, step as int, d2 as int),
    ensures
        n <= hi,
        covers(n as int, step as int, d2 as int),
        n == 0 || !covers(n - 1, step as int, d2 as int),
{
    let mut lo: u128 = 0;
    let mut up: u128 = hi;
    if covers_exec(0, step, d2) {
        return 0;
    }
    // not covered at lo, covered at up
    while lo + 1 < up
        invariant
            lo < up <= hi,
            step > 0,
            hi * step <= 0x1_0000_0000_0000_0000,
            !covers(lo as int, step as int, d2 as int),
            covers(up as int, step as int, d2 as int),
        decreases up - lo,
    {
        let mid = lo + (up - lo) / 2;
        assert(mid * step <= hi * step) by (nonlinear_arith)
            requires mid <= hi, step > 0;
        if covers_exec(mid, step, d2) {
            up = mid;
        } else {
            lo = mid;
        }
    }
    up
}

fn covers_exec(n: u128, step: u128, d2: u128) -> (r: bool)
    requires
        n * step <= 0x1_0000_0000_0000_0000,
    ensures
        r == covers(n as int, step as int, d2 as int),
{
    let len = n * step;
    if len >= 0x1_0000_0000_0000_0000 {
        assert(len * len >= 0x1_0000_0000_0000_0000_0000_0000_0000_0000) by (nonlinear_arith)
            requires len >= 0x1_0000_0000_0000_0000;
        true
    } else {
        assert(len * len < 0x1_0000_0000_0000_0000_0000_0000_0000_0000) by (nonlinear_arith)
            requires 0 <= len < 0x1_0000_0000_0000_0000;
        len * len >= d2
    }
}

} // verus!
