use vstd::prelude::*;
use crate::canvas::Canvas;
use crate::numeric::{clamp, clamp_wide};

verus! {

/// `rotation + delta`, saturating at the range of `i64`.
pub open spec fn turned(rotation: int, delta: int) -> int {
    clamp(rotation + delta, i64::MIN as int, i64::MAX as int)
}

/// Turns the canvas by a fixed step of 5 degrees.
pub struct RotateTool {
    /// The step, in 5-degree units.
    pub step: i64,
}

impl RotateTool {
    pub fn new() -> (t: RotateTool)
        ensures
            t.step == 1,
    {
        RotateTool { step: 1 }
    }

    /// Subtracts one step from the rotation.
    pub fn rotate_left(&self, canvas: &mut Canvas)
        requires
            old(canvas).wf(),
        ensures
            final(canvas).wf(),
            final(canvas).rotation == turned(old(canvas).rotation as int, -self.step),
            final(canvas).image == old(canvas).image,
            final(canvas).position == old(canvas).position,
            final(canvas).zoom == old(canvas).zoom,
            final(canvas).transform == old(canvas).transform,
    {
        canvas.rotation = clamp_wide(canvas.rotation as i128 - self.step as i128, i64::MIN, i64::MAX);
    }

    /// Adds one step to the rotation.
    pub fn rotate_right(&self, canvas: &mut Canvas)
        requires
            old(canvas).wf(),
        ensures
            final(canvas).wf(),
            final(canvas).rotation == turned(old(canvas).rotation as int, self.step as int),
            final(canvas).image == old(canvas).image,
            final(canvas).position == old(canvas).position,
            final(canvas).zoom == old(canvas).zoom,
            final(canvas).transform == old(canvas).transform,
    {
        canvas.rotation = clamp_wide(canvas.rotation as i128 + self.step as i128, i64::MIN, i64::MAX);
    }
}

} // verus!

verus! {

/// The rotation after `n` left turns of `step`.
pub open spec fn left_turns(rotation: int, step: int, n: nat) -> int
    decreases n,
{
    if n == 0 {
        rotation
    } else {
        turned(left_turns(rotation, step, (n - 1) as nat), -step)
    }
}

/// The rotation after `n` right turns of `step`.
pub open spec fn right_turns(rotation: int, step: int, n: nat) -> int
    decreases n,
{
    if n == 0 {
        rotation
    } else {
        turned(right_turns(rotation, step, (n - 1) as nat), step)
    }
}

proof fn lemma_left_turns(rotation: int, step: int, n: nat)
    requires
        step >= 0,
        rotation <= i64::MAX,
        rotation - n * step >= i64::MIN,
    ensures
        left_turns(rotation, step, n) == rotation - n * step,
    decreases n,
{
    if n > 0 {
        assert((n - 1) * step <= n * step) by (nonlinear_arith) requires step >= 0, n >= 1;
        assert(n * step == (n - 1) * step + step) by (nonlinear_arith);
        assert((n - 1) * step >= 0) by (nonlinear_arith) requires step >= 0, n >= 1;
        lemma_left_turns(rotation, step, (n - 1) as nat);
    } else {
        assert(n * step == 0) by (nonlinear_arith) requires n == 0;
    }
}

proof fn lemma_right_turns(rotation: int, step: int, n: nat)
    requires
        step >= 0,
        rotation >= i64::MIN,
        rotation + n * step <= i64::MAX,
    ensures
        right_turns(rotation, step, n) == rotation + n * step,
    decreases n,
{
    if n > 0 {
        assert((n - 1) * step <= n * step) by (nonlinear_arith) requires step >= 0, n >= 1;
        assert(n * step == (n - 1) * step + step) by (nonlinear_arith);
        assert((n - 1) * step >= 0) by (nonlinear_arith) requires step >= 0, n >= 1;
        lemma_right_turns(rotation, step, (n - 1) as nat);
    } else {
        assert(n * step == 0) by (nonlinear_arith) requires n == 0;
    }
}

/// Rotation accumulates: `n` left turns followed by `n` right turns bring
/// the rotation back to where it was, unless the left turns run past the
/// range of `i64`.
pub proof fn lemma_turns_cancel(rotation: int, step: int, n: nat)
    requires
        step >= 0,
        i64::MIN <= rotation <= i64::MAX,
        rotation - n * step >= i64::MIN,
    ensures
        right_turns(left_turns(rotation, step, n), step, n) == rotation,
{
    assert(n * step >= 0) by (nonlinear_arith) requires step >= 0;
    lemma_left_turns(rotation, step, n);
    lemma_right_turns(rotation - n * step, step, n);
}

} // verus!
