//! A piecewise-quadratic smooth cap and its derivative.
//!
//! `smoothmin(x, max, h)` equals `x + h/2` far below the cap, blends through
//! the quadratic `max - (max - x)^2 / (2h)` on the last `h` before the cap,
//! and is constant `max` beyond it; its derivative is `1`, `(max - x)/h`
//! and `0` on the same pieces. The two agree at both seams (exactly, over
//! the unrounded integers: see the lemmas at the end).

use vstd::prelude::*;

use crate::fixed::{add64, scaled_div, scaled_mul, sub64, Fixed, HALF, SCALE};

verus! {

/// The smooth cap, on micro-unit values.
pub open spec fn smoothmin_spec(x: int, max: int, h: int) -> int {
    if x < sub64(max, h) {
        add64(x, scaled_mul(h, HALF as int))
    } else if x < max {
        sub64(max, scaled_div(scaled_mul(sub64(max, x), sub64(max, x)), add64(h, h)))
    } else {
        max
    }
}

/// Derivative of the smooth cap with respect to `x`, on micro-unit values.
pub open spec fn smoothmin_derivative_spec(x: int, max: int, h: int) -> int {
    if x < sub64(max, h) {
        SCALE as int
    } else if x < max {
        scaled_div(sub64(max, x), h)
    } else {
        0
    }
}

/// The smooth cap of `x` at `max` with smoothness `h`.
pub fn smoothmin(x: Fixed, max: Fixed, smoothness: Fixed) -> (r: Fixed)
    requires
        smoothness@ > 0,
    ensures
        r@ == smoothmin_spec(x@, max@, smoothness@),
{
    if x.0 < max.sub(smoothness).0 {
        x.add(smoothness.mul(Fixed(HALF)))
    } else if x.0 < max.0 {
        let gap = max.sub(x);
        max.sub(gap.mul(gap).div(smoothness.add(smoothness)))
    } else {
        max
    }
}

/// The derivative of the smooth cap with respect to `x`.
pub fn smoothmin_derivative(x: Fixed, max: Fixed, smoothness: Fixed) -> (r: Fixed)
    requires
        smoothness@ > 0,
    ensures
        r@ == smoothmin_derivative_spec(x@, max@, smoothness@),
{
    if x.0 < max.sub(smoothness).0 {
        Fixed(SCALE)
    } else if x.0 < max.0 {
        max.sub(x).div(smoothness)
    } else {
        Fixed(0)
    }
}

/// The cap is continuously differentiable at its two seams, exactly over
/// the unrounded integers (both sides multiplied by the positive `2h` where
/// a division would round):
/// - at `x = max - h` the linear branch `x + h/2` meets the quadratic
///   branch `max - (max - x)^2/(2h)`, and the quadratic branch's slope
///   numerator `max - x` equals `h`, a derivative of one;
/// - at `x = max` the quadratic branch reaches exactly `max` and its slope
///   numerator vanishes, a derivative of zero.
pub proof fn lemma_smoothmin_c1_at_seams(max: int, h: int)
    requires
        h > 0,
    ensures
        (2 * (max - h) + h) * h == 2 * h * max - h * h,
        max - (max - h) == h,
        (max - max) * (max - max) == 0,
        max - max == 0,
{
    assert((2 * (max - h) + h) * h == 2 * h * max - h * h) by (nonlinear_arith);
}

/// The derivative matches the quadratic branch exactly: over the unrounded
/// integers, stepping from `x` by `d` changes `2h` times the quadratic
/// branch by `2·d·(max - x) - d·d`, i.e. by `d` times the stated derivative
/// `(max - x)/h` up to the quadratic remainder.
pub proof fn lemma_smoothmin_quadratic_slope(max: int, x: int, d: int)
    by (nonlinear_arith)
    ensures
        (max - x) * (max - x) - (max - (x + d)) * (max - (x + d)) == 2 * d * (max - x) - d * d,
{
}

} // verus!
