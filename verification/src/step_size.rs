//! The walk-volume penalty: an asymmetric, support-foot-dependent
//! superellipsoidal norm of a step, raised to a high power.
//!
//! The translation exponent is fixed at three halves and the rotation
//! exponent at two, so the fractional powers reduce to square and cube
//! roots and every quantity has an exact contract.

use vstd::prelude::*;

use crate::fixed::{
    abs64, add64, fixed_cbrt, fixed_sqrt, lemma_scaled_mul_nonneg, scaled_div, scaled_mul, Fixed,
    SCALE,
};
use crate::pose::{Side, StepAndSupportFoot};
use crate::step::Step;

verus! {

/// Reciprocals of the walk-volume extents, one per signed direction.
/// The translation exponent is three halves, the rotation exponent two.
#[derive(Clone, Copy, Debug, PartialEq, Eq, Structural)]
pub struct WalkVolumeCoefficients {
    pub forward_cost: Fixed,
    pub backward_cost: Fixed,
    pub outward_cost: Fixed,
    pub inward_cost: Fixed,
    pub outward_rotation_cost: Fixed,
    pub inward_rotation_cost: Fixed,
}

/// The admissible extent of a step in each signed direction, in meters and
/// radians. All extents must be positive.
#[derive(Clone, Copy, Debug, PartialEq, Eq, Structural)]
pub struct WalkVolumeExtents {
    pub forward: Fixed,
    pub backward: Fixed,
    pub outward: Fixed,
    pub inward: Fixed,
    pub outward_rotation: Fixed,
    pub inward_rotation: Fixed,
}

/// The field scoring a step against the walk volume.
pub struct StepSizeField {
    pub walk_volume_coefficients: WalkVolumeCoefficients,
}

impl WalkVolumeCoefficients {
    /// Build the coefficients as the reciprocals of the extents.
    pub fn from_extents_and_exponents(extents: &WalkVolumeExtents) -> (r: Self)
        requires
            extents.forward@ > 0,
            extents.backward@ > 0,
            extents.outward@ > 0,
            extents.inward@ > 0,
            extents.outward_rotation@ > 0,
            extents.inward_rotation@ > 0,
        ensures
            r.forward_cost@ == scaled_div(SCALE as int, extents.forward@),
            r.backward_cost@ == scaled_div(SCALE as int, extents.backward@),
            r.outward_cost@ == scaled_div(SCALE as int, extents.outward@),
            r.inward_cost@ == scaled_div(SCALE as int, extents.inward@),
            r.outward_rotation_cost@ == scaled_div(SCALE as int, extents.outward_rotation@),
            r.inward_rotation_cost@ == scaled_div(SCALE as int, extents.inward_rotation@),
    {
        let one = Fixed(SCALE);
        WalkVolumeCoefficients {
            forward_cost: one.div(extents.forward),
            backward_cost: one.div(extents.backward),
            outward_cost: one.div(extents.outward),
            inward_cost: one.div(extents.inward),
            outward_rotation_cost: one.div(extents.outward_rotation),
            inward_rotation_cost: one.div(extents.inward_rotation),
        }
    }
}

/// The per-component costs a step is normalized by: the forward axis picks
/// forward or backward cost by the sign of the displacement; the lateral
/// axis and the rotation swap their inward and outward roles with the
/// support foot.
pub open spec fn costs_spec(c: WalkVolumeCoefficients, step: Step, foot: Side) -> Step {
    let positive_left = match foot {
        Side::Left => c.inward_cost,
        Side::Right => c.outward_cost,
    };
    let negative_left = match foot {
        Side::Left => c.outward_cost,
        Side::Right => c.inward_cost,
    };
    let positive_turn = match foot {
        Side::Left => c.outward_rotation_cost,
        Side::Right => c.inward_rotation_cost,
    };
    let negative_turn = match foot {
        Side::Left => c.inward_rotation_cost,
        Side::Right => c.outward_rotation_cost,
    };
    Step {
        forward: if step.forward@ >= 0 {
            c.forward_cost
        } else {
            c.backward_cost
        },
        left: if step.left@ >= 0 {
            positive_left
        } else {
            negative_left
        },
        turn: if step.turn@ >= 0 {
            positive_turn
        } else {
            negative_turn
        },
    }
}

/// `v` raised to the power three halves: `v · sqrt(v)`.
pub open spec fn pow_three_halves_spec(v: int) -> int
    recommends
        v >= 0,
{
    scaled_mul(v, fixed_sqrt(v))
}

/// The walk-volume value of a normalized step: with `nf`, `nl`, `nt` the
/// cost-normalized magnitudes, `(nf^(3/2) + nl^(3/2))^(4/3) + nt^2`.
pub open spec fn walk_volume_spec(step: Step, foot: Side, c: WalkVolumeCoefficients) -> int {
    let costs = costs_spec(c, step, foot);
    let nf = abs64(scaled_mul(step.forward@, costs.forward@));
    let nl = abs64(scaled_mul(step.left@, costs.left@));
    let nt = abs64(scaled_mul(step.turn@, costs.turn@));
    let a = add64(pow_three_halves_spec(nf), pow_three_halves_spec(nl));
    add64(scaled_mul(a, fixed_cbrt(a)), scaled_mul(nt, nt))
}

/// One gradient component of the walk volume: with `n` the normalized
/// magnitude of the component with value `v` and cost `cost`, and `f` the
/// factor carrying the translation norm (one for the rotation), the value
/// `2 · cost² · v · f · pw / n²`, where `pw` is the component's power term;
/// zero when the component or its normalized magnitude vanishes.
pub open spec fn grad_component_spec(v: int, cost: int, f: int, pw: int, n: int) -> int {
    if v == 0 || scaled_mul(n, n) == 0 {
        0
    } else {
        scaled_div(
            scaled_mul(
                scaled_mul(scaled_mul(scaled_mul(2 * SCALE as int, scaled_mul(cost, cost)), v), f),
                pw,
            ),
            scaled_mul(n, n),
        )
    }
}

/// The hand-derived gradient of the walk volume with respect to the step.
pub open spec fn walk_volume_gradient_spec(step: Step, foot: Side, c: WalkVolumeCoefficients) -> Step {
    let costs = costs_spec(c, step, foot);
    let nf = abs64(scaled_mul(step.forward@, costs.forward@));
    let nl = abs64(scaled_mul(step.left@, costs.left@));
    let nt = abs64(scaled_mul(step.turn@, costs.turn@));
    let nf_t = pow_three_halves_spec(nf);
    let nl_t = pow_three_halves_spec(nl);
    let a = add64(nf_t, nl_t);
    let tnorm = fixed_cbrt(a);
    Step {
        forward: Fixed(grad_component_spec(step.forward@, costs.forward@, tnorm, nf_t, nf) as i64),
        left: Fixed(grad_component_spec(step.left@, costs.left@, tnorm, nl_t, nl) as i64),
        turn: Fixed(
            grad_component_spec(step.turn@, costs.turn@, SCALE as int, scaled_mul(nt, nt), nt) as i64,
        ),
    }
}

/// The penalty applied to a walk-volume value: its sixth power.
pub open spec fn penalty_spec(v: int) -> int {
    let v2 = scaled_mul(v, v);
    let v4 = scaled_mul(v2, v2);
    scaled_mul(v4, v2)
}

/// The derivative of the penalty: six times the fifth power.
pub open spec fn penalty_derivative_spec(v: int) -> int {
    let v2 = scaled_mul(v, v);
    let v4 = scaled_mul(v2, v2);
    scaled_mul(scaled_mul(v4, v), 6 * SCALE as int)
}

/// The per-component costs for a step and support foot.
fn costs(c: &WalkVolumeCoefficients, step: &Step, foot: Side) -> (r: Step)
    ensures
        r == costs_spec(*c, *step, foot),
{
    let (positive_left, negative_left, positive_turn, negative_turn) = match foot {
        Side::Left => (
            c.inward_cost,
            c.outward_cost,
            c.outward_rotation_cost,
            c.inward_rotation_cost,
        ),
        Side::Right => (
            c.outward_cost,
            c.inward_cost,
            c.inward_rotation_cost,
            c.outward_rotation_cost,
        ),
    };
    Step {
        forward: if step.forward.0 >= 0 {
            c.forward_cost
        } else {
            c.backward_cost
        },
        left: if step.left.0 >= 0 {
            positive_left
        } else {
            negative_left
        },
        turn: if step.turn.0 >= 0 {
            positive_turn
        } else {
            negative_turn
        },
    }
}

/// The walk-volume value of a step.
pub fn walk_volume(step: &StepAndSupportFoot, c: &WalkVolumeCoefficients) -> (r: Fixed)
    ensures
        r@ == walk_volume_spec(step.step, step.support_foot, *c),
{
    let costs = costs(c, &step.step, step.support_foot);
    let nf = step.step.forward.mul(costs.forward).abs();
    let nl = step.step.left.mul(costs.left).abs();
    let nt = step.step.turn.mul(costs.turn).abs();
    let nf_t = nf.mul(nf.sqrt());
    let nl_t = nl.mul(nl.sqrt());
    let a = nf_t.add(nl_t);
    proof {
        lemma_scaled_mul_nonneg(nf@, fixed_sqrt(nf@));
        lemma_scaled_mul_nonneg(nl@, fixed_sqrt(nl@));
    }
    a.mul(a.cbrt()).add(nt.mul(nt))
}

/// One gradient component of the walk volume.
fn grad_component(v: Fixed, cost: Fixed, f: Fixed, pw: Fixed, n: Fixed) -> (r: Fixed)
    ensures
        r@ == grad_component_spec(v@, cost@, f@, pw@, n@),
{
    let n2 = n.mul(n);
    if v.0 == 0 || n2.0 == 0 {
        Fixed(0)
    } else {
        Fixed(2 * SCALE).mul(cost.mul(cost)).mul(v).mul(f).mul(pw).div(n2)
    }
}

/// The hand-derived gradient of the walk volume with respect to the step.
pub fn walk_volume_gradient(step: &StepAndSupportFoot, c: &WalkVolumeCoefficients) -> (r: Step)
    ensures
        r == walk_volume_gradient_spec(step.step, step.support_foot, *c),
{
    let costs = costs(c, &step.step, step.support_foot);
    let nf = step.step.forward.mul(costs.forward).abs();
    let nl = step.step.left.mul(costs.left).abs();
    let nt = step.step.turn.mul(costs.turn).abs();
    let nf_t = nf.mul(nf.sqrt());
    let nl_t = nl.mul(nl.sqrt());
    let a = nf_t.add(nl_t);
    proof {
        lemma_scaled_mul_nonneg(nf@, fixed_sqrt(nf@));
        lemma_scaled_mul_nonneg(nl@, fixed_sqrt(nl@));
    }
    let tnorm = a.cbrt();
    Step {
        forward: grad_component(step.step.forward, costs.forward, tnorm, nf_t, nf),
        left: grad_component(step.step.left, costs.left, tnorm, nl_t, nl),
        turn: grad_component(step.step.turn, costs.turn, Fixed(SCALE), nt.mul(nt), nt),
    }
}

/// The penalty applied to a walk-volume value.
pub fn penalty_function(walk_volume_value: Fixed) -> (r: Fixed)
    ensures
        r@ == penalty_spec(walk_volume_value@),
{
    let v2 = walk_volume_value.mul(walk_volume_value);
    let v4 = v2.mul(v2);
    v4.mul(v2)
}

/// The derivative of the penalty.
pub fn penalty_function_derivative(walk_volume_value: Fixed) -> (r: Fixed)
    ensures
        r@ == penalty_derivative_spec(walk_volume_value@),
{
    let v2 = walk_volume_value.mul(walk_volume_value);
    let v4 = v2.mul(v2);
    v4.mul(walk_volume_value).mul(Fixed(6 * SCALE))
}

impl StepSizeField {
    /// The penalized walk-volume loss of a step.
    pub fn loss(&self, step: &StepAndSupportFoot) -> (r: Fixed)
        ensures
            r@ == penalty_spec(
                walk_volume_spec(step.step, step.support_foot, self.walk_volume_coefficients),
            ),
    {
        let value = walk_volume(step, &self.walk_volume_coefficients);
        penalty_function(value)
    }

    /// The gradient of the penalized loss with respect to the step.
    pub fn grad(&self, step: &StepAndSupportFoot) -> (r: Step)
        ensures
            r == walk_volume_gradient_spec(
                step.step,
                step.support_foot,
                self.walk_volume_coefficients,
            ).scale_spec(
                penalty_derivative_spec(
                    walk_volume_spec(step.step, step.support_foot, self.walk_volume_coefficients),
                ),
            ),
    {
        let value = walk_volume(step, &self.walk_volume_coefficients);
        let grad = walk_volume_gradient(step, &self.walk_volume_coefficients);
        grad.scale(penalty_function_derivative(value))
    }
}

/// For the quadratic rotation term the hand gradient is exact: over the
/// unrounded integers, stepping the turn from `t` by `d` changes the term
/// `(c·t)²` by `d` times the stated gradient `2·c²·t`, plus the quadratic
/// remainder `c²·d²`.
pub proof fn lemma_turn_gradient_exact(c: int, t: int, d: int)
    by (nonlinear_arith)
    ensures
        (c * (t + d)) * (c * (t + d)) - (c * t) * (c * t) == d * (2 * (c * c) * t) + (c * c) * (d
            * d),
{
}

} // verus!
