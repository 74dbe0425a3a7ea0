//! The walk-volume penalty: values, asymmetry, and gradient agreement.

use step_planning::fixed::Fixed;
use step_planning::pose::{Side, StepAndSupportFoot};
use step_planning::step::Step;
use step_planning::step_size::{
    penalty_function, penalty_function_derivative, walk_volume, walk_volume_gradient,
    StepSizeField, WalkVolumeCoefficients, WalkVolumeExtents,
};

fn coefficients() -> WalkVolumeCoefficients {
    WalkVolumeCoefficients::from_extents_and_exponents(&WalkVolumeExtents {
        forward: Fixed(45_000),
        backward: Fixed(40_000),
        outward: Fixed(100_000),
        inward: Fixed(10_000),
        outward_rotation: Fixed(1_000_000),
        inward_rotation: Fixed(1_000_000),
    })
}

fn step(forward: i64, left: i64, turn: i64, support_foot: Side) -> StepAndSupportFoot {
    StepAndSupportFoot {
        step: Step {
            forward: Fixed(forward),
            left: Fixed(left),
            turn: Fixed(turn),
        },
        support_foot,
    }
}

#[test]
fn coefficients_are_reciprocal_extents() {
    let c = coefficients();
    assert_eq!(c.forward_cost, Fixed(22_222_222));
    assert_eq!(c.backward_cost, Fixed(25_000_000));
    assert_eq!(c.outward_cost, Fixed(10_000_000));
    assert_eq!(c.inward_cost, Fixed(100_000_000));
    assert_eq!(c.outward_rotation_cost, Fixed(1_000_000));
    assert_eq!(c.inward_rotation_cost, Fixed(1_000_000));
}

#[test]
fn walk_volume_values() {
    let c = coefficients();
    assert_eq!(walk_volume(&step(0, 0, 0, Side::Left), &c), Fixed(0));
    assert_eq!(walk_volume(&step(20_000, 0, 0, Side::Left), &c), Fixed(197_529));
    assert_eq!(
        walk_volume(&step(20_000, 5_000, 100_000, Side::Left), &c),
        Fixed(572_879)
    );
}

#[test]
fn walk_volume_asymmetry_follows_the_support_foot() {
    let c = coefficients();
    // With the left foot planted a displacement towards the stance foot
    // (positive left) is far more expensive than away from it.
    let inward = walk_volume(&step(0, 10_000, 0, Side::Left), &c);
    let outward = walk_volume(&step(0, -10_000, 0, Side::Left), &c);
    assert_eq!(inward, Fixed(1_000_000));
    assert_eq!(outward, Fixed(9_999));
    assert!(inward.0 > outward.0);
    // With the right foot planted the asymmetry reverses.
    let inward = walk_volume(&step(0, -10_000, 0, Side::Right), &c);
    let outward = walk_volume(&step(0, 10_000, 0, Side::Right), &c);
    assert!(inward.0 > outward.0);
}

#[test]
fn hand_gradient_matches_finite_differences() {
    // The analytic walk-volume gradient against central differences of the
    // value, in every component, within a small relative tolerance.
    let c = coefficients();
    let base = (20_000i64, 5_000i64, 100_000i64);
    let eps = 1_000i64;
    let grad = walk_volume_gradient(&step(base.0, base.1, base.2, Side::Left), &c);
    let analytic = [grad.forward.0, grad.left.0, grad.turn.0];
    for axis in 0..3 {
        let mut plus = [base.0, base.1, base.2];
        let mut minus = plus;
        plus[axis] += eps;
        minus[axis] -= eps;
        let vp = walk_volume(&step(plus[0], plus[1], plus[2], Side::Left), &c).0 as f64;
        let vm = walk_volume(&step(minus[0], minus[1], minus[2], Side::Left), &c).0 as f64;
        let numeric = (vp - vm) / (2.0 * eps as f64) * 1_000_000.0;
        let a = analytic[axis] as f64;
        assert!(
            (numeric - a).abs() <= 0.01 * a.abs().max(1_000_000.0),
            "axis {axis}: numeric {numeric} vs analytic {a}"
        );
    }
}

#[test]
fn penalty_is_sixth_power() {
    // One is a fixed point of the sixth power; its derivative there is six.
    assert_eq!(penalty_function(Fixed(1_000_000)), Fixed(1_000_000));
    assert_eq!(penalty_function_derivative(Fixed(1_000_000)), Fixed(6_000_000));
    // Below one the penalty collapses quickly.
    assert_eq!(penalty_function(Fixed(500_000)), Fixed(15_625));
}

#[test]
fn field_combines_volume_and_penalty() {
    let c = coefficients();
    let field = StepSizeField {
        walk_volume_coefficients: c,
    };
    let s = step(20_000, 5_000, 100_000, Side::Left);
    assert_eq!(field.loss(&s), Fixed(35_348));
    let g = field.grad(&s);
    // grad = walk-volume gradient scaled by the penalty derivative.
    let raw = walk_volume_gradient(&s, &c);
    let pd = penalty_function_derivative(walk_volume(&s, &c));
    assert_eq!(g.forward, raw.forward.mul(pd));
    assert_eq!(g.left, raw.left.mul(pd));
    assert_eq!(g.turn, raw.turn.mul(pd));
}
