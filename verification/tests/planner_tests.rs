//! The solver-facing surface: smoothmin, cost, gradient, plan extraction.

use step_planning::fixed::Fixed;
use step_planning::line_segment::LineSegment;
use step_planning::path::{Path, PathSegment};
use step_planning::planner::{default_step_planning, PlanError, StepPlanningProblem};
use step_planning::pose::{Pose, Side};
use step_planning::smoothmin::{smoothmin, smoothmin_derivative};
use step_planning::vec2::Vec2;

fn v(x: i64, y: i64) -> Vec2 {
    Vec2 {
        x: Fixed(x),
        y: Fixed(y),
    }
}

fn problem() -> StepPlanningProblem {
    let path = Path {
        segments: vec![PathSegment::LineSegment(LineSegment(v(0, 0), v(1_000_000, 0)))],
    };
    StepPlanningProblem {
        step_planning: default_step_planning(
            path,
            Pose {
                position: v(0, 0),
                orientation: Fixed(0),
            },
            Side::Left,
        ),
    }
}

#[test]
fn smoothmin_seams() {
    let max = Fixed(3_000_000);
    let h = Fixed(1_000_000);
    assert_eq!(smoothmin(Fixed(0), max, h), Fixed(500_000));
    assert_eq!(smoothmin(Fixed(2_500_000), max, h), Fixed(2_875_000));
    assert_eq!(smoothmin(Fixed(5_000_000), max, h), Fixed(3_000_000));
    assert_eq!(smoothmin_derivative(Fixed(0), max, h), Fixed(1_000_000));
    assert_eq!(smoothmin_derivative(Fixed(2_500_000), max, h), Fixed(500_000));
    assert_eq!(smoothmin_derivative(Fixed(5_000_000), max, h), Fixed(0));
    // The two branches meet at both seams.
    assert_eq!(smoothmin(Fixed(2_000_000), max, h), Fixed(2_500_000));
    assert_eq!(smoothmin_derivative(Fixed(2_000_000), max, h), Fixed(1_000_000));
    assert_eq!(smoothmin(Fixed(3_000_000), max, h), Fixed(3_000_000));
    assert_eq!(smoothmin_derivative(Fixed(3_000_000), max, h), Fixed(0));
}

#[test]
fn cost_of_the_zero_plan() {
    let p = problem();
    let param: Vec<Fixed> = vec![Fixed(0), Fixed(0), Fixed(0)];
    // Standing at the path start: no distance, no step size, and the
    // progress term is minus the blended cap at zero progress times five.
    assert_eq!(p.cost(&param), Fixed(-2_500_000));
}

#[test]
fn gradient_of_the_zero_plan_pulls_forward() {
    let p = problem();
    let param: Vec<Fixed> = vec![Fixed(0), Fixed(0), Fixed(0)];
    let g = p.gradient(&param);
    assert_eq!(g.len(), 3);
    // Descending the forward component moves the robot along the path;
    // sideways and turning components are flat at this symmetric point.
    assert_eq!(g[0], Fixed(-5_000_000));
    assert_eq!(g[1], Fixed(0));
    assert_eq!(g[2], Fixed(0));
}

#[test]
fn gradient_matches_finite_differences_of_cost() {
    let p = problem();
    let base: Vec<i64> = vec![30_000, -4_000, 120_000, 25_000, 6_000, -80_000];
    let param: Vec<Fixed> = base.iter().map(|&x| Fixed(x)).collect();
    let g = p.gradient(&param);
    let eps = 500i64;
    for axis in 0..base.len() {
        let mut plus = base.clone();
        let mut minus = base.clone();
        plus[axis] += eps;
        minus[axis] -= eps;
        let cp = p.cost(&plus.iter().map(|&x| Fixed(x)).collect::<Vec<Fixed>>()).0 as f64;
        let cm = p.cost(&minus.iter().map(|&x| Fixed(x)).collect::<Vec<Fixed>>()).0 as f64;
        let numeric = (cp - cm) / (2.0 * eps as f64) * 1_000_000.0;
        let analytic = g[axis].0 as f64;
        assert!(
            (numeric - analytic).abs() <= 0.1 * analytic.abs().max(1_000_000.0),
            "axis {axis}: numeric {numeric} vs analytic {analytic}"
        );
    }
}

#[test]
fn gradient_descent_decreases_the_cost() {
    let p = problem();
    let mut param: Vec<i64> = vec![0; 9];
    let initial = p.cost(&param.iter().map(|&x| Fixed(x)).collect::<Vec<Fixed>>()).0;
    for _ in 0..25 {
        let g = p.gradient(&param.iter().map(|&x| Fixed(x)).collect::<Vec<Fixed>>());
        for (x, gi) in param.iter_mut().zip(g.iter()) {
            *x -= gi.0 / 2_000;
        }
    }
    let after = p.cost(&param.iter().map(|&x| Fixed(x)).collect::<Vec<Fixed>>()).0;
    assert!(after < initial, "cost {initial} -> {after}");
}

#[test]
fn plan_extraction_handles_missing_and_malformed_parameters() {
    let p = problem();
    assert_eq!(p.plan_from_best(None), Err(PlanError::NoBestParameter));
    let malformed: Vec<Fixed> = vec![Fixed(1), Fixed(2)];
    assert_eq!(
        p.plan_from_best(Some(&malformed)),
        Err(PlanError::MalformedParameter)
    );
    let good: Vec<Fixed> = vec![Fixed(10_000), Fixed(0), Fixed(0)];
    let plan = p.plan_from_best(Some(&good)).unwrap();
    assert_eq!(plan.len(), 1);
    assert_eq!(plan[0].step.support_foot, Side::Left);
    assert_eq!(plan[0].pose.position, v(10_000, 0));
}

#[test]
fn plan_error_messages() {
    assert_eq!(
        PlanError::NoBestParameter.message(),
        "solver returned no best parameter"
    );
    assert_eq!(
        PlanError::MalformedParameter.message(),
        "parameter vector is not three values per step"
    );
}
