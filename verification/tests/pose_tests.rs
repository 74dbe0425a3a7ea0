//! Poses, steps, and the rollout of a plan.

use step_planning::fixed::Fixed;
use step_planning::pose::{Pose, Side};
use step_planning::step::Step;
use step_planning::step_plan::{StepPlan, StepPlanning};
use step_planning::planner::default_step_planning;
use step_planning::path::{Path, PathSegment};
use step_planning::line_segment::LineSegment;
use step_planning::vec2::Vec2;

fn v(x: i64, y: i64) -> Vec2 {
    Vec2 {
        x: Fixed(x),
        y: Fixed(y),
    }
}

fn config() -> StepPlanning {
    let path = Path {
        segments: vec![PathSegment::LineSegment(LineSegment(v(0, 0), v(1_000_000, 0)))],
    };
    default_step_planning(
        path,
        Pose {
            position: v(0, 0),
            orientation: Fixed(0),
        },
        Side::Left,
    )
}

#[test]
fn test_pose_step_addition() {
    let pose = Pose {
        position: v(0, 0),
        orientation: Fixed(0),
    };
    let step = Step {
        forward: Fixed(2_000_000),
        left: Fixed(1_000_000),
        turn: Fixed(3_000_000),
    };
    let new_pose = pose.add_step(step);
    assert_eq!(
        new_pose,
        Pose {
            position: v(2_000_000, 1_000_000),
            orientation: Fixed(3_000_000),
        }
    );
}

#[test]
fn side_opposite_and_flip() {
    assert_eq!(Side::Left.opposite(), Side::Right);
    assert_eq!(Side::Right.opposite(), Side::Left);
    let mut side = Side::Left;
    side.flip();
    assert_eq!(side, Side::Right);
    side.flip();
    assert_eq!(side, Side::Left);
}

#[test]
fn mirrored_step_flips_lateral_and_turn() {
    let step = Step {
        forward: Fixed(10),
        left: Fixed(20),
        turn: Fixed(-30),
    };
    let m = step.mirrored();
    assert_eq!(m.forward, Fixed(10));
    assert_eq!(m.left, Fixed(-20));
    assert_eq!(m.turn, Fixed(30));
}

#[test]
fn rollout_alternates_support_and_chains_poses() {
    let cfg = config();
    let values: Vec<Fixed> = vec![
        Fixed(40_000),
        Fixed(5_000),
        Fixed(100_000),
        Fixed(30_000),
        Fixed(-5_000),
        Fixed(-50_000),
        Fixed(20_000),
        Fixed(0),
        Fixed(200_000),
    ];
    let plan = StepPlan::from_values(&values);
    let initial = cfg.initial_pose.with_support_foot(cfg.initial_support_foot);
    let planned = cfg.planned_steps(initial, &plan);

    assert_eq!(planned.len(), 3);
    // The support foot starts at the configured side and alternates.
    assert_eq!(planned[0].step.support_foot, Side::Left);
    assert_eq!(planned[1].step.support_foot, Side::Right);
    assert_eq!(planned[2].step.support_foot, Side::Left);
    // The steps are carried over unchanged.
    for k in 0..3 {
        assert_eq!(planned[k].step.step.forward, values[3 * k]);
        assert_eq!(planned[k].step.step.left, values[3 * k + 1]);
        assert_eq!(planned[k].step.step.turn, values[3 * k + 2]);
    }
    // Each pose is exactly its predecessor plus its step.
    let mut pose = cfg.initial_pose;
    for k in 0..3 {
        pose = pose.add_step(planned[k].step.step);
        assert_eq!(planned[k].pose, pose);
    }
}

#[test]
fn step_plan_reads_three_values_per_step() {
    let values: Vec<Fixed> = vec![
        Fixed(1),
        Fixed(2),
        Fixed(3),
        Fixed(4),
        Fixed(5),
        Fixed(6),
    ];
    let plan = StepPlan::from_values(&values);
    let steps = plan.steps();
    assert_eq!(steps.len(), 2);
    assert_eq!(
        steps[0],
        Step {
            forward: Fixed(1),
            left: Fixed(2),
            turn: Fixed(3),
        }
    );
    assert_eq!(
        steps[1],
        Step {
            forward: Fixed(4),
            left: Fixed(5),
            turn: Fixed(6),
        }
    );
}
