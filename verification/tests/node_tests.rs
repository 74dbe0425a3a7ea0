//! The kick-position timing node and motion abort conditions.

use step_planning::condition::{Condition, ConditionInput, FallState, FallenAbort, Response};
use step_planning::fixed::Fixed;
use step_planning::kick::{BallState, CreationContext, CycleContext, TimeToReachKickPosition};
use step_planning::vec2::Vec2;

fn ball(x: i64, y: i64) -> BallState {
    BallState {
        ball_in_ground: Vec2 {
            x: Fixed(x),
            y: Fixed(y),
        },
    }
}

#[test]
fn cycle_prefers_the_observed_ball() {
    let mut node = TimeToReachKickPosition::new(CreationContext {});
    // A 3-4-5 triangle: distance exactly five.
    let outputs = node.cycle(CycleContext {
        ball_state: Some(ball(3_000_000, 4_000_000)),
        rule_ball_state: Some(ball(1_000_000, 0)),
    });
    assert_eq!(outputs.time_to_reach_kick_position, Some(Fixed(5_000_000)));
}

#[test]
fn cycle_falls_back_to_the_rule_ball() {
    let mut node = TimeToReachKickPosition::new(CreationContext {});
    let outputs = node.cycle(CycleContext {
        ball_state: None,
        rule_ball_state: Some(ball(1_000_000, 0)),
    });
    assert_eq!(outputs.time_to_reach_kick_position, Some(Fixed(1_000_000)));
}

#[test]
fn cycle_without_a_ball_reports_nothing() {
    let mut node = TimeToReachKickPosition::new(CreationContext {});
    let outputs = node.cycle(CycleContext {
        ball_state: None,
        rule_ball_state: None,
    });
    assert_eq!(outputs.time_to_reach_kick_position, None);
}

#[test]
fn fallen_abort_fires_only_when_fallen() {
    let condition = FallenAbort {};
    assert_eq!(
        condition.evaluate(&ConditionInput {
            fall_state: FallState::Fallen
        }),
        Response::Abort
    );
    assert_eq!(
        condition.evaluate(&ConditionInput {
            fall_state: FallState::Upright
        }),
        Response::Continue
    );
    assert_eq!(
        condition.response_to(&ConditionInput {
            fall_state: FallState::Fallen
        }),
        Response::Abort
    );
}
