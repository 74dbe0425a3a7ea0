//! Time to reach the kick position: for now the euclidean distance to the
//! ball, preferring the observed ball over the one assumed by the rules.

use vstd::prelude::*;

use crate::fixed::Fixed;
use crate::vec2::{norm_spec, Vec2};

verus! {

/// The ball as the planner sees it: its position in the ground frame.
#[derive(Clone, Copy, Debug, PartialEq, Eq, Structural)]
pub struct BallState {
    pub ball_in_ground: Vec2,
}

/// What one cycle reads: the observed ball, and the ball the game rules
/// would place.
pub struct CycleContext {
    pub ball_state: Option<BallState>,
    pub rule_ball_state: Option<BallState>,
}

/// What creation reads: nothing.
pub struct CreationContext {}

/// What one cycle produces.
pub struct MainOutputs {
    pub time_to_reach_kick_position: Option<Fixed>,
}

/// The node computing the time to reach the kick position.
pub struct TimeToReachKickPosition {}

impl TimeToReachKickPosition {
    /// Create the node.
    pub fn new(_context: CreationContext) -> (r: Self) {
        TimeToReachKickPosition {}
    }

    /// One cycle: the distance to the observed ball, to the rule ball when
    /// none is observed, and nothing when neither is known.
    pub fn cycle(&mut self, context: CycleContext) -> (r: MainOutputs)
        ensures
            context.ball_state matches Some(ball) ==> r.time_to_reach_kick_position == Some(
                Fixed(norm_spec(ball.ball_in_ground) as i64),
            ),
            context.ball_state is None ==> (context.rule_ball_state matches Some(ball)
                ==> r.time_to_reach_kick_position == Some(
                Fixed(norm_spec(ball.ball_in_ground) as i64),
            )),
            context.ball_state is None && context.rule_ball_state is None
                ==> r.time_to_reach_kick_position is None,
    {
        let time_to_reach_kick_position = match (context.ball_state, context.rule_ball_state) {
            (Some(ball_state), _) | (None, Some(ball_state)) => Some(
                ball_state.ball_in_ground.norm(),
            ),
            _ => None,
        };
        MainOutputs { time_to_reach_kick_position }
    }
}

} // verus!
