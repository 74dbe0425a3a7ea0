//! Motion abort conditions: a motion keeps playing while its conditions
//! say so, and aborts when one of them fires.

use vstd::prelude::*;

verus! {

/// Whether the robot stands or has fallen.
#[derive(Clone, Copy, Debug, PartialEq, Eq, Structural)]
pub enum FallState {
    Upright,
    Fallen,
}

/// What a condition reads when it is evaluated.
#[derive(Clone, Copy, Debug, PartialEq, Eq, Structural)]
pub struct ConditionInput {
    pub fall_state: FallState,
}

/// What a condition answers.
#[derive(Clone, Copy, Debug, PartialEq, Eq, Structural)]
pub enum Response {
    Abort,
    Continue,
}

/// A condition a motion evaluates every cycle. Implementors decide freely
/// what to answer.
pub trait Condition {
    fn evaluate(&self, condition_input: &ConditionInput) -> Response;
}

/// Aborts the motion as soon as the robot has fallen.
#[derive(Clone, Copy, Debug, PartialEq, Eq, Structural)]
pub struct FallenAbort {}

impl Condition for FallenAbort {
    fn evaluate(&self, condition_input: &ConditionInput) -> Response {
        match condition_input.fall_state {
            FallState::Fallen => Response::Abort,
            _ => Response::Continue,
        }
    }
}

impl FallenAbort {
    /// The answer `evaluate` gives: abort exactly when fallen.
    pub fn response_to(&self, condition_input: &ConditionInput) -> (r: Response)
        ensures
            r == Response::Abort <==> condition_input.fall_state == FallState::Fallen,
    {
        match condition_input.fall_state {
            FallState::Fallen => Response::Abort,
            _ => Response::Continue,
        }
    }
}

} // verus!
