//! A single step of the robot, expressed in the support foot's frame.

use vstd::prelude::*;

use crate::fixed::{add64, neg64, scaled_mul, sub64, Fixed};

verus! {

/// A step: the displacement `(forward, left)` and the rotation `turn`
/// applied to a pose in the pose's own local frame.
#[derive(Clone, Copy, Debug, PartialEq, Eq, Structural)]
pub struct Step {
    pub forward: Fixed,
    pub left: Fixed,
    pub turn: Fixed,
}

impl Step {
    /// Every component scaled by `k`, as the `scale` method computes it.
    pub open spec fn scale_spec(self, k: int) -> Step {
        Step {
            forward: Fixed(scaled_mul(self.forward@, k) as i64),
            left: Fixed(scaled_mul(self.left@, k) as i64),
            turn: Fixed(scaled_mul(self.turn@, k) as i64),
        }
    }

    /// The step that stays in place.
    pub fn zero() -> (r: Step)
        ensures
            r.forward@ == 0,
            r.left@ == 0,
            r.turn@ == 0,
    {
        Step { forward: Fixed(0), left: Fixed(0), turn: Fixed(0) }
    }

    /// The step mirrored to the other side: lateral displacement and turn
    /// flip sign, the forward displacement stays.
    pub fn mirrored(self) -> (r: Step)
        ensures
            r.forward == self.forward,
            r.left@ == neg64(self.left@),
            r.turn@ == neg64(self.turn@),
    {
        Step { forward: self.forward, left: self.left.neg(), turn: self.turn.neg() }
    }

    /// The step packed at offset `3·k` of a flat parameter vector.
    pub fn from_slice(values: &Vec<Fixed>, k: usize) -> (r: Step)
        requires
            3 * k + 2 < values@.len(),
        ensures
            r.forward == values@[3 * k as int],
            r.left == values@[3 * k as int + 1],
            r.turn == values@[3 * k as int + 2],
    {
        let _len = values.len();
        Step { forward: values[3 * k], left: values[3 * k + 1], turn: values[3 * k + 2] }
    }

    /// Component-wise sum.
    pub fn add(self, rhs: Step) -> (r: Step)
        ensures
            r.forward@ == add64(self.forward@, rhs.forward@),
            r.left@ == add64(self.left@, rhs.left@),
            r.turn@ == add64(self.turn@, rhs.turn@),
    {
        Step {
            forward: self.forward.add(rhs.forward),
            left: self.left.add(rhs.left),
            turn: self.turn.add(rhs.turn),
        }
    }

    /// Component-wise difference.
    pub fn sub(self, rhs: Step) -> (r: Step)
        ensures
            r.forward@ == sub64(self.forward@, rhs.forward@),
            r.left@ == sub64(self.left@, rhs.left@),
            r.turn@ == sub64(self.turn@, rhs.turn@),
    {
        Step {
            forward: self.forward.sub(rhs.forward),
            left: self.left.sub(rhs.left),
            turn: self.turn.sub(rhs.turn),
        }
    }

    /// Every component scaled by `k`.
    pub fn scale(self, k: Fixed) -> (r: Step)
        ensures
            r == self.scale_spec(k@),
            r.forward@ == scaled_mul(self.forward@, k@),
            r.left@ == scaled_mul(self.left@, k@),
            r.turn@ == scaled_mul(self.turn@, k@),
    {
        Step { forward: self.forward.mul(k), left: self.left.mul(k), turn: self.turn.mul(k) }
    }
}

} // verus!
