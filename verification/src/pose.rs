//! Poses on the ground plane, support sides, and the pose update a step
//! induces.

use vstd::prelude::*;

use crate::fixed::{add64, scaled_mul, sub64, Fixed};
use crate::step::Step;
use crate::trig::{cos_fixed, cos_spec, sin_fixed, sin_spec};
use crate::vec2::{vadd_spec, Vec2};

verus! {

/// A body pose: a ground-plane position and a heading in micro-radians.
#[derive(Clone, Copy, Debug, PartialEq, Eq, Structural)]
pub struct Pose {
    pub position: Vec2,
    pub orientation: Fixed,
}

/// Which foot carries the robot.
#[derive(Clone, Copy, Debug, PartialEq, Eq, Structural)]
pub enum Side {
    Left,
    Right,
}

/// The other side.
pub open spec fn side_opposite_spec(s: Side) -> Side {
    match s {
        Side::Left => Side::Right,
        Side::Right => Side::Left,
    }
}

impl Side {
    /// The other side.
    pub fn opposite(&self) -> (r: Side)
        ensures
            r == side_opposite_spec(*self),
            r != *self,
    {
        match self {
            Side::Left => Side::Right,
            Side::Right => Side::Left,
        }
    }

    /// Switch to the other side in place.
    pub fn flip(&mut self)
        ensures
            *final(self) == side_opposite_spec(*old(self)),
            *final(self) != *old(self),
    {
        *self = self.opposite();
    }
}

/// A pose together with the foot planted while reaching it.
#[derive(Clone, Copy, Debug, PartialEq, Eq, Structural)]
pub struct PoseAndSupportFoot {
    pub pose: Pose,
    pub support_foot: Side,
}

/// The pose reached by taking `step` from `p`: the displacement
/// `(forward, left)` rotated by the pose's heading and added to the
/// position, the turn added to the heading.
pub open spec fn pose_add_spec(p: Pose, step: Step) -> Pose {
    let c = cos_spec(p.orientation@);
    let s = sin_spec(p.orientation@);
    Pose {
        position: vadd_spec(
            p.position,
            Vec2 {
                x: Fixed(sub64(scaled_mul(step.forward@, c), scaled_mul(step.left@, s)) as i64),
                y: Fixed(add64(scaled_mul(step.forward@, s), scaled_mul(step.left@, c)) as i64),
            },
        ),
        orientation: Fixed(add64(p.orientation@, step.turn@) as i64),
    }
}

impl Pose {
    /// Tag the pose with the planted foot.
    pub fn with_support_foot(self, support_foot: Side) -> (r: PoseAndSupportFoot)
        ensures
            r.pose == self,
            r.support_foot == support_foot,
    {
        PoseAndSupportFoot { pose: self, support_foot }
    }

    /// The pose reached by taking `step` from this pose.
    pub fn add_step(self, step: Step) -> (r: Pose)
        ensures
            r == pose_add_spec(self, step),
    {
        let c = cos_fixed(self.orientation);
        let s = sin_fixed(self.orientation);
        let dx = step.forward.mul(c).sub(step.left.mul(s));
        let dy = step.forward.mul(s).add(step.left.mul(c));
        Pose {
            position: self.position.add(Vec2 { x: dx, y: dy }),
            orientation: self.orientation.add(step.turn),
        }
    }
}

/// A step tagged with the foot that carries it.
#[derive(Clone, Copy, Debug, PartialEq, Eq, Structural)]
pub struct StepAndSupportFoot {
    pub step: Step,
    pub support_foot: Side,
}

} // verus!
