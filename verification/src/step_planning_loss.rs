//! The composite per-step loss: weighted path distance, capped path
//! progress, and walk-volume penalty, with its gradient with respect to
//! the planned step's pose and step.

use vstd::prelude::*;

use crate::fixed::{add64, scaled_mul, Fixed};
use crate::path::PathSegment;
use crate::path_distance::{path_dist_grad_spec, PathDistanceField};
use crate::path_progress::{progress_grad_spec, progress_loss_spec, PathProgressField};
use crate::path::path_dist_spec;
use crate::pose::Pose;
use crate::step::Step;
use crate::step_plan::PlannedStep;
use crate::step_size::{
    penalty_derivative_spec, penalty_spec, walk_volume_gradient_spec, walk_volume_spec,
    StepSizeField, WalkVolumeCoefficients,
};
use crate::vec2::{vadd_spec, vscale_spec, Vec2};

verus! {

/// The composite loss field: the three fields and their weights.
pub struct StepPlanningLossField<'a> {
    pub path_distance_field: PathDistanceField<'a>,
    pub path_distance_penalty: Fixed,
    pub path_progress_field: PathProgressField<'a>,
    pub path_progress_reward: Fixed,
    pub step_size_field: StepSizeField,
    pub step_size_penalty: Fixed,
}

/// The gradient of the composite loss with respect to one planned step:
/// a pose part (position only; the loss does not read the heading) and a
/// step part.
pub struct PlannedStepGradient {
    pub pose: Pose,
    pub step: Step,
}

/// The composite loss of one planned step: distance times its penalty,
/// plus capped progress times its reward, plus the walk-volume penalty
/// times its weight.
pub open spec fn planned_step_loss_spec(
    segs: Seq<PathSegment>,
    h: int,
    dist_penalty: int,
    progress_reward: int,
    size_penalty: int,
    c: WalkVolumeCoefficients,
    ps: PlannedStep,
) -> int {
    add64(
        add64(
            scaled_mul(path_dist_spec(segs, ps.pose.position), dist_penalty),
            scaled_mul(progress_loss_spec(segs, ps.pose.position, h), progress_reward),
        ),
        scaled_mul(
            penalty_spec(walk_volume_spec(ps.step.step, ps.step.support_foot, c)),
            size_penalty,
        ),
    )
}

/// The pose part of the composite gradient: the weighted sum of the
/// distance and progress gradients at the planned pose's position.
pub open spec fn planned_step_pose_grad_spec(
    segs: Seq<PathSegment>,
    h: int,
    dist_penalty: int,
    progress_reward: int,
    p: Vec2,
) -> Vec2 {
    vadd_spec(
        vscale_spec(path_dist_grad_spec(segs, p), dist_penalty),
        vscale_spec(progress_grad_spec(segs, p, h), progress_reward),
    )
}

/// The step part of the composite gradient: the walk-volume gradient,
/// scaled by the penalty's derivative and the weight.
pub open spec fn planned_step_step_grad_spec(
    size_penalty: int,
    c: WalkVolumeCoefficients,
    ps: PlannedStep,
) -> Step {
    walk_volume_gradient_spec(ps.step.step, ps.step.support_foot, c).scale_spec(
        penalty_derivative_spec(walk_volume_spec(ps.step.step, ps.step.support_foot, c)),
    ).scale_spec(size_penalty)
}

impl<'a> StepPlanningLossField<'a> {
    /// The composite loss of one planned step.
    pub fn loss(&self, parameter: &PlannedStep) -> (r: Fixed)
        requires
            self.path_distance_field.path.segments.len() > 0,
            self.path_progress_field.path == self.path_distance_field.path,
            self.path_progress_field.smoothness@ > 0,
        ensures
            r@ == planned_step_loss_spec(
                self.path_distance_field.path.segments@,
                self.path_progress_field.smoothness@,
                self.path_distance_penalty@,
                self.path_progress_reward@,
                self.step_size_penalty@,
                self.step_size_field.walk_volume_coefficients,
                *parameter,
            ),
    {
        let distance_loss = self.path_distance_field.loss(parameter.pose.position);
        let progress_loss = self.path_progress_field.loss(parameter.pose.position);
        let step_size_loss = self.step_size_field.loss(&parameter.step);
        distance_loss.mul(self.path_distance_penalty).add(
            progress_loss.mul(self.path_progress_reward),
        ).add(step_size_loss.mul(self.step_size_penalty))
    }

    /// The gradient of the composite loss with respect to the planned
    /// step's pose (position; the heading does not enter the loss) and
    /// step.
    pub fn grad(&self, parameter: &PlannedStep) -> (r: PlannedStepGradient)
        requires
            self.path_distance_field.path.segments.len() > 0,
            self.path_progress_field.path == self.path_distance_field.path,
            self.path_progress_field.smoothness@ > 0,
        ensures
            r.pose.position == planned_step_pose_grad_spec(
                self.path_distance_field.path.segments@,
                self.path_progress_field.smoothness@,
                self.path_distance_penalty@,
                self.path_progress_reward@,
                parameter.pose.position,
            ),
            r.pose.orientation@ == 0,
            r.step == planned_step_step_grad_spec(
                self.step_size_penalty@,
                self.step_size_field.walk_volume_coefficients,
                *parameter,
            ),
    {
        let distance_grad = self.path_distance_field.grad(parameter.pose.position).scale(
            self.path_distance_penalty,
        );
        let progress_grad = self.path_progress_field.grad(parameter.pose.position).scale(
            self.path_progress_reward,
        );
        let step_grad = self.step_size_field.grad(&parameter.step).scale(self.step_size_penalty);
        PlannedStepGradient {
            pose: Pose { position: distance_grad.add(progress_grad), orientation: Fixed(0) },
            step: step_grad,
        }
    }
}

} // verus!
