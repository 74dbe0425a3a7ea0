//! Step plans: a flat parameter vector read as consecutive steps, the
//! planner configuration, and the rollout that turns a plan into planned
//! steps with alternating support feet.

use vstd::prelude::*;

use crate::fixed::Fixed;
use crate::path::Path;
use crate::path_distance::PathDistanceField;
use crate::path_progress::PathProgressField;
use crate::pose::{
    pose_add_spec, side_opposite_spec, Pose, PoseAndSupportFoot, Side, StepAndSupportFoot,
};
use crate::step::Step;
use crate::step_planning_loss::StepPlanningLossField;
use crate::step_size::{StepSizeField, WalkVolumeCoefficients};

verus! {

/// A flat sequence of reals read as consecutive steps, three per step.
pub struct StepPlan<'a>(pub &'a Vec<Fixed>);

/// The step packed at offset `3·k` of the flat vector.
pub open spec fn step_at_spec(vals: Seq<Fixed>, k: int) -> Step {
    Step { forward: vals[3 * k], left: vals[3 * k + 1], turn: vals[3 * k + 2] }
}

impl<'a> StepPlan<'a> {
    /// Wrap a flat parameter vector, which must hold three values per step.
    pub fn from_values(values: &'a Vec<Fixed>) -> (r: StepPlan<'a>)
        requires
            values@.len() % 3 == 0,
        ensures
            r.0@ == values@,
    {
        StepPlan(values)
    }

    /// The steps the plan holds, in order.
    pub fn steps(&self) -> (r: Vec<Step>)
        requires
            self.0@.len() % 3 == 0,
        ensures
            r@.len() * 3 == self.0@.len(),
            forall|k: int| 0 <= k < r@.len() ==> r@[k] == step_at_spec(self.0@, k),
    {
        let n = self.0.len() / 3;
        let mut out: Vec<Step> = Vec::new();
        let mut k: usize = 0;
        while k < n
            invariant
                k <= n,
                n * 3 == self.0@.len(),
                out@.len() == k,
                forall|j: int| 0 <= j < k ==> out@[j] == step_at_spec(self.0@, j),
            decreases n - k,
        {
            out.push(Step::from_slice(self.0, k));
            k = k + 1;
        }
        out
    }
}

/// The support foot carrying step `k` when the first is carried by `init`:
/// the feet alternate.
pub open spec fn support_at_spec(init: Side, k: int) -> Side {
    if k % 2 == 0 {
        init
    } else {
        side_opposite_spec(init)
    }
}

/// The pose reached after steps `0..=k` of the plan, starting from `init`
/// (`k = -1` is the initial pose itself).
pub open spec fn pose_at_spec(init: Pose, vals: Seq<Fixed>, k: int) -> Pose
    decreases k + 1,
{
    if k < 0 {
        init
    } else {
        pose_add_spec(pose_at_spec(init, vals, k - 1), step_at_spec(vals, k))
    }
}

/// The feet alternate: the first planned step is carried by the initial
/// support foot, and each later step by the opposite of its predecessor's.
pub proof fn lemma_support_alternation(init: Side, k: int)
    requires
        k >= 0,
    ensures
        support_at_spec(init, 0) == init,
        support_at_spec(init, k + 1) == side_opposite_spec(support_at_spec(init, k)),
{
}

/// What a rollout produces: one planned step per three parameters, carrying
/// the plan's steps in order, support feet alternating from the initial
/// one, and each pose reached from its predecessor by exactly its step.
pub open spec fn rollout_props(
    init: PoseAndSupportFoot,
    vals: Seq<Fixed>,
    out: Seq<PlannedStep>,
) -> bool {
    &&& out.len() * 3 == vals.len()
    &&& forall|k: int| 0 <= k < out.len() ==> (#[trigger] out[k]).step.step == step_at_spec(vals, k)
    &&& forall|k: int|
        0 <= k < out.len() ==> (#[trigger] out[k]).step.support_foot == support_at_spec(
            init.support_foot,
            k,
        )
    &&& forall|k: int|
        0 <= k < out.len() ==> (#[trigger] out[k]).pose == pose_at_spec(init.pose, vals, k)
}

/// Support feet alternate in every rolled-out plan: the first planned step
/// is carried by the initial support foot, and each later step by the
/// opposite of its predecessor's.
pub proof fn lemma_rollout_alternates_support(
    init: PoseAndSupportFoot,
    vals: Seq<Fixed>,
    out: Seq<PlannedStep>,
)
    requires
        rollout_props(init, vals, out),
    ensures
        out.len() > 0 ==> out[0].step.support_foot == init.support_foot,
        forall|k: int|
            0 <= k < out.len() - 1 ==> (#[trigger] out[k + 1].step.support_foot)
                == side_opposite_spec(out[k].step.support_foot),
{
    assert forall|k: int| 0 <= k < out.len() - 1 implies (#[trigger] out[k
        + 1].step.support_foot) == side_opposite_spec(out[k].step.support_foot) by {
        lemma_support_alternation(init.support_foot, k);
    }
}

/// Poses chain exactly in every rolled-out plan: each planned pose is its
/// predecessor's pose (the initial pose for the first step) advanced by
/// exactly the planned step.
pub proof fn lemma_rollout_chains_poses(
    init: PoseAndSupportFoot,
    vals: Seq<Fixed>,
    out: Seq<PlannedStep>,
)
    requires
        rollout_props(init, vals, out),
    ensures
        forall|k: int|
            0 <= k < out.len() ==> (#[trigger] out[k].pose) == pose_add_spec(
                if k == 0 {
                    init.pose
                } else {
                    out[k - 1].pose
                },
                out[k].step.step,
            ),
{
    assert forall|k: int| 0 <= k < out.len() implies (#[trigger] out[k].pose) == pose_add_spec(
        if k == 0 {
            init.pose
        } else {
            out[k - 1].pose
        },
        out[k].step.step,
    ) by {
        reveal_with_fuel(pose_at_spec, 2);
        assert(out[k].pose == pose_at_spec(init.pose, vals, k));
        assert(out[k].step.step == step_at_spec(vals, k));
        if k > 0 {
            assert(out[k - 1].pose == pose_at_spec(init.pose, vals, k - 1));
        }
    }
}

/// The planner configuration: the reference path, the starting state, and
/// the tuning weights of the composite loss.
pub struct StepPlanning {
    pub path: Path,
    pub initial_pose: Pose,
    pub initial_support_foot: Side,
    pub path_progress_smoothness: Fixed,
    pub path_progress_reward: Fixed,
    pub path_distance_penalty: Fixed,
    pub step_size_penalty: Fixed,
    pub walk_volume_coefficients: WalkVolumeCoefficients,
}

/// A planned step: the pose reached after executing `step` with the given
/// support foot.
#[derive(Clone, Copy, Debug, PartialEq, Eq, Structural)]
pub struct PlannedStep {
    /// Pose reached after this step.
    pub pose: Pose,
    pub step: StepAndSupportFoot,
}

impl StepPlanning {
    /// Roll the plan out from `initial_pose`: fold the steps left to right,
    /// recording after each the reached pose, the step, and the planted
    /// foot, which alternates.
    pub fn planned_steps(&self, initial_pose: PoseAndSupportFoot, step_plan: &StepPlan) -> (r: Vec<
        PlannedStep,
    >)
        requires
            step_plan.0@.len() % 3 == 0,
        ensures
            rollout_props(initial_pose, step_plan.0@, r@),
    {
        let n = step_plan.0.len() / 3;
        let mut out: Vec<PlannedStep> = Vec::new();
        let mut pose = initial_pose.pose;
        let mut foot = initial_pose.support_foot;
        let mut k: usize = 0;
        while k < n
            invariant
                k <= n,
                n * 3 == step_plan.0@.len(),
                out@.len() == k,
                pose == pose_at_spec(initial_pose.pose, step_plan.0@, k as int - 1),
                foot == support_at_spec(initial_pose.support_foot, k as int),
                forall|j: int|
                    0 <= j < k ==> (#[trigger] out@[j]).step.step == step_at_spec(
                        step_plan.0@,
                        j,
                    ),
                forall|j: int|
                    0 <= j < k ==> (#[trigger] out@[j]).step.support_foot == support_at_spec(
                        initial_pose.support_foot,
                        j,
                    ),
                forall|j: int|
                    0 <= j < k ==> (#[trigger] out@[j]).pose == pose_at_spec(
                        initial_pose.pose,
                        step_plan.0@,
                        j,
                    ),
            decreases n - k,
        {
            let step = Step::from_slice(step_plan.0, k);
            pose = pose.add_step(step);
            out.push(PlannedStep { pose, step: StepAndSupportFoot { step, support_foot: foot } });
            foot = foot.opposite();
            k = k + 1;
        }
        out
    }

    /// The composite loss field over this configuration.
    pub fn loss_field<'a>(&'a self) -> (r: StepPlanningLossField<'a>)
        ensures
            *r.path_distance_field.path == self.path,
            *r.path_progress_field.path == self.path,
            r.path_progress_field.smoothness == self.path_progress_smoothness,
            r.path_distance_penalty == self.path_distance_penalty,
            r.path_progress_reward == self.path_progress_reward,
            r.step_size_field.walk_volume_coefficients == self.walk_volume_coefficients,
            r.step_size_penalty == self.step_size_penalty,
    {
        StepPlanningLossField {
            path_distance_field: PathDistanceField { path: &self.path },
            path_distance_penalty: self.path_distance_penalty,
            path_progress_field: PathProgressField {
                path: &self.path,
                smoothness: self.path_progress_smoothness,
            },
            path_progress_reward: self.path_progress_reward,
            step_size_field: StepSizeField {
                walk_volume_coefficients: self.walk_volume_coefficients,
            },
            step_size_penalty: self.step_size_penalty,
        }
    }
}

} // verus!
