//! The solver-facing surface of the planner: the fixed configuration, the
//! scalar cost of a flat plan, its gradient (a directional dual-number pass
//! through the rollout combined with the fields' analytic gradients), and
//! the extraction of the final plan from the solver's best parameter.

use vstd::prelude::*;

use crate::fixed::{add64, neg64, scaled_div, scaled_mul, sub64, Fixed, SCALE};
use crate::path::Path;
use crate::pose::{Pose, PoseAndSupportFoot, Side, StepAndSupportFoot};
use crate::step::Step;
use crate::step_plan::{
    pose_at_spec, rollout_props, step_at_spec, support_at_spec, PlannedStep, StepPlan,
    StepPlanning,
};
use crate::step_planning_loss::{
    planned_step_loss_spec, planned_step_pose_grad_spec, planned_step_step_grad_spec,
};
use crate::step_size::{WalkVolumeCoefficients, WalkVolumeExtents};
use crate::trig::{cos_spec, sin_spec};

verus! {

/// Steps in the fixed planning horizon.
pub const STEPS_TO_PLAN: usize = 15;

/// Flat parameters of a plan: three per step.
pub const NUM_VARIABLES: usize = 45;

/// An optimization problem over a planner configuration.
pub struct StepPlanningProblem {
    pub step_planning: StepPlanning,
}

/// The initial pose-and-foot of a configuration.
pub open spec fn config_init_spec(cfg: StepPlanning) -> PoseAndSupportFoot {
    PoseAndSupportFoot { pose: cfg.initial_pose, support_foot: cfg.initial_support_foot }
}

/// The planned step `k` of the rolled-out plan.
pub open spec fn planned_at_spec(init: PoseAndSupportFoot, vals: Seq<Fixed>, k: int) -> PlannedStep {
    PlannedStep {
        pose: pose_at_spec(init.pose, vals, k),
        step: StepAndSupportFoot {
            step: step_at_spec(vals, k),
            support_foot: support_at_spec(init.support_foot, k),
        },
    }
}

/// The summed composite loss of the first `k` planned steps.
pub open spec fn plan_loss_prefix_spec(cfg: StepPlanning, vals: Seq<Fixed>, k: int) -> int
    decreases k,
{
    if k <= 0 {
        0
    } else {
        add64(
            plan_loss_prefix_spec(cfg, vals, k - 1),
            planned_step_loss_spec(
                cfg.path.segments@,
                cfg.path_progress_smoothness@,
                cfg.path_distance_penalty@,
                cfg.path_progress_reward@,
                cfg.step_size_penalty@,
                cfg.walk_volume_coefficients,
                planned_at_spec(config_init_spec(cfg), vals, k - 1),
            ),
        )
    }
}

/// The total composite loss of a flat plan.
pub open spec fn plan_cost_spec(cfg: StepPlanning, vals: Seq<Fixed>) -> int {
    plan_loss_prefix_spec(cfg, vals, vals.len() as int / 3)
}

/// The derivative seed of flat parameter `idx` in direction `j`: one where
/// they coincide, zero elsewhere.
pub open spec fn seed_spec(j: int, idx: int) -> int {
    if idx == j {
        SCALE as int
    } else {
        0
    }
}

/// The dual (derivative) parts of the pose after steps `0..=k`, for the
/// derivative direction `j`: the rollout differentiated by the product and
/// chain rules, in the same fixed-point arithmetic the rollout uses.
pub open spec fn dpose_at_spec(init: Pose, vals: Seq<Fixed>, j: int, k: int) -> (int, int, int)
    decreases k + 1,
{
    if k < 0 {
        (0, 0, 0)
    } else {
        let prev = dpose_at_spec(init, vals, j, k - 1);
        let p = pose_at_spec(init, vals, k - 1);
        let st = step_at_spec(vals, k);
        let df = seed_spec(j, 3 * k);
        let dl = seed_spec(j, 3 * k + 1);
        let dt = seed_spec(j, 3 * k + 2);
        let c = cos_spec(p.orientation@);
        let s = sin_spec(p.orientation@);
        let dc = scaled_mul(neg64(s), prev.2);
        let ds = scaled_mul(c, prev.2);
        let dx = add64(
            prev.0,
            sub64(
                add64(scaled_mul(df, c), scaled_mul(st.forward@, dc)),
                add64(scaled_mul(dl, s), scaled_mul(st.left@, ds)),
            ),
        );
        let dy = add64(
            prev.1,
            add64(
                add64(scaled_mul(df, s), scaled_mul(st.forward@, ds)),
                add64(scaled_mul(dl, c), scaled_mul(st.left@, dc)),
            ),
        );
        let dth = add64(prev.2, dt);
        (dx, dy, dth)
    }
}

/// The contribution of the first `k` planned steps to the loss derivative
/// in direction `j`: each step's analytic pose gradient combined with the
/// dual parts of its pose, plus its analytic step gradient at the seeds.
pub open spec fn grad_prefix_spec(cfg: StepPlanning, vals: Seq<Fixed>, j: int, k: int) -> int
    decreases k,
{
    if k <= 0 {
        0
    } else {
        let init = config_init_spec(cfg);
        let ps = planned_at_spec(init, vals, k - 1);
        let g = planned_step_pose_grad_spec(
            cfg.path.segments@,
            cfg.path_progress_smoothness@,
            cfg.path_distance_penalty@,
            cfg.path_progress_reward@,
            ps.pose.position,
        );
        let sg = planned_step_step_grad_spec(
            cfg.step_size_penalty@,
            cfg.walk_volume_coefficients,
            ps,
        );
        let d = dpose_at_spec(init.pose, vals, j, k - 1);
        let pose_term = add64(scaled_mul(g.x@, d.0), scaled_mul(g.y@, d.1));
        let step_term = add64(
            add64(
                scaled_mul(sg.forward@, seed_spec(j, 3 * (k - 1))),
                scaled_mul(sg.left@, seed_spec(j, 3 * (k - 1) + 1)),
            ),
            scaled_mul(sg.turn@, seed_spec(j, 3 * (k - 1) + 2)),
        );
        add64(grad_prefix_spec(cfg, vals, j, k - 1), add64(pose_term, step_term))
    }
}

/// The derivative of the total loss in direction `j`.
pub open spec fn plan_gradient_spec(cfg: StepPlanning, vals: Seq<Fixed>, j: int) -> int {
    grad_prefix_spec(cfg, vals, j, vals.len() as int / 3)
}

impl StepPlanningProblem {
    /// The total composite loss of a flat plan: the plan rolled out from
    /// the configured initial state, each planned step scored by the
    /// composite field, summed in order.
    #[verifier::loop_isolation(false)]
    pub fn cost(&self, param: &Vec<Fixed>) -> (r: Fixed)
        requires
            param@.len() % 3 == 0,
            self.step_planning.path.segments.len() > 0,
            self.step_planning.path_progress_smoothness@ > 0,
        ensures
            r@ == plan_cost_spec(self.step_planning, param@),
    {
        let field = self.step_planning.loss_field();
        let plan = StepPlan::from_values(param);
        let planned = self.step_planning.planned_steps(
            self.step_planning.initial_pose.with_support_foot(
                self.step_planning.initial_support_foot,
            ),
            &plan,
        );
        let n = planned.len();
        let mut acc = Fixed(0);
        let mut k: usize = 0;
        while k < n
            invariant
                k <= n,
                acc@ == plan_loss_prefix_spec(self.step_planning, param@, k as int),
            decreases n - k,
        {
            acc = acc.add(field.loss(&planned[k]));
            k = k + 1;
        }
        acc
    }

    /// The gradient of the total loss with respect to the flat plan: for
    /// each direction, a dual-number pass through the rollout carries the
    /// pose's derivative, and each step's analytic gradients are combined
    /// with it.
    #[verifier::loop_isolation(false)]
    pub fn gradient(&self, param: &Vec<Fixed>) -> (r: Vec<Fixed>)
        requires
            param@.len() % 3 == 0,
            self.step_planning.path.segments.len() > 0,
            self.step_planning.path_progress_smoothness@ > 0,
        ensures
            r@.len() == param@.len(),
            forall|j: int|
                0 <= j < r@.len() ==> (#[trigger] r@[j])@ == plan_gradient_spec(
                    self.step_planning,
                    param@,
                    j,
                ),
    {
        let field = self.step_planning.loss_field();
        let m = param.len();
        let n = m / 3;
        let mut out: Vec<Fixed> = Vec::new();
        let mut j: usize = 0;
        while j < m
            invariant
                j <= m,
                out@.len() == j,
                forall|jj: int|
                    0 <= jj < j ==> (#[trigger] out@[jj])@ == plan_gradient_spec(
                        self.step_planning,
                        param@,
                        jj,
                    ),
            decreases m - j,
        {
            let mut pose = self.step_planning.initial_pose;
            let mut foot = self.step_planning.initial_support_foot;
            let mut dx = Fixed(0);
            let mut dy = Fixed(0);
            let mut dth = Fixed(0);
            let mut acc = Fixed(0);
            let mut k: usize = 0;
            while k < n
                invariant
                    k <= n,
                    pose == pose_at_spec(self.step_planning.initial_pose, param@, k as int - 1),
                    foot == support_at_spec(self.step_planning.initial_support_foot, k as int),
                    (dx@, dy@, dth@) == dpose_at_spec(
                        self.step_planning.initial_pose,
                        param@,
                        j as int,
                        k as int - 1,
                    ),
                    acc@ == grad_prefix_spec(self.step_planning, param@, j as int, k as int),
                decreases n - k,
            {
                let step = Step::from_slice(param, k);
                let df = if 3 * k == j {
                    Fixed(SCALE)
                } else {
                    Fixed(0)
                };
                let dl = if 3 * k + 1 == j {
                    Fixed(SCALE)
                } else {
                    Fixed(0)
                };
                let dt = if 3 * k + 2 == j {
                    Fixed(SCALE)
                } else {
                    Fixed(0)
                };
                let c = crate::trig::cos_fixed(pose.orientation);
                let s = crate::trig::sin_fixed(pose.orientation);
                let dc = s.neg().mul(dth);
                let ds = c.mul(dth);
                let new_dx = dx.add(
                    df.mul(c).add(step.forward.mul(dc)).sub(dl.mul(s).add(step.left.mul(ds))),
                );
                let new_dy = dy.add(
                    df.mul(s).add(step.forward.mul(ds)).add(dl.mul(c).add(step.left.mul(dc))),
                );
                let new_dth = dth.add(dt);
                pose = pose.add_step(step);
                let planned = PlannedStep {
                    pose,
                    step: StepAndSupportFoot { step, support_foot: foot },
                };
                let g = field.grad(&planned);
                let pose_term = g.pose.position.x.mul(new_dx).add(g.pose.position.y.mul(new_dy));
                let step_term = g.step.forward.mul(df).add(g.step.left.mul(dl)).add(
                    g.step.turn.mul(dt),
                );
                acc = acc.add(pose_term.add(step_term));
                dx = new_dx;
                dy = new_dy;
                dth = new_dth;
                foot = foot.opposite();
                k = k + 1;
            }
            out.push(acc);
            j = j + 1;
        }
        out
    }
}

/// The planner's fixed tuning: progress reward five, distance penalty
/// fifty, step-size penalty one, progress smoothness one, and the walk
/// volume's extents in meters and radians.
pub fn default_step_planning(path: Path, initial_pose: Pose, initial_support_foot: Side) -> (r:
    StepPlanning)
    ensures
        r.path == path,
        r.initial_pose == initial_pose,
        r.initial_support_foot == initial_support_foot,
        r.path_progress_smoothness@ == 1_000_000,
        r.path_progress_reward@ == 5_000_000,
        r.path_distance_penalty@ == 50_000_000,
        r.step_size_penalty@ == 1_000_000,
        r.walk_volume_coefficients.forward_cost@ == scaled_div(SCALE as int, 45_000),
        r.walk_volume_coefficients.backward_cost@ == scaled_div(SCALE as int, 40_000),
        r.walk_volume_coefficients.outward_cost@ == scaled_div(SCALE as int, 100_000),
        r.walk_volume_coefficients.inward_cost@ == scaled_div(SCALE as int, 10_000),
        r.walk_volume_coefficients.outward_rotation_cost@ == SCALE as int,
        r.walk_volume_coefficients.inward_rotation_cost@ == SCALE as int,
{
    let extents = WalkVolumeExtents {
        forward: Fixed(45_000),
        backward: Fixed(40_000),
        outward: Fixed(100_000),
        inward: Fixed(10_000),
        outward_rotation: Fixed(SCALE),
        inward_rotation: Fixed(SCALE),
    };
    proof {
        vstd::arithmetic::div_mod::lemma_div_multiples_vanish(1_000_000, 1_000_000);
        assert(scaled_div(SCALE as int, 1_000_000) == SCALE as int);
    }
    StepPlanning {
        path,
        initial_pose,
        initial_support_foot,
        path_progress_smoothness: Fixed(SCALE),
        path_progress_reward: Fixed(5_000_000),
        path_distance_penalty: Fixed(50_000_000),
        step_size_penalty: Fixed(SCALE),
        walk_volume_coefficients: WalkVolumeCoefficients::from_extents_and_exponents(&extents),
    }
}

/// Why no plan could be extracted.
#[derive(Clone, Copy, Debug, PartialEq, Eq, Structural)]
pub enum PlanError {
    /// The solver finished without a best parameter: an internal invariant
    /// was broken.
    NoBestParameter,
    /// The parameter vector does not hold three values per step.
    MalformedParameter,
}

impl PlanError {
    /// A diagnostic line for the caller's log.
    pub fn message(&self) -> (r: &'static str)
        ensures
            *self == PlanError::NoBestParameter ==> r@ == "solver returned no best parameter"@,
            *self == PlanError::MalformedParameter ==> r@
                == "parameter vector is not three values per step"@,
    {
        match self {
            PlanError::NoBestParameter => "solver returned no best parameter",
            PlanError::MalformedParameter => "parameter vector is not three values per step",
        }
    }
}

/// What extracting a plan from the solver's best parameter must return:
/// an error naming the missing or malformed parameter, else the rollout of
/// the parameter from the configuration's initial state.
pub open spec fn plan_from_best_post(
    cfg: StepPlanning,
    best: Option<Seq<Fixed>>,
    r: Result<Vec<PlannedStep>, PlanError>,
) -> bool {
    match best {
        Option::None => r == Result::<Vec<PlannedStep>, PlanError>::Err(
            PlanError::NoBestParameter,
        ),
        Option::Some(vals) => {
            if vals.len() % 3 != 0 {
                r == Result::<Vec<PlannedStep>, PlanError>::Err(PlanError::MalformedParameter)
            } else {
                match r {
                    Result::Ok(plan) => rollout_props(config_init_spec(cfg), vals, plan@),
                    Result::Err(_) => false,
                }
            }
        },
    }
}

impl StepPlanningProblem {
    /// Turn the solver's best parameter, if any, into the final plan:
    /// re-roll it from the configured initial state. No best parameter, or
    /// one that does not hold three values per step, is an error.
    pub fn plan_from_best(&self, best: Option<&Vec<Fixed>>) -> (r: Result<
        Vec<PlannedStep>,
        PlanError,
    >)
        ensures
            plan_from_best_post(
                self.step_planning,
                match best {
                    Option::None => Option::None,
                    Option::Some(v) => Option::Some(v@),
                },
                r,
            ),
    {
        match best {
            None => Err(PlanError::NoBestParameter),
            Some(v) => {
                if v.len() % 3 != 0 {
                    Err(PlanError::MalformedParameter)
                } else {
                    let plan = StepPlan::from_values(v);
                    Ok(
                        self.step_planning.planned_steps(
                            self.step_planning.initial_pose.with_support_foot(
                                self.step_planning.initial_support_foot,
                            ),
                            &plan,
                        ),
                    )
                }
            },
        }
    }
}

} // verus!
