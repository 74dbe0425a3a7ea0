//! The path distance field: squared distance to the path and its gradient.

use vstd::prelude::*;

use crate::fixed::{Fixed, SCALE};
use crate::path::{
    first_nearest_of, is_first_nearest, path_dist_spec, path_project_spec, Path,
};
use crate::vec2::{vscale_spec, vsub_spec, Vec2};

verus! {

/// Scores a point by its squared distance to the borrowed path.
pub struct PathDistanceField<'a> {
    pub path: &'a Path,
}

/// The gradient of the squared distance: twice the offset from the
/// projection to the point.
pub open spec fn path_dist_grad_spec(segs: Seq<crate::path::PathSegment>, p: Vec2) -> Vec2 {
    vscale_spec(vsub_spec(p, path_project_spec(segs, p)), 2 * SCALE as int)
}

/// The distance gradient is exact: over the unrounded integers, moving the
/// point by `(dx, dy)` while it keeps its projection `q` changes the
/// squared distance by the gradient `2·(p - q)` against the displacement,
/// plus the displacement's own square.
pub proof fn lemma_distance_gradient_exact(
    px: int,
    py: int,
    qx: int,
    qy: int,
    dx: int,
    dy: int,
)
    by (nonlinear_arith)
    ensures
        ((px + dx - qx) * (px + dx - qx) + (py + dy - qy) * (py + dy - qy)) - ((px - qx) * (px
            - qx) + (py - qy) * (py - qy)) == 2 * (px - qx) * dx + 2 * (py - qy) * dy + dx * dx
            + dy * dy,
{
}

impl<'a> PathDistanceField<'a> {
    /// The squared distance from `point` to the path.
    pub fn loss(&self, point: Vec2) -> (r: Fixed)
        requires
            self.path.segments.len() > 0,
        ensures
            is_first_nearest(
                self.path.segments@,
                point,
                first_nearest_of(self.path.segments@, point),
            ),
            r@ == path_dist_spec(self.path.segments@, point),
    {
        let projection = self.path.project(point);
        point.sub(projection).norm_squared()
    }

    /// The gradient of the squared distance with respect to the point.
    pub fn grad(&self, point: Vec2) -> (r: Vec2)
        requires
            self.path.segments.len() > 0,
        ensures
            r == path_dist_grad_spec(self.path.segments@, point),
    {
        let projection = self.path.project(point);
        point.sub(projection).scale(Fixed(2 * SCALE))
    }
}

} // verus!
