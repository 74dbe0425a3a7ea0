//! The path progress field: rewards motion along the path, with a smooth
//! cap at its end so overshooting is not rewarded.

use vstd::prelude::*;

use crate::fixed::{neg64, Fixed};
use crate::path::{
    path_forward_spec, path_length_spec, path_progress_spec, Path, PathSegment,
};
use crate::smoothmin::{
    smoothmin, smoothmin_derivative, smoothmin_derivative_spec, smoothmin_spec,
};
use crate::vec2::{vneg_spec, vscale_spec, Vec2};

verus! {

/// Scores a point by its capped progress along the borrowed path; the sign
/// is chosen so that descending the loss increases progress.
pub struct PathProgressField<'a> {
    pub path: &'a Path,
    pub smoothness: Fixed,
}

/// The progress loss: the negated smooth cap of the progress at the path's
/// length.
pub open spec fn progress_loss_spec(segs: Seq<PathSegment>, p: Vec2, h: int) -> int {
    neg64(smoothmin_spec(path_progress_spec(segs, p), path_length_spec(segs), h))
}

/// The gradient of the progress loss: the negated tangent, scaled by the
/// cap's derivative at the current progress.
pub open spec fn progress_grad_spec(segs: Seq<PathSegment>, p: Vec2, h: int) -> Vec2 {
    vneg_spec(
        vscale_spec(
            path_forward_spec(segs, p),
            smoothmin_derivative_spec(path_progress_spec(segs, p), path_length_spec(segs), h),
        ),
    )
}

impl<'a> PathProgressField<'a> {
    /// The negated, capped progress of `point` along the path.
    pub fn loss(&self, point: Vec2) -> (r: Fixed)
        requires
            self.path.segments.len() > 0,
            self.smoothness@ > 0,
        ensures
            r@ == progress_loss_spec(self.path.segments@, point, self.smoothness@),
    {
        let s = self.path.progress(point);
        let l = self.path.length();
        smoothmin(s, l, self.smoothness).neg()
    }

    /// The gradient of the progress loss with respect to the point.
    pub fn grad(&self, point: Vec2) -> (r: Vec2)
        requires
            self.path.segments.len() > 0,
            self.smoothness@ > 0,
        ensures
            r == progress_grad_spec(self.path.segments@, point, self.smoothness@),
    {
        let s = self.path.progress(point);
        let l = self.path.length();
        let d = smoothmin_derivative(s, l, self.smoothness);
        self.path.forward(point).scale(d).neg()
    }
}

} // verus!
