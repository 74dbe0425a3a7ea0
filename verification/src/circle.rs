//! Circles: points and tangents at an angle.

use vstd::prelude::*;

use crate::angle::Angle;
use crate::direction::{rotate90_spec, Direction};
use crate::fixed::Fixed;
use crate::trig::{cos_spec, sin_spec};
use crate::vec2::{vadd_spec, vscale_spec, Vec2};

verus! {

/// A circle with a positive radius.
#[derive(Clone, Copy, Debug)]
pub struct Circle {
    pub center: Vec2,
    pub radius: Fixed,
}

/// The unit radial vector at angle `theta`.
pub open spec fn radial_spec(theta: int) -> Vec2 {
    Vec2 { x: Fixed(cos_spec(theta) as i64), y: Fixed(sin_spec(theta) as i64) }
}

/// The point of the circle at angle `theta`:
/// `center + (cos theta, sin theta) · radius`.
pub open spec fn circle_point_spec(c: Circle, theta: int) -> Vec2 {
    vadd_spec(c.center, vscale_spec(radial_spec(theta), c.radius@))
}

/// The unit tangent of the circle at angle `theta`, oriented by `dir`:
/// the radial vector turned a quarter turn in `dir`.
pub open spec fn circle_tangent_spec(theta: int, dir: Direction) -> Vec2 {
    rotate90_spec(dir, radial_spec(theta))
}

impl Circle {
    /// The point of the circle at the given angle.
    pub fn point_at_angle(&self, theta: Angle) -> (r: Vec2)
        ensures
            r == circle_point_spec(*self, theta.0@),
    {
        self.center.add(theta.as_direction().scale(self.radius))
    }

    /// The unit tangent at the given angle, oriented by `dir`.
    pub fn tangent(&self, theta: Angle, dir: Direction) -> (r: Vec2)
        ensures
            r == circle_tangent_spec(theta.0@, dir),
    {
        dir.rotate_vector_90_degrees(theta.as_direction())
    }
}

} // verus!
