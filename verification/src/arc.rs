//! Circular arcs: classification of query points, projection, progress
//! and tangent direction.

use vstd::prelude::*;

use crate::angle::{angle_to_spec, Angle};
use crate::circle::{circle_point_spec, circle_tangent_spec, Circle};
use crate::direction::Direction;
use crate::fixed::{add64, scaled_div, scaled_mul, sub64, Fixed, TAU};
use crate::trig::{atan2_fixed, atan2_spec};
use crate::vec2::{
    dot_spec, norm_spec, norm_sq_spec, vadd_spec, vnormalized_spec, vscale_spec, vsub_spec, Vec2,
};

verus! {

/// An oriented arc of a circle, from `start` to `end` going in `direction`.
#[derive(Clone, Copy, Debug)]
pub struct Arc {
    pub circle: Circle,
    pub start: Angle,
    pub end: Angle,
    pub direction: Direction,
}

/// Where a query point projects onto an arc: radially onto the swept part,
/// or onto one of the two endpoints.
#[derive(Clone, Copy, Debug, PartialEq, Eq, Structural)]
pub enum ArcProjectionKind {
    OnArc,
    Start,
    End,
}

/// The arc's angular extent: the sweep from start to end in the arc's
/// direction, in `[0, tau)`.
pub open spec fn arc_sweep_spec(a: Arc) -> int {
    angle_to_spec(a.start.0@, a.end.0@, a.direction)
}

/// Arc length: the radius times the angular extent.
pub open spec fn arc_length_spec(a: Arc) -> int {
    scaled_mul(arc_sweep_spec(a), a.circle.radius@)
}

/// The polar angle of `p` as seen from the arc's center.
pub open spec fn arc_point_angle_spec(a: Arc, p: Vec2) -> int {
    atan2_spec(sub64(p.y@, a.circle.center.y@), sub64(p.x@, a.circle.center.x@))
}

/// Classification of `p`: on the swept part if its sweep from the start is
/// strictly below the arc's extent, else whichever endpoint is nearer in
/// squared distance, the start on a tie.
pub open spec fn arc_classify_spec(a: Arc, p: Vec2) -> ArcProjectionKind {
    let to_point = angle_to_spec(a.start.0@, arc_point_angle_spec(a, p), a.direction);
    if to_point < arc_sweep_spec(a) {
        ArcProjectionKind::OnArc
    } else {
        let ds = norm_sq_spec(vsub_spec(p, circle_point_spec(a.circle, a.start.0@)));
        let de = norm_sq_spec(vsub_spec(p, circle_point_spec(a.circle, a.end.0@)));
        if ds <= de {
            ArcProjectionKind::Start
        } else {
            ArcProjectionKind::End
        }
    }
}

/// The point of the arc closest to `p`: radially for a point over the swept
/// part (the center itself, whose radial direction is undefined, goes to the
/// start point), else the nearer endpoint.
pub open spec fn arc_project_spec(a: Arc, p: Vec2) -> Vec2 {
    match arc_classify_spec(a, p) {
        ArcProjectionKind::OnArc => {
            let radial = vsub_spec(p, a.circle.center);
            if norm_spec(radial) == 0 {
                circle_point_spec(a.circle, a.start.0@)
            } else {
                vadd_spec(a.circle.center, vscale_spec(vnormalized_spec(radial), a.circle.radius@))
            }
        },
        ArcProjectionKind::Start => circle_point_spec(a.circle, a.start.0@),
        ArcProjectionKind::End => circle_point_spec(a.circle, a.end.0@),
    }
}

/// Arc-length progress of `p` along the arc: over the swept part, the radius
/// times the sweep up to the point's angle; past the start (or end), the
/// tangential component at that endpoint, offset by the full length at the
/// end.
pub open spec fn arc_progress_spec(a: Arc, p: Vec2) -> int {
    match arc_classify_spec(a, p) {
        ArcProjectionKind::OnArc => scaled_mul(
            angle_to_spec(a.start.0@, arc_point_angle_spec(a, p), a.direction),
            a.circle.radius@,
        ),
        ArcProjectionKind::Start => dot_spec(
            vsub_spec(p, circle_point_spec(a.circle, a.start.0@)),
            circle_tangent_spec(a.start.0@, a.direction),
        ),
        ArcProjectionKind::End => add64(
            arc_length_spec(a),
            dot_spec(
                vsub_spec(p, circle_point_spec(a.circle, a.end.0@)),
                circle_tangent_spec(a.end.0@, a.direction),
            ),
        ),
    }
}

/// The tangent of the arc under `p`: over the swept part, the unit tangent
/// at the point's angle scaled by `radius / distance-to-center` so that the
/// progress field keeps its magnitude off the arc (zero at the center, whose
/// direction is undefined); at an endpoint, the unit tangent there.
pub open spec fn arc_forward_spec(a: Arc, p: Vec2) -> Vec2 {
    match arc_classify_spec(a, p) {
        ArcProjectionKind::OnArc => {
            let dist = norm_spec(vsub_spec(p, a.circle.center));
            if dist == 0 {
                Vec2 { x: Fixed(0), y: Fixed(0) }
            } else {
                vscale_spec(
                    circle_tangent_spec(arc_point_angle_spec(a, p), a.direction),
                    scaled_div(a.circle.radius@, dist),
                )
            }
        },
        ArcProjectionKind::Start => circle_tangent_spec(a.start.0@, a.direction),
        ArcProjectionKind::End => circle_tangent_spec(a.end.0@, a.direction),
    }
}

impl Arc {
    /// Assemble an arc.
    pub fn new(circle: Circle, start: Angle, end: Angle, direction: Direction) -> (r: Self)
        ensures
            r == (Arc { circle, start, end, direction }),
    {
        Arc { circle, start, end, direction }
    }

    /// Arc length: the radius times the sweep from start to end.
    pub fn length(&self) -> (r: Fixed)
        ensures
            r@ == arc_length_spec(*self),
            r@ == scaled_mul(arc_sweep_spec(*self), self.circle.radius@),
    {
        let sweep = self.start.angle_to(self.end, self.direction);
        sweep.into_inner().mul(self.circle.radius)
    }

    /// The point where the arc begins.
    pub fn start_point(&self) -> (r: Vec2)
        ensures
            r == circle_point_spec(self.circle, self.start.0@),
    {
        self.circle.point_at_angle(self.start)
    }

    /// Classify a query point by where it projects.
    pub fn classify_point(&self, p: Vec2) -> (r: ArcProjectionKind)
        ensures
            r == arc_classify_spec(*self, p),
    {
        let center_to_point = p.sub(self.circle.center);
        let angle = Angle::new(atan2_fixed(center_to_point.y, center_to_point.x));
        let angle_to_end = self.start.angle_to(self.end, self.direction);
        let angle_to_point = self.start.angle_to(angle, self.direction);
        if angle_to_point.0.0 < angle_to_end.0.0 {
            ArcProjectionKind::OnArc
        } else {
            let start_point = self.circle.point_at_angle(self.start);
            let end_point = self.circle.point_at_angle(self.end);
            let ds = p.sub(start_point).norm_squared();
            let de = p.sub(end_point).norm_squared();
            if ds.0 <= de.0 {
                ArcProjectionKind::Start
            } else {
                ArcProjectionKind::End
            }
        }
    }

    /// The point of the arc closest to `p`.
    pub fn project(&self, p: Vec2) -> (r: Vec2)
        ensures
            r == arc_project_spec(*self, p),
    {
        match self.classify_point(p) {
            ArcProjectionKind::OnArc => {
                let radial = p.sub(self.circle.center);
                if radial.norm().0 == 0 {
                    self.circle.point_at_angle(self.start)
                } else {
                    self.circle.center.add(radial.normalized().scale(self.circle.radius))
                }
            },
            ArcProjectionKind::Start => self.circle.point_at_angle(self.start),
            ArcProjectionKind::End => self.circle.point_at_angle(self.end),
        }
    }

    /// Arc-length progress of `p` along the arc.
    pub fn progress(&self, p: Vec2) -> (r: Fixed)
        ensures
            r@ == arc_progress_spec(*self, p),
    {
        match self.classify_point(p) {
            ArcProjectionKind::OnArc => {
                let center_to_point = p.sub(self.circle.center);
                let angle = Angle::new(atan2_fixed(center_to_point.y, center_to_point.x));
                let to_point = self.start.angle_to(angle, self.direction);
                to_point.into_inner().mul(self.circle.radius)
            },
            ArcProjectionKind::Start => {
                let start_point = self.circle.point_at_angle(self.start);
                let tangent = self.circle.tangent(self.start, self.direction);
                p.sub(start_point).dot(tangent)
            },
            ArcProjectionKind::End => {
                let end_point = self.circle.point_at_angle(self.end);
                let tangent = self.circle.tangent(self.end, self.direction);
                self.length().add(p.sub(end_point).dot(tangent))
            },
        }
    }

    /// The tangent of the arc under `p`, scaled by `radius / distance`
    /// over the swept part.
    pub fn forward(&self, p: Vec2) -> (r: Vec2)
        ensures
            r == arc_forward_spec(*self, p),
    {
        match self.classify_point(p) {
            ArcProjectionKind::OnArc => {
                let center_to_point = p.sub(self.circle.center);
                let dist = center_to_point.norm();
                if dist.0 == 0 {
                    Vec2 { x: Fixed(0), y: Fixed(0) }
                } else {
                    let angle = Angle::new(atan2_fixed(center_to_point.y, center_to_point.x));
                    let scale = self.circle.radius.div(dist);
                    self.circle.tangent(angle, self.direction).scale(scale)
                }
            },
            ArcProjectionKind::Start => self.circle.tangent(self.start, self.direction),
            ArcProjectionKind::End => self.circle.tangent(self.end, self.direction),
        }
    }
}

/// Radial projection is nearest on a circle, over the exact integers: the
/// squared distance from `p` to a circle point `q` is
/// `‖p - c‖² + r² - 2·(p - c)·(q - c)`, so the nearest `q` maximizes the
/// dot product; by Cauchy-Schwarz that dot product never exceeds the
/// product of the norms, and it reaches it exactly when the cross product
/// vanishes — when `q` lies along the radial direction through `p`.
pub proof fn lemma_cauchy_schwarz(ax: int, ay: int, bx: int, by: int)
    ensures
        (ax * bx + ay * by) * (ax * bx + ay * by) <= (ax * ax + ay * ay) * (bx * bx + by * by),
        ax * by - ay * bx == 0 ==> (ax * bx + ay * by) * (ax * bx + ay * by) == (ax * ax + ay
            * ay) * (bx * bx + by * by),
{
    crate::line_segment::lemma_lagrange_identity(ax, ay, bx, by);
    assert((ax * by - ay * bx) * (ax * by - ay * bx) >= 0) by (nonlinear_arith);
}

/// Two arcs of one circle with the same endpoints and opposite directions
/// together sweep the whole circle: exactly, when the endpoint angles differ
/// modulo a turn, `radius · sweep_cw + radius · sweep_ccw = radius · tau`;
/// when they agree, both sweeps are zero.
pub proof fn lemma_opposite_arcs_cover_circle(radius: int, from: int, to: int)
    ensures
        (to - from) % (TAU as int) != 0 ==> radius * angle_to_spec(from, to, Direction::Clockwise)
            + radius * angle_to_spec(from, to, Direction::Counterclockwise) == radius * (
        TAU as int),
        (to - from) % (TAU as int) == 0 ==> angle_to_spec(from, to, Direction::Clockwise) == 0
            && angle_to_spec(from, to, Direction::Counterclockwise) == 0,
{
    crate::angle::lemma_opposite_sweeps_sum_to_turn(from, to);
    let cw = angle_to_spec(from, to, Direction::Clockwise);
    let ccw = angle_to_spec(from, to, Direction::Counterclockwise);
    if (to - from) % (TAU as int) != 0 {
        assert(radius * cw + radius * ccw == radius * (TAU as int)) by (nonlinear_arith)
            requires
                cw + ccw == TAU as int,
        ;
    }
}

} // verus!
