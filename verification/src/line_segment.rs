//! Oriented line segments: length, projection, progress and tangent.

use vstd::prelude::*;

use crate::fixed::{scaled_div, Fixed, SCALE};
use crate::vec2::{
    dot_spec, norm_spec, norm_sq_spec, vadd_spec, vnormalized_spec, vscale_spec, vsub_spec, Vec2,
};

verus! {

/// An ordered pair of distinct points (a degenerate pair is tolerated:
/// queries then answer as if everything sat at the start point).
#[derive(Clone, Copy, Debug, PartialEq, Eq, Structural)]
pub struct LineSegment(pub Vec2, pub Vec2);

/// Length of the segment.
pub open spec fn seg_length_spec(s: LineSegment) -> int {
    norm_spec(vsub_spec(s.1, s.0))
}

/// The point of the segment closest to `p`: the projection parameter
/// `(p - start)·(end - start) / ‖end - start‖²` clamped into `[0, 1]`,
/// applied to the segment; a degenerate segment projects to its start.
pub open spec fn seg_project_spec(s: LineSegment, p: Vec2) -> Vec2 {
    let d = vsub_spec(s.1, s.0);
    let nsq = norm_sq_spec(d);
    if nsq == 0 {
        s.0
    } else {
        let t = scaled_div(dot_spec(vsub_spec(p, s.0), d), nsq);
        let tc = if t < 0 {
            0
        } else if t > SCALE as int {
            SCALE as int
        } else {
            t
        };
        vadd_spec(s.0, vscale_spec(d, tc))
    }
}

/// Signed progress of `p` along the segment: the component of `p - start`
/// along the unit tangent, unclamped, so that points before the start are
/// negative and points past the end exceed the length.
pub open spec fn seg_progress_spec(s: LineSegment, p: Vec2) -> int {
    dot_spec(vsub_spec(p, s.0), vnormalized_spec(vsub_spec(s.1, s.0)))
}

/// The segment's constant unit tangent (the zero vector when degenerate).
pub open spec fn seg_forward_spec(s: LineSegment) -> Vec2 {
    vnormalized_spec(vsub_spec(s.1, s.0))
}

impl LineSegment {
    /// Length of the segment.
    pub fn length(&self) -> (r: Fixed)
        ensures
            r@ == seg_length_spec(*self),
            r@ >= 0,
    {
        self.1.sub(self.0).norm()
    }

    /// The point of the segment closest to `p`.
    pub fn project(&self, p: Vec2) -> (r: Vec2)
        ensures
            r == seg_project_spec(*self, p),
    {
        let d = self.1.sub(self.0);
        let nsq = d.norm_squared();
        if nsq.0 == 0 {
            self.0
        } else {
            let t = p.sub(self.0).dot(d).div(nsq);
            let tc = if t.0 < 0 {
                Fixed(0)
            } else if t.0 > SCALE {
                Fixed(SCALE)
            } else {
                t
            };
            self.0.add(d.scale(tc))
        }
    }

    /// Signed progress of `p` along the segment.
    pub fn progress(&self, p: Vec2) -> (r: Fixed)
        ensures
            r@ == seg_progress_spec(*self, p),
    {
        p.sub(self.0).dot(self.1.sub(self.0).normalized())
    }

    /// The segment's constant unit tangent.
    pub fn forward(&self, _p: Vec2) -> (r: Vec2)
        ensures
            r == seg_forward_spec(*self),
    {
        self.1.sub(self.0).normalized()
    }
}

/// Progress grows strictly along the forward direction: stated over the
/// exact (unrounded) integers, moving a point by `t` times the segment
/// vector, for positive `t`, increases the progress numerator
/// `(p - start)·(end - start)` by `t` times the positive `‖end - start‖²`.
pub proof fn lemma_progress_monotone_along_segment(
    sx: int,
    sy: int,
    dx: int,
    dy: int,
    px: int,
    py: int,
    t: int,
)
    by (nonlinear_arith)
    requires
        t > 0,
        dx != 0 || dy != 0,
    ensures
        (px + t * dx - sx) * dx + (py + t * dy - sy) * dy > (px - sx) * dx + (py - sy) * dy,
{
}

/// The projection parameter minimizes squared distance along the line:
/// stated over the exact integers, with `n = ‖d‖²` and `a = (p - s)·d`,
/// every parameter `u` satisfies `n·‖p - s - u·d‖² >= n·‖p - s‖² - a²`,
/// with equality exactly when `u·n = a` — the unclamped projection.
/// Lagrange's identity in the plane: the product of squared norms splits
/// into the squared dot product plus the squared cross product.
proof fn lemma_distrib(a: int, b: int, c: int, d: int)
    by (nonlinear_arith)
    ensures
        (a + b) * (c + d) == a * c + a * d + b * c + b * d,
        (a - b) * (c - d) == a * c - a * d - b * c + b * d,
{
}

proof fn lemma_sq_of_product(x: int, y: int)
    by (nonlinear_arith)
    ensures
        (x * x) * (y * y) == (x * y) * (x * y),
{
}

proof fn lemma_swap_factors(x: int, y: int, z: int, w: int)
    by (nonlinear_arith)
    ensures
        (x * y) * (z * w) == (x * w) * (z * y),
{
}

/// Lagrange's identity in the plane: the product of squared norms splits
/// into the squared dot product plus the squared cross product.
pub proof fn lemma_lagrange_identity(x: int, y: int, dx: int, dy: int)
    ensures
        (dx * dx + dy * dy) * (x * x + y * y) == (x * dx + y * dy) * (x * dx + y * dy) + (x * dy
            - y * dx) * (x * dy - y * dx),
{
    let p = x * dx;
    let q = y * dy;
    let r = x * dy;
    let s = y * dx;
    lemma_distrib(dx * dx, dy * dy, x * x, y * y);
    lemma_sq_of_product(dx, x);
    lemma_sq_of_product(dx, y);
    lemma_sq_of_product(dy, x);
    lemma_sq_of_product(dy, y);
    lemma_distrib(p, q, p, q);
    lemma_distrib(r, s, r, s);
    lemma_swap_factors(x, dx, y, dy);
}

/// Clamping the projection parameter keeps it nearest: the squared
/// distance along the line is a parabola in the parameter with its vertex
/// at the unclamped projection, so on either side of the vertex moving
/// the parameter towards it (as the clamp to `[0, 1]` does) never
/// increases the distance term `(u·n - a)²` of
/// `lemma_projection_minimizes_distance`.
pub proof fn lemma_clamped_projection_is_nearest(n: int, a: int, u1: int, u2: int)
    by (nonlinear_arith)
    requires
        n >= 0,
    ensures
        u1 <= u2 && u2 * n <= a ==> (u1 * n - a) * (u1 * n - a) >= (u2 * n - a) * (u2 * n - a),
        u2 <= u1 && a <= u2 * n ==> (u1 * n - a) * (u1 * n - a) >= (u2 * n - a) * (u2 * n - a),
{
}

pub proof fn lemma_projection_minimizes_distance(
    wx: int,
    wy: int,
    dx: int,
    dy: int,
    u: int,
    n: int,
    a: int,
)
    requires
        n == dx * dx + dy * dy,
        a == wx * dx + wy * dy,
    ensures
        n * ((wx - u * dx) * (wx - u * dx) + (wy - u * dy) * (wy - u * dy)) == n * (wx * wx + wy
            * wy) - a * a + (u * n - a) * (u * n - a),
        n * ((wx - u * dx) * (wx - u * dx) + (wy - u * dy) * (wy - u * dy)) >= n * (wx * wx + wy
            * wy) - a * a,
{
    let e1 = wx - u * dx;
    let e2 = wy - u * dy;
    lemma_lagrange_identity(wx, wy, dx, dy);
    lemma_lagrange_identity(e1, e2, dx, dy);
    assert(e1 * dx + e2 * dy == a - u * n) by (nonlinear_arith)
        requires
            e1 == wx - u * dx,
            e2 == wy - u * dy,
            n == dx * dx + dy * dy,
            a == wx * dx + wy * dy,
    ;
    assert(e1 * dy - e2 * dx == wx * dy - wy * dx) by (nonlinear_arith)
        requires
            e1 == wx - u * dx,
            e2 == wy - u * dy,
    ;
    assert((a - u * n) * (a - u * n) == (u * n - a) * (u * n - a)) by (nonlinear_arith);
    assert((u * n - a) * (u * n - a) >= 0) by (nonlinear_arith);
}

} // verus!
