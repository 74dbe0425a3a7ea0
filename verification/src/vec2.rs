//! Ground-plane vectors and points in micro-meters.

use vstd::prelude::*;

use crate::fixed::{
    add64, fixed_sqrt, lemma_square_nonneg, neg64, scaled_div, scaled_mul, sub64, Fixed,
};

verus! {

/// A two-dimensional vector (or point) on the ground plane.
#[derive(Clone, Copy, Debug, PartialEq, Eq, Structural)]
pub struct Vec2 {
    pub x: Fixed,
    pub y: Fixed,
}

/// Component-wise sum, as the `add` method computes it.
pub open spec fn vadd_spec(a: Vec2, b: Vec2) -> Vec2 {
    Vec2 { x: Fixed(add64(a.x@, b.x@) as i64), y: Fixed(add64(a.y@, b.y@) as i64) }
}

/// Component-wise difference, as the `sub` method computes it.
pub open spec fn vsub_spec(a: Vec2, b: Vec2) -> Vec2 {
    Vec2 { x: Fixed(sub64(a.x@, b.x@) as i64), y: Fixed(sub64(a.y@, b.y@) as i64) }
}

/// Multiplication by a scalar, as the `scale` method computes it.
pub open spec fn vscale_spec(a: Vec2, k: int) -> Vec2 {
    Vec2 { x: Fixed(scaled_mul(a.x@, k) as i64), y: Fixed(scaled_mul(a.y@, k) as i64) }
}

/// Component-wise negation, as the `neg` method computes it.
pub open spec fn vneg_spec(a: Vec2) -> Vec2 {
    Vec2 { x: Fixed(neg64(a.x@) as i64), y: Fixed(neg64(a.y@) as i64) }
}

/// The unit vector along `a` (the zero vector unchanged), as the
/// `normalized` method computes it.
pub open spec fn vnormalized_spec(a: Vec2) -> Vec2 {
    if norm_spec(a) == 0 {
        a
    } else {
        Vec2 {
            x: Fixed(scaled_div(a.x@, norm_spec(a)) as i64),
            y: Fixed(scaled_div(a.y@, norm_spec(a)) as i64),
        }
    }
}

/// Dot product of two vectors, in micro-units.
pub open spec fn dot_spec(a: Vec2, b: Vec2) -> int {
    add64(scaled_mul(a.x@, b.x@), scaled_mul(a.y@, b.y@))
}

/// Squared euclidean norm, in micro-units.
pub open spec fn norm_sq_spec(a: Vec2) -> int {
    dot_spec(a, a)
}

/// Euclidean norm, in micro-units, rounded down.
pub open spec fn norm_spec(a: Vec2) -> int {
    fixed_sqrt(norm_sq_spec(a))
}

pub proof fn lemma_norm_sq_nonneg(a: Vec2)
    ensures
        norm_sq_spec(a) >= 0,
{
    lemma_square_nonneg(a.x@);
    lemma_square_nonneg(a.y@);
}

impl Vec2 {
    /// Component-wise sum.
    pub fn add(self, rhs: Vec2) -> (r: Vec2)
        ensures
            r == vadd_spec(self, rhs),
            r.x@ == add64(self.x@, rhs.x@),
            r.y@ == add64(self.y@, rhs.y@),
    {
        Vec2 { x: self.x.add(rhs.x), y: self.y.add(rhs.y) }
    }

    /// Component-wise difference.
    pub fn sub(self, rhs: Vec2) -> (r: Vec2)
        ensures
            r == vsub_spec(self, rhs),
            r.x@ == sub64(self.x@, rhs.x@),
            r.y@ == sub64(self.y@, rhs.y@),
    {
        Vec2 { x: self.x.sub(rhs.x), y: self.y.sub(rhs.y) }
    }

    /// Component-wise negation.
    pub fn neg(self) -> (r: Vec2)
        ensures
            r == vneg_spec(self),
            r.x@ == neg64(self.x@),
            r.y@ == neg64(self.y@),
    {
        Vec2 { x: self.x.neg(), y: self.y.neg() }
    }

    /// Multiplication by a scalar.
    pub fn scale(self, k: Fixed) -> (r: Vec2)
        ensures
            r == vscale_spec(self, k@),
            r.x@ == scaled_mul(self.x@, k@),
            r.y@ == scaled_mul(self.y@, k@),
    {
        Vec2 { x: self.x.mul(k), y: self.y.mul(k) }
    }

    /// Dot product.
    pub fn dot(self, rhs: Vec2) -> (r: Fixed)
        ensures
            r@ == dot_spec(self, rhs),
    {
        self.x.mul(rhs.x).add(self.y.mul(rhs.y))
    }

    /// Squared euclidean norm.
    pub fn norm_squared(self) -> (r: Fixed)
        ensures
            r@ == norm_sq_spec(self),
            r@ >= 0,
    {
        proof {
            lemma_norm_sq_nonneg(self);
        }
        self.dot(self)
    }

    /// Euclidean norm.
    pub fn norm(self) -> (r: Fixed)
        ensures
            r@ == norm_spec(self),
            r@ >= 0,
    {
        self.norm_squared().sqrt()
    }

    /// The unit vector with this vector's direction; the zero vector,
    /// which has none, is returned unchanged rather than divided by its
    /// vanishing norm.
    pub fn normalized(self) -> (r: Vec2)
        ensures
            r == vnormalized_spec(self),
    {
        let n = self.norm();
        if n.0 == 0 {
            self
        } else {
            Vec2 { x: self.x.div(n), y: self.y.div(n) }
        }
    }
}

} // verus!
