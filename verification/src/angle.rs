//! Angles in micro-radians, compared modulo one full turn.

use vstd::prelude::*;

use crate::direction::{dir_sign, Direction};
use crate::fixed::{lemma_mod_negation, rem_euclid_i128, Fixed, TAU};
use crate::trig::{cos_fixed, cos_spec, sin_fixed, sin_spec};
use crate::vec2::Vec2;

verus! {

/// An angle in micro-radians. Two angles are equal when their
/// representatives agree modulo one full turn.
#[derive(Clone, Copy, Debug)]
pub struct Angle(pub Fixed);

impl PartialEq for Angle {
    fn eq(&self, other: &Self) -> (r: bool) {
        self.0.rem_euclid(TAU).0 == other.0.rem_euclid(TAU).0
    }
}

impl vstd::std_specs::cmp::PartialEqSpecImpl for Angle {
    open spec fn obeys_eq_spec() -> bool {
        true
    }

    open spec fn eq_spec(&self, other: &Self) -> bool {
        self.0@ % (TAU as int) == other.0@ % (TAU as int)
    }
}

/// An angle reduced into `[0, tau)`.
pub open spec fn normalized_spec(a: int) -> int {
    a % (TAU as int)
}

/// The non-negative sweep from `from` to `to` going in `dir`, in
/// micro-radians in `[0, tau)`. A colinear direction sweeps zero.
pub open spec fn angle_to_spec(from: int, to: int, dir: Direction) -> int {
    (dir_sign(dir) * (to - from)) % (TAU as int)
}

impl Angle {
    /// Wrap a micro-radian count.
    pub fn new(value: Fixed) -> (r: Self)
        ensures
            r.0 == value,
    {
        Angle(value)
    }

    /// The micro-radian count.
    pub fn into_inner(self) -> (r: Fixed)
        ensures
            r == self.0,
    {
        self.0
    }

    /// Cosine of the angle.
    pub fn cos(&self) -> (r: Fixed)
        ensures
            r@ == cos_spec(self.0@),
    {
        cos_fixed(self.0)
    }

    /// Sine of the angle.
    pub fn sin(&self) -> (r: Fixed)
        ensures
            r@ == sin_spec(self.0@),
    {
        sin_fixed(self.0)
    }

    /// The sweep from this angle to `to`, going in `direction`.
    pub fn angle_to(&self, to: Self, direction: Direction) -> (r: Self)
        ensures
            r.0@ == angle_to_spec(self.0@, to.0@, direction),
            0 <= r.0@ < TAU as int,
    {
        let d: i128 = to.0.0 as i128 - self.0.0 as i128;
        let s: i128 = match direction {
            Direction::Clockwise => -d,
            Direction::Counterclockwise => d,
            Direction::Colinear => 0,
        };
        Angle(Fixed(rem_euclid_i128(s, TAU)))
    }

    /// The unit vector pointing along the angle.
    pub fn as_direction(&self) -> (r: Vec2)
        ensures
            r.x@ == cos_spec(self.0@),
            r.y@ == sin_spec(self.0@),
    {
        Vec2 { x: cos_fixed(self.0), y: sin_fixed(self.0) }
    }

    /// The representative of the angle in `[0, tau)`.
    pub fn normalized(&self) -> (r: Self)
        ensures
            r.0@ == normalized_spec(self.0@),
            0 <= r.0@ < TAU as int,
    {
        Angle(self.0.rem_euclid(TAU))
    }
}

/// Reversing the direction of a sweep complements it: between angles whose
/// difference is not a whole number of turns, the clockwise and the
/// counterclockwise sweep add up to exactly one full turn, and when the
/// difference is a whole number of turns both sweeps are zero.
pub proof fn lemma_opposite_sweeps_sum_to_turn(from: int, to: int)
    ensures
        (to - from) % (TAU as int) != 0 ==> angle_to_spec(from, to, Direction::Clockwise)
            + angle_to_spec(from, to, Direction::Counterclockwise) == TAU as int,
        (to - from) % (TAU as int) == 0 ==> angle_to_spec(from, to, Direction::Clockwise) == 0
            && angle_to_spec(from, to, Direction::Counterclockwise) == 0,
{
    lemma_mod_negation(to - from, TAU as int);
}

} // verus!
