//! Rotation directions.

use vstd::prelude::*;

use crate::fixed::{neg64, Fixed, SCALE};
use crate::vec2::Vec2;

verus! {

/// Orientation of a rotation or of an arc sweep.
#[derive(Clone, Copy, Debug, PartialEq, Eq, Structural)]
pub enum Direction {
    Clockwise,
    Counterclockwise,
    Colinear,
}

/// The sign a direction contributes to an angle: clockwise is negative,
/// counterclockwise positive, colinear zero.
pub open spec fn dir_sign(d: Direction) -> int {
    match d {
        Direction::Clockwise => -1,
        Direction::Counterclockwise => 1,
        Direction::Colinear => 0,
    }
}

/// A quarter turn of `v` in direction `d`, as `rotate_vector_90_degrees`
/// computes it.
pub open spec fn rotate90_spec(d: Direction, v: Vec2) -> Vec2 {
    match d {
        Direction::Clockwise => Vec2 { x: v.y, y: Fixed(neg64(v.x@) as i64) },
        Direction::Counterclockwise => Vec2 { x: Fixed(neg64(v.y@) as i64), y: v.x },
        Direction::Colinear => v,
    }
}

impl Direction {
    /// Rotate `subject` by a quarter turn in this direction; a colinear
    /// direction leaves it unchanged.
    pub fn rotate_vector_90_degrees(&self, subject: Vec2) -> (r: Vec2)
        ensures
            r == rotate90_spec(*self, subject),
    {
        match self {
            Direction::Clockwise => Vec2 { x: subject.y, y: subject.x.neg() },
            Direction::Counterclockwise => Vec2 { x: subject.y.neg(), y: subject.x },
            Direction::Colinear => subject,
        }
    }

    /// The direction's sign as a scalar: minus one, one, or zero.
    pub fn angle_sign(&self) -> (r: Fixed)
        ensures
            r@ == dir_sign(*self) * (SCALE as int),
    {
        match self {
            Direction::Clockwise => Fixed(-SCALE),
            Direction::Counterclockwise => Fixed(SCALE),
            Direction::Colinear => Fixed(0),
        }
    }
}

} // verus!
