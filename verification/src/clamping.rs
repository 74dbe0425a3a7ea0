//! Clamping line segments to axis-aligned half planes and rectangles.

use vstd::prelude::*;

use crate::fixed::{add64, scaled_div, scaled_mul, sub64, Fixed};
use crate::line_segment::LineSegment;
use crate::vec2::{vsub_spec, Vec2};

verus! {

/// A coordinate axis of the plane.
#[derive(Clone, Copy, Debug, PartialEq, Eq, Structural)]
pub enum Axis {
    X,
    Y,
}

/// Which side of the clamping line is kept.
#[derive(Clone, Copy, Debug, PartialEq, Eq, Structural)]
pub enum ClampDirection {
    /// Everything above is valid.
    Min,
    /// Everything below is valid.
    Max,
}

/// An axis-aligned rectangle.
#[derive(Clone, Copy, Debug, PartialEq, Eq, Structural)]
pub struct Rectangle {
    pub min: Vec2,
    pub max: Vec2,
}

/// Whether `point` lies strictly on the discarded side of the clamping
/// line at `value`.
pub open spec fn is_outside_spec(
    point: Vec2,
    axis: Axis,
    direction: ClampDirection,
    value: int,
) -> bool {
    match (axis, direction) {
        (Axis::X, ClampDirection::Max) => point.x@ > value,
        (Axis::Y, ClampDirection::Max) => point.y@ > value,
        (Axis::X, ClampDirection::Min) => point.x@ < value,
        (Axis::Y, ClampDirection::Min) => point.y@ < value,
    }
}

fn is_outside(point: Vec2, axis: Axis, direction: ClampDirection, value: Fixed) -> (r: bool)
    ensures
        r == is_outside_spec(point, axis, direction, value@),
{
    match (axis, direction) {
        (Axis::X, ClampDirection::Max) => point.x.0 > value.0,
        (Axis::Y, ClampDirection::Max) => point.y.0 > value.0,
        (Axis::X, ClampDirection::Min) => point.x.0 < value.0,
        (Axis::Y, ClampDirection::Min) => point.y.0 < value.0,
    }
}

/// Where the infinite line through the segment crosses the axis line at
/// `value`: the free coordinate interpolated with the single division
/// last, so that rational crossings with small denominators are exact.
pub open spec fn line_axis_intersection_spec(s: LineSegment, axis: Axis, value: int) -> Vec2 {
    let d = vsub_spec(s.1, s.0);
    match axis {
        Axis::X => Vec2 {
            x: Fixed(value as i64),
            y: Fixed(
                add64(s.0.y@, scaled_div(scaled_mul(d.y@, sub64(value, s.0.x@)), d.x@)) as i64,
            ),
        },
        Axis::Y => Vec2 {
            x: Fixed(
                add64(s.0.x@, scaled_div(scaled_mul(d.x@, sub64(value, s.0.y@)), d.y@)) as i64,
            ),
            y: Fixed(value as i64),
        },
    }
}

fn line_axis_intersection(s: LineSegment, axis: Axis, value: Fixed) -> (r: Vec2)
    requires
        axis == Axis::X ==> sub64(s.1.x@, s.0.x@) != 0,
        axis == Axis::Y ==> sub64(s.1.y@, s.0.y@) != 0,
    ensures
        r == line_axis_intersection_spec(s, axis, value@),
{
    let d = s.1.sub(s.0);
    match axis {
        Axis::X => Vec2 { x: value, y: s.0.y.add(d.y.mul(value.sub(s.0.x)).div(d.x)) },
        Axis::Y => Vec2 { x: s.0.x.add(d.x.mul(value.sub(s.0.y)).div(d.y)), y: value },
    }
}

/// What clamping a segment to a half plane yields: nothing when both ends
/// are outside, the segment unchanged when both are inside, and otherwise
/// the inside part, cut at the crossing of the clamping line.
pub open spec fn clamp_to_axis_spec(
    s: LineSegment,
    axis: Axis,
    direction: ClampDirection,
    value: int,
) -> Option<LineSegment> {
    let out0 = is_outside_spec(s.0, axis, direction, value);
    let out1 = is_outside_spec(s.1, axis, direction, value);
    if out0 && out1 {
        Option::None
    } else if out0 {
        Option::Some(LineSegment(line_axis_intersection_spec(s, axis, value), s.1))
    } else if out1 {
        Option::Some(LineSegment(s.0, line_axis_intersection_spec(s, axis, value)))
    } else {
        Option::Some(s)
    }
}

/// Clamping to a half plane, then to the opposite one at `max`.
pub open spec fn clamp_to_axis_range_spec(
    s: LineSegment,
    axis: Axis,
    min: int,
    max: int,
) -> Option<LineSegment> {
    match clamp_to_axis_spec(s, axis, ClampDirection::Min, min) {
        Option::None => Option::None,
        Option::Some(t) => clamp_to_axis_spec(t, axis, ClampDirection::Max, max),
    }
}

/// Clamping to a rectangle: to its horizontal range, then its vertical.
pub open spec fn clamp_to_rect_spec(s: LineSegment, rect: Rectangle) -> Option<LineSegment> {
    match clamp_to_axis_range_spec(s, Axis::X, rect.min.x@, rect.max.x@) {
        Option::None => Option::None,
        Option::Some(t) => clamp_to_axis_range_spec(t, Axis::Y, rect.min.y@, rect.max.y@),
    }
}

impl LineSegment {
    /// Clamp the segment to a line at `value` parallel to `axis`, keeping
    /// the side `direction` says is valid.
    pub fn clamp_to_axis(self, axis: Axis, direction: ClampDirection, value: Fixed) -> (r: Option<
        LineSegment,
    >)
        ensures
            r == clamp_to_axis_spec(self, axis, direction, value@),
    {
        match (
            is_outside(self.0, axis, direction, value),
            is_outside(self.1, axis, direction, value),
        ) {
            (true, true) => None,
            (true, false) => {
                let intersection = line_axis_intersection(self, axis, value);
                Some(LineSegment(intersection, self.1))
            },
            (false, true) => {
                let intersection = line_axis_intersection(self, axis, value);
                Some(LineSegment(self.0, intersection))
            },
            (false, false) => Some(self),
        }
    }

    /// Clamp the segment to the band between `min` and `max` along `axis`.
    pub fn clamp_to_axis_range(self, axis: Axis, min: Fixed, max: Fixed) -> (r: Option<
        LineSegment,
    >)
        ensures
            r == clamp_to_axis_range_spec(self, axis, min@, max@),
    {
        match self.clamp_to_axis(axis, ClampDirection::Min, min) {
            None => None,
            Some(t) => t.clamp_to_axis(axis, ClampDirection::Max, max),
        }
    }

    /// Clamp the segment to a rectangle.
    pub fn clamp_to_rect(self, rect: Rectangle) -> (r: Option<LineSegment>)
        ensures
            r == clamp_to_rect_spec(self, rect),
    {
        match self.clamp_to_axis_range(Axis::X, rect.min.x, rect.max.x) {
            None => None,
            Some(t) => t.clamp_to_axis_range(Axis::Y, rect.min.y, rect.max.y),
        }
    }
}

} // verus!
