//! Paths, projection, progress, and the distance and progress fields.

use step_planning::angle::Angle;
use step_planning::arc::Arc;
use step_planning::circle::Circle;
use step_planning::direction::Direction;
use step_planning::fixed::Fixed;
use step_planning::line_segment::LineSegment;
use step_planning::path::{Path, PathSegment};
use step_planning::path_distance::PathDistanceField;
use step_planning::path_progress::PathProgressField;
use step_planning::vec2::Vec2;

fn v(x: i64, y: i64) -> Vec2 {
    Vec2 {
        x: Fixed(x),
        y: Fixed(y),
    }
}

/// A straight run, a quarter turn to the left, and a straight run up.
fn test_path() -> Path {
    Path {
        segments: vec![
            PathSegment::LineSegment(LineSegment(v(0, 0), v(3_000_000, 0))),
            PathSegment::Arc(Arc {
                circle: Circle {
                    center: v(3_000_000, 1_000_000),
                    radius: Fixed(1_000_000),
                },
                start: Angle(Fixed(4_712_389)),
                end: Angle(Fixed(0)),
                direction: Direction::Counterclockwise,
            }),
            PathSegment::LineSegment(LineSegment(v(4_000_000, 1_000_000), v(4_000_000, 4_000_000))),
        ],
    }
}

#[test]
fn test_path_distance() {
    let path = test_path();
    let loss_field = PathDistanceField { path: &path };

    // Start
    assert_eq!(loss_field.loss(v(0, 0)), Fixed(0));
    assert_eq!(loss_field.grad(v(0, 0)), v(0, 0));

    // Before start
    assert_eq!(loss_field.loss(v(-1_000_000, 0)), Fixed(1_000_000));
    assert_eq!(loss_field.grad(v(-1_000_000, 0)), v(-2_000_000, 0));

    // End of first line segment, start of arc
    assert_eq!(loss_field.loss(v(3_000_000, 0)), Fixed(0));
    assert_eq!(loss_field.grad(v(3_000_000, 0)), v(0, 0));

    // Below start of arc
    assert_eq!(loss_field.loss(v(3_000_000, -1_000_000)), Fixed(1_000_000));
    assert_eq!(loss_field.grad(v(3_000_000, -1_000_000)), v(0, -2_000_000));

    // End of arc
    assert_eq!(loss_field.loss(v(4_000_000, 1_000_000)), Fixed(0));
    assert_eq!(loss_field.grad(v(4_000_000, 1_000_000)), v(0, 0));

    // End
    assert_eq!(loss_field.loss(v(4_000_000, 4_000_000)), Fixed(0));
    assert_eq!(loss_field.grad(v(4_000_000, 4_000_000)), v(0, 0));

    // Outside of arc: the projection pivots around the arc's corner.
    assert_eq!(loss_field.loss(v(4_000_000, 0)), Fixed(171_572));
    assert_eq!(loss_field.grad(v(4_000_000, 0)), v(585_786, -585_786));
}

#[test]
fn straight_line_queries() {
    let path = Path {
        segments: vec![PathSegment::LineSegment(LineSegment(v(0, 0), v(3_000_000, 0)))],
    };
    let p = v(1_000_000, 2_000_000);
    // The projection parameter one third rounds down by one micro-meter.
    assert_eq!(path.project(p), v(999_999, 0));
    assert_eq!(path.progress(p), Fixed(1_000_000));
    assert_eq!(path.forward(p), v(1_000_000, 0));

    let loss_field = PathDistanceField { path: &path };
    assert_eq!(loss_field.loss(p), Fixed(4_000_000));
    assert_eq!(loss_field.grad(p), v(2, 4_000_000));
}

#[test]
fn l_path_projection_pivot() {
    let path = test_path();
    // sqrt(2)/2 in micro-units is 707107; the projection splits the corner.
    assert_eq!(path.project(v(4_000_000, 0)), v(3_707_107, 292_893));
}

#[test]
fn progress_accumulates_over_segments() {
    let path = test_path();
    // On the first segment.
    assert_eq!(path.progress(v(1_000_000, 2_000_000)), Fixed(1_000_000));
    // Over the arc: the first segment's full length plus the sweep so far.
    assert_eq!(path.progress(v(4_000_000, 0)), Fixed(3_785_386));
    // Progress grows strictly while moving along a segment's direction.
    let a = path.progress(v(500_000, 100_000)).0;
    let b = path.progress(v(600_000, 100_000)).0;
    assert!(a < b);
}

#[test]
fn progress_field_rewards_motion_along_the_path() {
    let path = Path {
        segments: vec![PathSegment::LineSegment(LineSegment(v(0, 0), v(1_000_000, 0)))],
    };
    let field = PathProgressField {
        path: &path,
        smoothness: Fixed(1_000_000),
    };
    // At the start the cap is still away: loss is minus the blended value.
    assert_eq!(field.loss(v(0, 0)), Fixed(-500_000));
    // The gradient points backwards along the path (descending it moves
    // the point forward), scaled by the cap's slope of one here.
    assert_eq!(field.grad(v(0, 0)), v(-1_000_000, 0));
    // Far past the end the cap is reached: constant loss, zero gradient.
    assert_eq!(field.loss(v(5_000_000, 0)), Fixed(-1_000_000));
    assert_eq!(field.grad(v(5_000_000, 0)), v(0, 0));
}
