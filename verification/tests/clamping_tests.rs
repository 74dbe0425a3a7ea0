//! Clamping line segments to rectangles.

use step_planning::clamping::Rectangle;
use step_planning::fixed::Fixed;
use step_planning::line_segment::LineSegment;
use step_planning::vec2::Vec2;

fn v(x: i64, y: i64) -> Vec2 {
    Vec2 {
        x: Fixed(x),
        y: Fixed(y),
    }
}

#[test]
fn test_aa_clamping() {
    let rect = Rectangle {
        min: v(0, 0),
        max: v(5_000_000, 3_000_000),
    };

    let line_1 = LineSegment(v(1_000_000, 1_000_000), v(4_000_000, 2_000_000));
    assert_eq!(Some(line_1), line_1.clamp_to_rect(rect));

    let line_2 = LineSegment(v(1_000_000, 1_000_000), v(6_000_000, 1_000_000));
    assert_eq!(
        Some(LineSegment(v(1_000_000, 1_000_000), v(5_000_000, 1_000_000))),
        line_2.clamp_to_rect(rect)
    );

    let line_3 = LineSegment(v(3_000_000, -2_000_000), v(7_000_000, 1_000_000));
    assert_eq!(None, line_3.clamp_to_rect(rect));

    let line_4 = LineSegment(v(1_000_000, 6_000_000), v(4_000_000, -3_000_000));
    assert_eq!(
        Some(LineSegment(v(2_000_000, 3_000_000), v(3_000_000, 0))),
        line_4.clamp_to_rect(rect)
    );

    let line_5 = LineSegment(v(10_000_000, -3_000_000), v(-5_000_000, 6_000_000));
    assert_eq!(
        Some(LineSegment(v(5_000_000, 0), v(0, 3_000_000))),
        line_5.clamp_to_rect(rect)
    );
}
