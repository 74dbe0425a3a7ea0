//! Arc lengths and classification.

use step_planning::angle::Angle;
use step_planning::arc::{Arc, ArcProjectionKind};
use step_planning::circle::Circle;
use step_planning::direction::Direction;
use step_planning::fixed::{Fixed, HALF_PI, TAU};
use step_planning::vec2::Vec2;

fn arc(
    center: Vec2,
    radius: i64,
    start: i64,
    end: i64,
    direction: Direction,
) -> Arc {
    Arc {
        circle: Circle {
            center,
            radius: Fixed(radius),
        },
        start: Angle(Fixed(start)),
        end: Angle(Fixed(end)),
        direction,
    }
}

#[test]
fn arc_cost_90_degrees() {
    let center = Vec2 {
        x: Fixed(1_000_000),
        y: Fixed(1_000_000),
    };
    let a = arc(center, 2_000_000, HALF_PI, 0, Direction::Clockwise);
    assert_eq!(a.length(), Fixed(3_141_592));

    let a = arc(center, 2_000_000, HALF_PI, 0, Direction::Counterclockwise);
    assert_eq!(a.length(), Fixed(9_424_778));

    let a = arc(center, 2_000_000, 0, HALF_PI, Direction::Clockwise);
    assert_eq!(a.length(), Fixed(9_424_778));

    let a = arc(center, 2_000_000, 0, HALF_PI, Direction::Counterclockwise);
    assert_eq!(a.length(), Fixed(3_141_592));
}

#[test]
fn arc_cost_generic() {
    let center = Vec2 {
        x: Fixed(3_141_593),
        y: Fixed(4_200_000),
    };
    let radius: i64 = 5_000_000;
    for angle_index in 0..100i64 {
        let angle = angle_index * TAU / 100;
        for angle_distance_index in 1..100i64 {
            let angle_distance = angle_distance_index * TAU / 100;

            let a = arc(
                center,
                radius,
                angle,
                angle + angle_distance,
                Direction::Counterclockwise,
            );
            let expected = radius * angle_distance / 1_000_000;
            assert!((a.length().0 - expected).abs() <= 5);

            let a = arc(
                center,
                radius,
                angle,
                angle + angle_distance,
                Direction::Clockwise,
            );
            let expected = radius * (TAU - angle_distance) / 1_000_000;
            assert!((a.length().0 - expected).abs() <= 5);
        }
    }
}

#[test]
fn classify_against_quarter_arc() {
    // Quarter arc around the origin from angle zero to a quarter turn.
    let a = arc(
        Vec2 {
            x: Fixed(0),
            y: Fixed(0),
        },
        1_000_000,
        0,
        HALF_PI,
        Direction::Counterclockwise,
    );
    // A point over the middle of the sweep projects onto the arc.
    let on = Vec2 {
        x: Fixed(2_000_000),
        y: Fixed(2_000_000),
    };
    assert_eq!(a.classify_point(on), ArcProjectionKind::OnArc);
    // A point just before the start goes to the start.
    let before = Vec2 {
        x: Fixed(2_000_000),
        y: Fixed(-100_000),
    };
    assert_eq!(a.classify_point(before), ArcProjectionKind::Start);
    // A point past the end goes to the end.
    let past = Vec2 {
        x: Fixed(-100_000),
        y: Fixed(2_000_000),
    };
    assert_eq!(a.classify_point(past), ArcProjectionKind::End);
}
