//! Angles and sweeps in micro-radians.

use step_planning::angle::Angle;
use step_planning::direction::Direction;
use step_planning::fixed::{Fixed, HALF_PI, TAU};

const FRAC_PI_3: i64 = 1_047_198;
const FIVE_PI_3: i64 = 5_235_988;

#[test]
fn angle_to() {
    assert_eq!(
        Angle(Fixed(0)).angle_to(Angle(Fixed(HALF_PI)), Direction::Clockwise),
        Angle(Fixed(4_712_389))
    );
    assert_eq!(
        Angle(Fixed(0)).angle_to(Angle(Fixed(HALF_PI)), Direction::Counterclockwise),
        Angle(Fixed(1_570_796))
    );
    assert_eq!(
        Angle(Fixed(FIVE_PI_3)).angle_to(Angle(Fixed(FRAC_PI_3)), Direction::Clockwise),
        Angle(Fixed(4_188_790))
    );
    assert_eq!(
        Angle(Fixed(FIVE_PI_3)).angle_to(Angle(Fixed(FRAC_PI_3)), Direction::Counterclockwise),
        Angle(Fixed(2_094_395))
    );
}

#[test]
fn opposite_sweeps_cover_the_turn() {
    let a = Angle(Fixed(123_456));
    let b = Angle(Fixed(2_000_001));
    let cw = a.angle_to(b, Direction::Clockwise).into_inner().0;
    let ccw = a.angle_to(b, Direction::Counterclockwise).into_inner().0;
    assert_eq!(cw + ccw, TAU);
}

#[test]
fn colinear_sweeps_zero() {
    let a = Angle(Fixed(123_456));
    let b = Angle(Fixed(2_000_001));
    assert_eq!(a.angle_to(b, Direction::Colinear), Angle(Fixed(0)));
}

#[test]
fn normalized_wraps_into_one_turn() {
    assert_eq!(Angle(Fixed(-1)).normalized(), Angle(Fixed(TAU - 1)));
    assert_eq!(Angle(Fixed(TAU + 5)).normalized(), Angle(Fixed(5)));
    assert_eq!(Angle(Fixed(0)).normalized(), Angle(Fixed(0)));
}

#[test]
fn trigonometry_at_known_angles() {
    assert_eq!(Angle(Fixed(0)).cos(), Fixed(1_000_000));
    assert_eq!(Angle(Fixed(0)).sin(), Fixed(0));
    assert_eq!(Angle(Fixed(FRAC_PI_3)).cos(), Fixed(500_000));
    assert_eq!(Angle(Fixed(FRAC_PI_3)).sin(), Fixed(866_026));
    assert_eq!(Angle(Fixed(3_000_000)).cos(), Fixed(-989_992));
    assert_eq!(Angle(Fixed(3_000_000)).sin(), Fixed(141_120));
}
