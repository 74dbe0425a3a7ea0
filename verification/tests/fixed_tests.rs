//! The micro-unit scalar: rounding, saturation, roots, remainders.

use step_planning::fixed::{Fixed, SCALE, TAU};

#[test]
fn products_round_toward_zero() {
    assert_eq!(Fixed(1_500_000).mul(Fixed(1_000_000)), Fixed(1_500_000));
    assert_eq!(Fixed(-1).mul(Fixed(999_999)), Fixed(0));
    assert_eq!(Fixed(1).mul(Fixed(999_999)), Fixed(0));
    assert_eq!(Fixed(-1_500_000).mul(Fixed(1_500_000)), Fixed(-2_250_000));
}

#[test]
fn quotients_round_toward_zero() {
    assert_eq!(Fixed(1_000_000).div(Fixed(3_000_000)), Fixed(333_333));
    assert_eq!(Fixed(-1_000_000).div(Fixed(3_000_000)), Fixed(-333_333));
    assert_eq!(Fixed(1_000_000).div(Fixed(-3_000_000)), Fixed(-333_333));
    assert_eq!(Fixed(-1_000_000).div(Fixed(-3_000_000)), Fixed(333_333));
}

#[test]
fn arithmetic_saturates_at_the_representation_limits() {
    assert_eq!(Fixed(i64::MAX).add(Fixed(1)), Fixed(i64::MAX));
    assert_eq!(Fixed(i64::MIN).sub(Fixed(1)), Fixed(i64::MIN));
    assert_eq!(Fixed(i64::MIN).neg(), Fixed(i64::MAX));
    assert_eq!(Fixed(i64::MIN).abs(), Fixed(i64::MAX));
    assert_eq!(Fixed(i64::MAX).mul(Fixed(i64::MAX)), Fixed(i64::MAX));
}

#[test]
fn roots_are_floors() {
    assert_eq!(Fixed(2_000_000).sqrt(), Fixed(1_414_213));
    assert_eq!(Fixed(4_000_000).sqrt(), Fixed(2_000_000));
    assert_eq!(Fixed(0).sqrt(), Fixed(0));
    assert_eq!(Fixed(8_000_000).cbrt(), Fixed(2_000_000));
    assert_eq!(Fixed(1_000_000).cbrt(), Fixed(1_000_000));
}

#[test]
fn remainders_are_euclidean() {
    assert_eq!(Fixed(-1).rem_euclid(TAU), Fixed(TAU - 1));
    assert_eq!(Fixed(TAU + 7).rem_euclid(TAU), Fixed(7));
    assert_eq!(Fixed(-TAU).rem_euclid(TAU), Fixed(0));
    assert_eq!(Fixed(3 * SCALE).divn(2), Fixed(1_500_000));
    assert_eq!(Fixed(-3 * SCALE).divn(2), Fixed(-1_500_000));
}
