//! Fixed-point trigonometry.
//!
//! Cosine, sine and the polar angle of a vector are computed from truncated
//! power series (and an odd minimax polynomial for the arc tangent) after
//! range reduction. The spec functions below state the computed result
//! exactly, micro-unit by micro-unit; how close that result is to the real
//! transcendental value (a few micro-radians over the reduced range) is a
//! numerical question outside the contracts.

use vstd::prelude::*;

use crate::fixed::{
    add64, mag, neg64, quot0, sat64, scaled_div, scaled_mul, sub64, Fixed, HALF_PI, PI, SCALE,
    TAU,
};

verus! {

/// Truncated cosine series on the reduced range `[0, pi/2]`.
pub open spec fn cos_poly_spec(u: int) -> int {
    let u2 = scaled_mul(u, u);
    let u4 = scaled_mul(u2, u2);
    let u6 = scaled_mul(u4, u2);
    let u8 = scaled_mul(u4, u4);
    add64(
        sub64(add64(sub64(SCALE as int, quot0(u2, 2)), quot0(u4, 24)), quot0(u6, 720)),
        quot0(u8, 40320),
    )
}

/// Truncated sine series on the reduced range `[0, pi/2]`.
pub open spec fn sin_poly_spec(u: int) -> int {
    let u2 = scaled_mul(u, u);
    let u3 = scaled_mul(u2, u);
    let u4 = scaled_mul(u2, u2);
    let u5 = scaled_mul(u4, u);
    let u7 = scaled_mul(scaled_mul(u4, u2), u);
    let u9 = scaled_mul(scaled_mul(u4, u4), u);
    add64(
        sub64(add64(sub64(u, quot0(u3, 6)), quot0(u5, 120)), quot0(u7, 5040)),
        quot0(u9, 362880),
    )
}

/// Cosine of a micro-radian angle, after reduction into `[0, tau)` and
/// quadrant folding.
pub open spec fn cos_spec(theta: int) -> int {
    let a = theta % (TAU as int);
    if a < HALF_PI as int {
        cos_poly_spec(a)
    } else if a < PI as int {
        neg64(cos_poly_spec(sub64(PI as int, a)))
    } else if a < PI as int + HALF_PI as int {
        neg64(cos_poly_spec(sub64(a, PI as int)))
    } else {
        cos_poly_spec(sub64(TAU as int, a))
    }
}

/// Sine of a micro-radian angle, after reduction into `[0, tau)` and
/// quadrant folding.
pub open spec fn sin_spec(theta: int) -> int {
    let a = theta % (TAU as int);
    if a < HALF_PI as int {
        sin_poly_spec(a)
    } else if a < PI as int {
        sin_poly_spec(sub64(PI as int, a))
    } else if a < PI as int + HALF_PI as int {
        neg64(sin_poly_spec(sub64(a, PI as int)))
    } else {
        neg64(sin_poly_spec(sub64(TAU as int, a)))
    }
}

/// Arc tangent on `[0, 1]`, as a degree-nine odd minimax polynomial.
pub open spec fn atan_poly_spec(z: int) -> int {
    let z2 = scaled_mul(z, z);
    let t3 = add64(-85133, scaled_mul(20835, z2));
    let t2 = add64(180141, scaled_mul(t3, z2));
    let t1 = add64(-330299, scaled_mul(t2, z2));
    let t0 = add64(999866, scaled_mul(t1, z2));
    scaled_mul(z, t0)
}

/// Polar angle of the vector `(x, y)` in `[0, tau)` micro-radians,
/// by octant reduction to the arc tangent polynomial. The zero vector
/// maps to angle zero.
pub open spec fn atan2_spec(y: int, x: int) -> int {
    if x == 0 && y == 0 {
        0
    } else {
        let ax = sat64(mag(x));
        let ay = sat64(mag(y));
        let base = if ay <= ax {
            atan_poly_spec(scaled_div(ay, ax))
        } else {
            sub64(HALF_PI as int, atan_poly_spec(scaled_div(ax, ay)))
        };
        if x >= 0 && y >= 0 {
            base
        } else if x < 0 && y >= 0 {
            sub64(PI as int, base)
        } else if x < 0 {
            add64(PI as int, base)
        } else {
            sub64(TAU as int, base) % (TAU as int)
        }
    }
}

/// Truncated cosine series on the reduced range.
fn cos_poly(u: Fixed) -> (r: Fixed)
    ensures
        r@ == cos_poly_spec(u@),
{
    let u2 = u.mul(u);
    let u4 = u2.mul(u2);
    let u6 = u4.mul(u2);
    let u8 = u4.mul(u4);
    Fixed(SCALE).sub(u2.divn(2)).add(u4.divn(24)).sub(u6.divn(720)).add(u8.divn(40320))
}

/// Truncated sine series on the reduced range.
fn sin_poly(u: Fixed) -> (r: Fixed)
    ensures
        r@ == sin_poly_spec(u@),
{
    let u2 = u.mul(u);
    let u3 = u2.mul(u);
    let u4 = u2.mul(u2);
    let u5 = u4.mul(u);
    let u7 = u4.mul(u2).mul(u);
    let u9 = u4.mul(u4).mul(u);
    u.sub(u3.divn(6)).add(u5.divn(120)).sub(u7.divn(5040)).add(u9.divn(362880))
}

/// Cosine of a micro-radian angle.
pub fn cos_fixed(theta: Fixed) -> (r: Fixed)
    ensures
        r@ == cos_spec(theta@),
{
    let a = theta.rem_euclid(TAU);
    if a.0 < HALF_PI {
        cos_poly(a)
    } else if a.0 < PI {
        cos_poly(Fixed(PI).sub(a)).neg()
    } else if a.0 < PI + HALF_PI {
        cos_poly(a.sub(Fixed(PI))).neg()
    } else {
        cos_poly(Fixed(TAU).sub(a))
    }
}

/// Sine of a micro-radian angle.
pub fn sin_fixed(theta: Fixed) -> (r: Fixed)
    ensures
        r@ == sin_spec(theta@),
{
    let a = theta.rem_euclid(TAU);
    if a.0 < HALF_PI {
        sin_poly(a)
    } else if a.0 < PI {
        sin_poly(Fixed(PI).sub(a))
    } else if a.0 < PI + HALF_PI {
        sin_poly(a.sub(Fixed(PI))).neg()
    } else {
        sin_poly(Fixed(TAU).sub(a)).neg()
    }
}

/// Arc tangent polynomial on `[0, 1]`.
fn atan_poly(z: Fixed) -> (r: Fixed)
    ensures
        r@ == atan_poly_spec(z@),
{
    let z2 = z.mul(z);
    let t3 = Fixed(-85133).add(Fixed(20835).mul(z2));
    let t2 = Fixed(180141).add(t3.mul(z2));
    let t1 = Fixed(-330299).add(t2.mul(z2));
    let t0 = Fixed(999866).add(t1.mul(z2));
    z.mul(t0)
}

/// Polar angle of the vector `(x, y)` in `[0, tau)` micro-radians.
pub fn atan2_fixed(y: Fixed, x: Fixed) -> (r: Fixed)
    ensures
        r@ == atan2_spec(y@, x@),
{
    if x.0 == 0 && y.0 == 0 {
        return Fixed(0);
    }
    let ax = x.abs();
    let ay = y.abs();
    let base = if ay.0 <= ax.0 {
        atan_poly(ay.div(ax))
    } else {
        Fixed(HALF_PI).sub(atan_poly(ax.div(ay)))
    };
    if x.0 >= 0 && y.0 >= 0 {
        base
    } else if x.0 < 0 && y.0 >= 0 {
        Fixed(PI).sub(base)
    } else if x.0 < 0 {
        Fixed(PI).add(base)
    } else {
        Fixed(TAU).sub(base).rem_euclid(TAU)
    }
}

} // verus!
