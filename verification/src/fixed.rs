//! Fixed-point scalar arithmetic.
//!
//! All geometric and loss quantities in this crate are carried as `Fixed`
//! values: signed 64-bit integers counting micro-units (one millionth of a
//! meter, radian, or loss unit). Products and quotients are rounded toward
//! zero and saturate at the `i64` range; every operation's contract states
//! the exact result, rounding and saturation included.

use vstd::prelude::*;

verus! {

/// Micro-units per one unit.
pub const SCALE: i64 = 1_000_000;

/// One half, in micro-units.
pub const HALF: i64 = 500_000;

/// A full turn (two pi), rounded to the nearest micro-radian.
pub const TAU: i64 = 6_283_185;

/// Pi, rounded to the nearest micro-radian.
pub const PI: i64 = 3_141_593;

/// Pi halves, rounded to the nearest micro-radian.
pub const HALF_PI: i64 = 1_570_796;

/// A scalar in micro-units: `Fixed(v)` denotes the real number `v / 1_000_000`.
#[derive(Clone, Copy, Debug, PartialEq, Eq, Structural)]
pub struct Fixed(pub i64);

impl View for Fixed {
    type V = int;

    open spec fn view(&self) -> int {
        self.0 as int
    }
}

/// Magnitude of an integer.
pub open spec fn mag(x: int) -> int {
    if x >= 0 {
        x
    } else {
        -x
    }
}

/// Quotient rounded toward zero (the rounding of Rust's integer division).
pub open spec fn quot0(n: int, d: int) -> int
    recommends
        d != 0,
{
    if (n >= 0) == (d >= 0) {
        mag(n) / mag(d)
    } else {
        -(mag(n) / mag(d))
    }
}

/// Saturation to the `i64` range.
pub open spec fn sat64(x: int) -> int {
    if x > i64::MAX as int {
        i64::MAX as int
    } else if x < i64::MIN as int {
        i64::MIN as int
    } else {
        x
    }
}

/// Saturating sum, as the `add` method computes it.
pub open spec fn add64(a: int, b: int) -> int {
    sat64(a + b)
}

/// Saturating difference, as the `sub` method computes it.
pub open spec fn sub64(a: int, b: int) -> int {
    sat64(a - b)
}

/// Saturating negation, as the `neg` method computes it.
pub open spec fn neg64(a: int) -> int {
    sat64(-a)
}

/// Saturating magnitude, as the `abs` method computes it.
pub open spec fn abs64(a: int) -> int {
    sat64(mag(a))
}

/// The product of two micro-unit values, in micro-units.
pub open spec fn scaled_mul(a: int, b: int) -> int {
    sat64(quot0(a * b, SCALE as int))
}

/// The quotient of two micro-unit values, in micro-units.
pub open spec fn scaled_div(a: int, b: int) -> int
    recommends
        b != 0,
{
    sat64(quot0(a * (SCALE as int), b))
}

/// The floor of the square root of a non-negative integer.
pub open spec fn sqrt_floor(x: int) -> int {
    choose|r: int| 0 <= r && #[trigger] (r * r) <= x && x < (r + 1) * (r + 1)
}

/// The floor of the cube root of a non-negative integer.
pub open spec fn cbrt_floor(x: int) -> int {
    choose|r: int| 0 <= r && #[trigger] (r * r * r) <= x && x < (r + 1) * (r + 1) * (r + 1)
}

/// The square root of a micro-unit value, in micro-units, rounded down.
pub open spec fn fixed_sqrt(v: int) -> int
    recommends
        v >= 0,
{
    sqrt_floor(v * (SCALE as int))
}

/// The cube root of a micro-unit value, in micro-units, rounded down.
pub open spec fn fixed_cbrt(v: int) -> int
    recommends
        v >= 0,
{
    cbrt_floor(v * (SCALE as int) * (SCALE as int))
}

pub proof fn lemma_mul_bound(a: int, b: int, m: int, n: int)
    by (nonlinear_arith)
    requires
        -m <= a <= m,
        -n <= b <= n,
        0 <= m,
        0 <= n,
    ensures
        -(m * n) <= a * b <= m * n,
{
}

pub proof fn lemma_square_nonneg(a: int)
    ensures
        scaled_mul(a, a) >= 0,
{
    assert(a * a >= 0) by (nonlinear_arith);
}

pub proof fn lemma_scaled_mul_nonneg(a: int, b: int)
    requires
        a >= 0,
        b >= 0,
    ensures
        scaled_mul(a, b) >= 0,
{
    lemma_mul_nonneg(a, b);
}

pub proof fn lemma_mul_nonneg(a: int, b: int)
    by (nonlinear_arith)
    requires
        0 <= a,
        0 <= b,
    ensures
        0 <= a * b,
{
}

proof fn lemma_cube_fits(s: int, a: int)
    by (nonlinear_arith)
    requires
        0 <= a,
        a <= 0x400_0000_0000,
        0 <= s,
        s <= 0x400_0000_0000 * 0x400_0000_0000,
    ensures
        0 <= s * a,
        s * a <= 0x4000_0000_0000_0000_0000_0000_0000_0000,
{
}

proof fn lemma_negated_decomposition(q: int, m: int, r: int, x: int)
    by (nonlinear_arith)
    requires
        m > 0,
        0 <= r < m,
        -x == m * q + r,
    ensures
        r == 0 ==> x == (-q) * m + 0,
        r != 0 ==> x == (-q - 1) * m + (m - r),
{
}

/// Negating an integer reflects its euclidean remainder: for a positive
/// modulus, the remainders of `d` and `-d` are either both zero or sum to
/// the modulus.
pub proof fn lemma_mod_negation(d: int, m: int)
    requires
        m > 0,
    ensures
        d % m == 0 ==> (-d) % m == 0,
        d % m != 0 ==> (-d) % m == m - (d % m),
{
    vstd::arithmetic::div_mod::lemma_fundamental_div_mod(d, m);
    let q = d / m;
    let r = d % m;
    lemma_negated_decomposition(q, m, r, -d);
    if r == 0 {
        vstd::arithmetic::div_mod::lemma_fundamental_div_mod_converse_mod(-d, m, -q, 0);
    } else {
        vstd::arithmetic::div_mod::lemma_fundamental_div_mod_converse_mod(-d, m, -q - 1, m - r);
    }
}

proof fn lemma_sqrt_unique(x: int, a: int, b: int)
    by (nonlinear_arith)
    requires
        0 <= a,
        a * a <= x,
        x < (a + 1) * (a + 1),
        0 <= b,
        b * b <= x,
        x < (b + 1) * (b + 1),
    ensures
        a == b,
{
}

proof fn lemma_cbrt_unique(x: int, a: int, b: int)
    by (nonlinear_arith)
    requires
        0 <= a,
        a * a * a <= x,
        x < (a + 1) * (a + 1) * (a + 1),
        0 <= b,
        b * b * b <= x,
        x < (b + 1) * (b + 1) * (b + 1),
    ensures
        a == b,
{
}

pub proof fn lemma_sqrt_floor_is(x: int, r: int)
    requires
        0 <= r,
        r * r <= x,
        x < (r + 1) * (r + 1),
    ensures
        sqrt_floor(x) == r,
{
    assert(0 <= r && #[trigger] (r * r) <= x && x < (r + 1) * (r + 1));
    let q = sqrt_floor(x);
    assert(0 <= q && q * q <= x && x < (q + 1) * (q + 1)) by {
        assert(exists|c: int| 0 <= c && #[trigger] (c * c) <= x && x < (c + 1) * (c + 1));
    }
    lemma_sqrt_unique(x, q, r);
}

pub proof fn lemma_cbrt_floor_is(x: int, r: int)
    requires
        0 <= r,
        r * r * r <= x,
        x < (r + 1) * (r + 1) * (r + 1),
    ensures
        cbrt_floor(x) == r,
{
    assert(0 <= r && #[trigger] (r * r * r) <= x && x < (r + 1) * (r + 1) * (r + 1));
    let q = cbrt_floor(x);
    assert(0 <= q && q * q * q <= x && x < (q + 1) * (q + 1) * (q + 1)) by {
        assert(exists|c: int|
            0 <= c && #[trigger] (c * c * c) <= x && x < (c + 1) * (c + 1) * (c + 1));
    }
    lemma_cbrt_unique(x, q, r);
}

/// Saturate an `i128` intermediate down to the `i64` range.
fn clamp128(s: i128) -> (r: i64)
    ensures
        r as int == sat64(s as int),
{
    if s > i64::MAX as i128 {
        i64::MAX
    } else if s < i64::MIN as i128 {
        i64::MIN
    } else {
        s as i64
    }
}

/// Saturate a magnitude-and-sign quotient down to the `i64` range.
fn clamp_mag(q: u128, neg: bool) -> (r: i64)
    ensures
        r as int == sat64(
            if neg {
                -(q as int)
            } else {
                q as int
            },
        ),
{
    if neg {
        if q >= 0x8000_0000_0000_0000u128 {
            i64::MIN
        } else {
            -(q as i64)
        }
    } else {
        if q > i64::MAX as u128 {
            i64::MAX
        } else {
            q as i64
        }
    }
}

/// Quotient of an `i128` by a positive divisor, rounded toward zero,
/// saturated to `i64`.
fn scale_quot(p: i128, d: u64) -> (r: i64)
    requires
        p as int > i128::MIN as int,
        d > 0,
    ensures
        r as int == sat64(quot0(p as int, d as int)),
{
    let neg = p < 0;
    let magp: u128 = if neg {
        (-p) as u128
    } else {
        p as u128
    };
    assert(magp as int == mag(p as int));
    let q: u128 = magp / (d as u128);
    assert(q as int == mag(p as int) / (d as int));
    clamp_mag(q, neg)
}

impl Fixed {
    /// Saturating sum.
    pub fn add(self, rhs: Fixed) -> (r: Fixed)
        ensures
            r@ == sat64(self@ + rhs@),
    {
        let s: i128 = self.0 as i128 + rhs.0 as i128;
        Fixed(clamp128(s))
    }

    /// Saturating difference.
    pub fn sub(self, rhs: Fixed) -> (r: Fixed)
        ensures
            r@ == sat64(self@ - rhs@),
    {
        let s: i128 = self.0 as i128 - rhs.0 as i128;
        Fixed(clamp128(s))
    }

    /// Saturating negation.
    pub fn neg(self) -> (r: Fixed)
        ensures
            r@ == sat64(-self@),
    {
        let s: i128 = -(self.0 as i128);
        Fixed(clamp128(s))
    }

    /// Saturating magnitude.
    pub fn abs(self) -> (r: Fixed)
        ensures
            r@ == sat64(mag(self@)),
    {
        if self.0 < 0 {
            self.neg()
        } else {
            self
        }
    }

    /// Product in micro-units, rounded toward zero, saturating.
    pub fn mul(self, rhs: Fixed) -> (r: Fixed)
        ensures
            r@ == scaled_mul(self@, rhs@),
    {
        proof {
            lemma_mul_bound(
                self@,
                rhs@,
                0x8000_0000_0000_0000,
                0x8000_0000_0000_0000,
            );
        }
        let p: i128 = (self.0 as i128) * (rhs.0 as i128);
        Fixed(scale_quot(p, SCALE as u64))
    }

    /// Quotient in micro-units, rounded toward zero, saturating.
    pub fn div(self, rhs: Fixed) -> (r: Fixed)
        requires
            rhs@ != 0,
        ensures
            r@ == scaled_div(self@, rhs@),
    {
        proof {
            lemma_mul_bound(self@, SCALE as int, 0x8000_0000_0000_0000, 0x10_0000);
        }
        let p: i128 = (self.0 as i128) * (SCALE as i128);
        let neg = (p < 0) != (rhs.0 < 0);
        let magp: u128 = if p < 0 {
            (-p) as u128
        } else {
            p as u128
        };
        let magd: u128 = if rhs.0 < 0 {
            (-(rhs.0 as i128)) as u128
        } else {
            rhs.0 as u128
        };
        assert(magp as int == mag(self@ * (SCALE as int)));
        assert(magd as int == mag(rhs@));
        let q: u128 = magp / magd;
        assert(q as int == mag(self@ * (SCALE as int)) / mag(rhs@));
        Fixed(clamp_mag(q, neg))
    }

    /// Square root in micro-units, rounded down.
    pub fn sqrt(self) -> (r: Fixed)
        requires
            self@ >= 0,
        ensures
            r@ == fixed_sqrt(self@),
            r@ >= 0,
    {
        proof {
            lemma_mul_bound(self@, SCALE as int, 0x8000_0000_0000_0000, 0x10_0000);
        }
        let x: u128 = (self.0 as u128) * (SCALE as u128);
        let root = isqrt_u128(x);
        proof {
            if root as int >= 0x4_0000_0000_0000 {
                lemma_mul_bound(1, 1, root as int, root as int);
                assert((root as int) * (root as int) >= 0x4_0000_0000_0000 * 0x4_0000_0000_0000)
                    by (nonlinear_arith)
                    requires
                        root as int >= 0x4_0000_0000_0000,
                ;
            }
            lemma_sqrt_floor_is(x as int, root as int);
        }
        Fixed(root as i64)
    }

    /// Cube root in micro-units, rounded down (non-negative input).
    pub fn cbrt(self) -> (r: Fixed)
        requires
            self@ >= 0,
        ensures
            r@ == fixed_cbrt(self@),
            r@ >= 0,
    {
        proof {
            lemma_mul_bound(self@, SCALE as int, 0x8000_0000_0000_0000, 0x10_0000);
        }
        let y: u128 = (self.0 as u128) * (SCALE as u128);
        let x: u128 = y * (SCALE as u128);
        let root = icbrt_u128(x);
        proof {
            if root as int >= 0x400_0000_0000 {
                assert((root as int) * (root as int) * (root as int) >= 0x400_0000_0000
                    * 0x400_0000_0000 * 0x400_0000_0000) by (nonlinear_arith)
                    requires
                        root as int >= 0x400_0000_0000,
                ;
            }
            lemma_cbrt_floor_is(x as int, root as int);
        }
        Fixed(root as i64)
    }

    /// Quotient by a small positive integer count (not micro-units),
    /// rounded toward zero.
    pub fn divn(self, d: u64) -> (r: Fixed)
        requires
            d > 0,
        ensures
            r@ == quot0(self@, d as int),
    {
        Fixed(scale_quot(self.0 as i128, d))
    }

    /// Euclidean remainder of the micro-unit count by a positive modulus:
    /// the result lies in `[0, m)`.
    pub fn rem_euclid(self, m: i64) -> (r: Fixed)
        requires
            m > 0,
        ensures
            r@ == self@ % (m as int),
            0 <= r@ < m as int,
    {
        Fixed(rem_euclid_i128(self.0 as i128, m))
    }

    /// Comparison on the underlying micro-unit count.
    pub fn lt(self, rhs: Fixed) -> (r: bool)
        ensures
            r == (self@ < rhs@),
    {
        self.0 < rhs.0
    }

    /// Comparison on the underlying micro-unit count.
    pub fn le(self, rhs: Fixed) -> (r: bool)
        ensures
            r == (self@ <= rhs@),
    {
        self.0 <= rhs.0
    }
}

/// Euclidean remainder of a wide intermediate by a positive modulus:
/// the result lies in `[0, m)`.
pub fn rem_euclid_i128(v: i128, m: i64) -> (r: i64)
    requires
        m > 0,
        v as int > i128::MIN as int,
    ensures
        r as int == (v as int) % (m as int),
        0 <= r as int && (r as int) < (m as int),
{
    if v >= 0 {
        ((v as u128) % (m as u128)) as i64
    } else {
        let n: i128 = -v;
        let rr: u128 = (n as u128) % (m as u128);
        proof {
            vstd::arithmetic::div_mod::lemma_fundamental_div_mod(n as int, m as int);
            let q = (n as int) / (m as int);
            assert(n as int == (m as int) * q + rr as int);
            lemma_negated_decomposition(q, m as int, rr as int, v as int);
            if rr as int == 0 {
                vstd::arithmetic::div_mod::lemma_fundamental_div_mod_converse_mod(
                    v as int,
                    m as int,
                    -q,
                    0,
                );
            } else {
                vstd::arithmetic::div_mod::lemma_fundamental_div_mod_converse_mod(
                    v as int,
                    m as int,
                    -q - 1,
                    m - rr as int,
                );
            }
        }
        if rr == 0 {
            0
        } else {
            m - (rr as i64)
        }
    }
}

/// Floor square root of an unsigned 128-bit integer below `2^84`.
fn isqrt_u128(x: u128) -> (r: u64)
    requires
        (x as int) < 0x10_0000_0000_0000_0000_0000,
    ensures
        (r as int) * (r as int) <= x as int,
        (x as int) < (r as int + 1) * (r as int + 1),
        r as int <= 0x4_0000_0000_0000,
{
    let mut lo: u64 = 0;
    let mut hi: u64 = 0x4_0000_0000_0000;
    while lo < hi
        invariant
            lo <= hi,
            hi <= 0x4_0000_0000_0000,
            (lo as int) * (lo as int) <= x as int,
            (x as int) < (hi as int + 1) * (hi as int + 1),
        decreases hi - lo,
    {
        let mid: u64 = lo + (hi - lo + 1) / 2;
        proof {
            lemma_mul_bound(mid as int, mid as int, 0x4_0000_0000_0000, 0x4_0000_0000_0000);
        }
        let sq: u128 = (mid as u128) * (mid as u128);
        if sq <= x {
            lo = mid;
        } else {
            hi = mid - 1;
        }
    }
    lo
}

/// Floor cube root of an unsigned 128-bit integer below `2^126`.
fn icbrt_u128(x: u128) -> (r: u64)
    requires
        (x as int) < 0x4000_0000_0000_0000_0000_0000_0000_0000,
    ensures
        (r as int) * (r as int) * (r as int) <= x as int,
        (x as int) < (r as int + 1) * (r as int + 1) * (r as int + 1),
        r as int <= 0x400_0000_0000,
{
    let mut lo: u64 = 0;
    let mut hi: u64 = 0x400_0000_0000;
    while lo < hi
        invariant
            lo <= hi,
            hi <= 0x400_0000_0000,
            (lo as int) * (lo as int) * (lo as int) <= x as int,
            (x as int) < (hi as int + 1) * (hi as int + 1) * (hi as int + 1),
        decreases hi - lo,
    {
        let mid: u64 = lo + (hi - lo + 1) / 2;
        let midw: u128 = mid as u128;
        proof {
            lemma_mul_bound(midw as int, midw as int, 0x400_0000_0000, 0x400_0000_0000);
            lemma_mul_nonneg(midw as int, midw as int);
        }
        let sq: u128 = midw * midw;
        proof {
            lemma_cube_fits(sq as int, midw as int);
        }
        let cube: u128 = sq * midw;
        if cube <= x {
            lo = mid;
        } else {
            hi = mid - 1;
        }
    }
    lo
}

} // verus!
