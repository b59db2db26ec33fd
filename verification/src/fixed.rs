//! Fixed-point representation shared by the solver and the scale
//! conversions.
//!
//! A fixed-point value is a machine integer standing for the real
//! number `v / SCALE`.  All quantities the verified core handles are
//! kept within `MAGNITUDE_LIMIT`, which corresponds to the real value
//! `1e6` — far beyond anything a rating update produces — and keeps
//! every intermediate product inside the range of the machine integers.

use vstd::prelude::*;

verus! {

/// One unit of the fixed-point representation is `1 / SCALE`.
pub const SCALE: i128 = 1_000_000_000_000;

/// Largest magnitude a fixed-point value handled by the verified core
/// may have.
pub const MAGNITUDE_LIMIT: i128 = 1_000_000_000_000_000_000;

/// Whether a fixed-point value is within the working range.
pub open spec fn in_range(x: int) -> bool {
    -MAGNITUDE_LIMIT <= x <= MAGNITUDE_LIMIT
}

/// Magnitude of an integer.
pub open spec fn mag(x: int) -> int {
    if x >= 0 {
        x
    } else {
        -x
    }
}

/// Quotient rounded toward zero, as machine division computes it.
pub open spec fn div_toward_zero(a: int, b: int) -> int {
    if a >= 0 {
        a / b
    } else {
        -((-a) / b)
    }
}

/// Half of an integer, rounded toward zero.
pub open spec fn half_toward_zero(x: int) -> int {
    if x >= 0 {
        x / 2
    } else {
        -((-x) / 2)
    }
}

/// Quotient of `a` by the positive divisor `b`, rounded toward zero.
pub fn quotient_toward_zero(a: i128, b: i128) -> (r: i128)
    requires
        0 < b,
        -i128::MAX <= a,
    ensures
        r == div_toward_zero(a as int, b as int),
{
    if a >= 0 {
        ((a as u128) / (b as u128)) as i128
    } else {
        -((((-a) as u128) / (b as u128)) as i128)
    }
}

/// Product of two fixed-point values, rounded toward zero: the
/// double-width product scaled back down by `SCALE`.  `None` exactly
/// when a factor lies outside the working range.
pub fn scaled_product(a: i128, b: i128) -> (r: Option<i128>)
    ensures
        r is Some <==> (in_range(a as int) && in_range(b as int)),
        match r {
            Some(v) => v == div_toward_zero(a * b, SCALE as int),
            None => true,
        },
{
    if -MAGNITUDE_LIMIT <= a && a <= MAGNITUDE_LIMIT && -MAGNITUDE_LIMIT <= b
        && b <= MAGNITUDE_LIMIT
    {
        let mag_a: u128 = if a >= 0 {
            a as u128
        } else {
            (-a) as u128
        };
        let mag_b: u128 = if b >= 0 {
            b as u128
        } else {
            (-b) as u128
        };
        assert(mag_a * mag_b <= (MAGNITUDE_LIMIT as int) * (MAGNITUDE_LIMIT as int))
            by (nonlinear_arith)
            requires
                0 <= mag_a <= MAGNITUDE_LIMIT as int,
                0 <= mag_b <= MAGNITUDE_LIMIT as int,
        ;
        assert(mag_a * mag_b == mag(a * b)) by (nonlinear_arith)
            requires
                mag_a == mag(a as int),
                mag_b == mag(b as int),
        ;
        let q: u128 = (mag_a * mag_b) / (SCALE as u128);
        let qi: i128 = q as i128;
        proof {
            if a * b >= 0 {
                assert(mag(a * b) == a * b);
            }
        }
        if (a < 0) == (b < 0) {
            assert(a * b >= 0) by (nonlinear_arith)
                requires
                    (a < 0) == (b < 0),
            ;
            Some(qi)
        } else {
            assert(a * b <= 0) by (nonlinear_arith)
                requires
                    (a < 0) != (b < 0),
            ;
            Some(-qi)
        }
    } else {
        None
    }
}

/// Half of a fixed-point value, rounded toward zero.
pub fn half(x: i128) -> (r: i128)
    requires
        in_range(x as int),
    ensures
        r == half_toward_zero(x as int),
        in_range(r as int),
{
    if x >= 0 {
        ((x as u128) / 2) as i128
    } else {
        -((((-x) as u128) / 2) as i128)
    }
}

} // verus!
