//! Conversion between the conventional 1500-centred rating scale and
//! the internal scale.
//!
//! A conventional rating `r` corresponds to the internal rating
//! `(r - 1500) / 173.7178`, and a conventional deviation `d` to the
//! internal deviation `d / 173.7178`; volatility is scale-invariant.
//! The scale unit `173.7178` is the exact rational
//! `GLICKO_UNIT_NUM / GLICKO_UNIT_DEN`, so on fixed-point values both
//! directions are exact integer arithmetic up to the final rounding
//! toward zero, and a conversion followed by its inverse is proved to
//! return within `ROUND_TRIP_SLACK` fixed-point units (less than
//! `2e-10` on the real scale) of where it started.

use vstd::prelude::*;

use vstd::arithmetic::div_mod::lemma_div_is_ordered;
use vstd::arithmetic::div_mod::lemma_div_multiples_vanish;
use vstd::arithmetic::div_mod::lemma_fundamental_div_mod;

use crate::fixed::div_toward_zero;
use crate::fixed::in_range;
use crate::fixed::mag;
use crate::fixed::quotient_toward_zero;
use crate::fixed::MAGNITUDE_LIMIT;

verus! {

/// Numerator of the scale unit `173.7178`.
pub const GLICKO_UNIT_NUM: i128 = 1_737_178;

/// Denominator of the scale unit `173.7178`.
pub const GLICKO_UNIT_DEN: i128 = 10_000;

/// The conventional-scale origin, 1500, in fixed-point units.
pub const CONVENTIONAL_ORIGIN_FIXED: i128 = 1_500_000_000_000_000;

/// Largest distance, in fixed-point units, between a value and the
/// result of converting it to the other scale and back.
pub const ROUND_TRIP_SLACK: i128 = 174;

/// A conventional-scale distance (a deviation, or a rating's distance
/// from the origin) on the internal scale: division by the scale unit,
/// rounded toward zero.
pub open spec fn to_internal_units(c: int) -> int {
    div_toward_zero(c * GLICKO_UNIT_DEN, GLICKO_UNIT_NUM as int)
}

/// An internal-scale distance on the conventional scale:
/// multiplication by the scale unit, rounded toward zero.
pub open spec fn to_conventional_units(i: int) -> int {
    div_toward_zero(i * GLICKO_UNIT_NUM, GLICKO_UNIT_DEN as int)
}

/// A conventional rating on the internal scale: distance from the
/// origin, divided by the scale unit.
pub open spec fn spec_rating_to_internal(c: int) -> int {
    to_internal_units(c - CONVENTIONAL_ORIGIN_FIXED)
}

/// An internal rating on the conventional scale: multiplied by the
/// scale unit, then moved to the origin.
pub open spec fn spec_rating_to_conventional(i: int) -> int {
    to_conventional_units(i) + CONVENTIONAL_ORIGIN_FIXED
}

/// A conventional deviation on the internal scale.  `None` exactly
/// when the input is outside the working range.
pub fn deviation_to_internal(conventional: i128) -> (r: Option<i128>)
    ensures
        r is Some <==> in_range(conventional as int),
        match r {
            Some(v) => v == to_internal_units(conventional as int) && in_range(v as int),
            None => true,
        },
{
    if -MAGNITUDE_LIMIT <= conventional && conventional <= MAGNITUDE_LIMIT {
        let scaled: i128 = conventional * GLICKO_UNIT_DEN;
        Some(quotient_toward_zero(scaled, GLICKO_UNIT_NUM))
    } else {
        None
    }
}

/// An internal deviation on the conventional scale.  `None` exactly
/// when the input is outside the working range.
pub fn deviation_to_conventional(internal: i128) -> (r: Option<i128>)
    ensures
        r is Some <==> in_range(internal as int),
        match r {
            Some(v) => v == to_conventional_units(internal as int),
            None => true,
        },
{
    if -MAGNITUDE_LIMIT <= internal && internal <= MAGNITUDE_LIMIT {
        let scaled: i128 = internal * GLICKO_UNIT_NUM;
        Some(quotient_toward_zero(scaled, GLICKO_UNIT_DEN))
    } else {
        None
    }
}

/// A conventional rating on the internal scale.  `None` exactly when
/// the input is outside the working range.
pub fn rating_to_internal(conventional: i128) -> (r: Option<i128>)
    ensures
        r is Some <==> in_range(conventional as int),
        match r {
            Some(v) => v == spec_rating_to_internal(conventional as int) && in_range(v as int),
            None => true,
        },
{
    if -MAGNITUDE_LIMIT <= conventional && conventional <= MAGNITUDE_LIMIT {
        let centred: i128 = conventional - CONVENTIONAL_ORIGIN_FIXED;
        let scaled: i128 = centred * GLICKO_UNIT_DEN;
        Some(quotient_toward_zero(scaled, GLICKO_UNIT_NUM))
    } else {
        None
    }
}

/// An internal rating on the conventional scale.  `None` exactly when
/// the input is outside the working range.
pub fn rating_to_conventional(internal: i128) -> (r: Option<i128>)
    ensures
        r is Some <==> in_range(internal as int),
        match r {
            Some(v) => v == spec_rating_to_conventional(internal as int),
            None => true,
        },
{
    if -MAGNITUDE_LIMIT <= internal && internal <= MAGNITUDE_LIMIT {
        let scaled: i128 = internal * GLICKO_UNIT_NUM;
        Some(quotient_toward_zero(scaled, GLICKO_UNIT_DEN) + CONVENTIONAL_ORIGIN_FIXED)
    } else {
        None
    }
}

/// Round trip of a non-negative distance: dividing by the scale unit
/// and multiplying back loses at most the slack, and never overshoots.
proof fn lemma_unit_round_trip_nonneg(x: int)
    requires
        0 <= x,
    ensures
        x - ROUND_TRIP_SLACK <= to_conventional_units(to_internal_units(x)) <= x,
{
    let n: int = GLICKO_UNIT_NUM as int;
    let d: int = GLICKO_UNIT_DEN as int;
    let i: int = (x * d) / n;
    let rem: int = (x * d) % n;
    lemma_fundamental_div_mod(x * d, n);
    assert(i * n == x * d - rem);
    assert(to_internal_units(x) == i);
    let r: int = (i * n) / d;
    assert(0 <= i) by (nonlinear_arith)
        requires
            0 <= x * d,
            0 < n,
            i == (x * d) / n,
    ;
    assert(to_conventional_units(i) == r);
    // never overshoots: i * n <= x * d, so r <= (x * d) / d == x
    lemma_div_is_ordered(i * n, x * d, d);
    lemma_div_multiples_vanish(x, d);
    assert(d * x == x * d);
    assert(r <= x);
    // loses at most the slack: rem < n <= slack * d
    assert((x - ROUND_TRIP_SLACK) * d <= i * n);
    lemma_div_is_ordered((x - ROUND_TRIP_SLACK) * d, i * n, d);
    lemma_div_multiples_vanish(x - ROUND_TRIP_SLACK, d);
    assert(d * (x - ROUND_TRIP_SLACK) == (x - ROUND_TRIP_SLACK) * d);
    assert(x - ROUND_TRIP_SLACK <= r);
}

/// Round trip of any distance: converting to the internal scale and
/// back lands within the slack of the starting value.
pub proof fn lemma_unit_round_trip(x: int)
    ensures
        mag(to_conventional_units(to_internal_units(x)) - x) <= ROUND_TRIP_SLACK,
{
    if x >= 0 {
        lemma_unit_round_trip_nonneg(x);
    } else {
        lemma_unit_round_trip_nonneg(-x);
        let n: int = GLICKO_UNIT_NUM as int;
        let d: int = GLICKO_UNIT_DEN as int;
        assert(to_internal_units(x) == -to_internal_units(-x)) by {
            assert(x * d < 0) by (nonlinear_arith)
                requires
                    x < 0,
                    0 < d,
            ;
            assert(-(x * d) == (-x) * d);
        }
        let ip: int = to_internal_units(-x);
        assert(0 <= ip) by {
            assert(0 <= ((-x) * d)) by (nonlinear_arith)
                requires
                    0 <= -x,
                    0 <= d,
            ;
        }
        assert(to_conventional_units(-ip) == -to_conventional_units(ip)) by {
            if ip == 0 {
            } else {
                assert((-ip) * n < 0) by (nonlinear_arith)
                    requires
                        0 < ip,
                        0 < n,
                ;
                assert(-((-ip) * n) == ip * n);
            }
        }
    }
}

/// Scale round trip for a rating: converting a conventional rating to
/// the internal scale and reading it back lands within the slack —
/// less than `2e-10` conventional points — of the starting value.
pub proof fn lemma_rating_round_trip(c: int)
    ensures
        mag(spec_rating_to_conventional(spec_rating_to_internal(c)) - c) <= ROUND_TRIP_SLACK,
{
    lemma_unit_round_trip(c - CONVENTIONAL_ORIGIN_FIXED);
}

/// Scale round trip for a deviation: converting a conventional
/// deviation to the internal scale and reading it back lands within
/// the slack of the starting value.
pub proof fn lemma_deviation_round_trip(c: int)
    ensures
        mag(to_conventional_units(to_internal_units(c)) - c) <= ROUND_TRIP_SLACK,
{
    lemma_unit_round_trip(c);
}

} // verus!
