//! Finalization of the rating-period update, on squared deviations.
//!
//! After the new volatility is found, the update inflates the prior
//! deviation, `phi_star^2 = phi^2 + sigma'^2`, and then shrinks it with
//! the estimated variance, `phi'^2 = 1 / (1/phi_star^2 + 1/V)`.  On
//! squared quantities the second formula is the exact rational
//! `phi_star^2 * V / (phi_star^2 + V)`, so both steps are plain integer
//! arithmetic on fixed-point values and are verified here, together
//! with the shrinking law: one period of play never increases the
//! squared deviation above its pre-period inflated value.  Taking the
//! square roots stays with the caller.

use vstd::prelude::*;

use vstd::arithmetic::div_mod::lemma_div_is_ordered;
use vstd::arithmetic::div_mod::lemma_div_multiples_vanish_fancy;

use crate::fixed::in_range;
use crate::fixed::MAGNITUDE_LIMIT;

verus! {

/// The pre-period squared deviation: the prior squared deviation
/// inflated by the new squared volatility.  `None` exactly when either
/// input fails the positivity invariant or the sum leaves the working
/// range.
pub fn pre_period_deviation_squared(phi_sq: i128, sigma_sq: i128) -> (r: Option<i128>)
    ensures
        r is Some <==> (0 < phi_sq && 0 < sigma_sq && phi_sq + sigma_sq <= MAGNITUDE_LIMIT),
        match r {
            Some(v) => v == phi_sq + sigma_sq && 0 < v && in_range(v as int),
            None => true,
        },
{
    if 0 < phi_sq && 0 < sigma_sq && phi_sq <= MAGNITUDE_LIMIT - sigma_sq {
        Some(phi_sq + sigma_sq)
    } else {
        None
    }
}

/// The squared deviation after the period:
/// `pre_period_sq * variance / (pre_period_sq + variance)`, rounded
/// down — the exact square of `1 / sqrt(1/phi_star^2 + 1/V)`.  `None`
/// exactly when an input fails the positivity invariant or leaves the
/// working range.
///
/// The result is strictly below `pre_period_sq` and at most
/// `variance`: playing a period never increases the uncertainty above
/// its pre-period inflated value, however the games went.  It stays
/// positive whenever both inputs sit above the representation floor of
/// one fixed-point unit, preserving the positivity invariant of a
/// deviation.
pub fn deviation_squared_after_period(pre_period_sq: i128, variance: i128) -> (r: Option<i128>)
    ensures
        r is Some <==> (0 < pre_period_sq <= MAGNITUDE_LIMIT && 0 < variance
            <= MAGNITUDE_LIMIT),
        match r {
            Some(v) => {
                &&& v == (pre_period_sq * variance) / (pre_period_sq + variance)
                &&& 0 <= v < pre_period_sq
                &&& v <= variance
                &&& (2 <= pre_period_sq && 2 <= variance ==> 1 <= v)
            },
            None => true,
        },
{
    if 0 < pre_period_sq && pre_period_sq <= MAGNITUDE_LIMIT && 0 < variance
        && variance <= MAGNITUDE_LIMIT
    {
        assert((pre_period_sq as u128) * (variance as u128)
            <= (MAGNITUDE_LIMIT as int) * (MAGNITUDE_LIMIT as int)) by (nonlinear_arith)
            requires
                0 <= pre_period_sq as u128 <= MAGNITUDE_LIMIT as int,
                0 <= variance as u128 <= MAGNITUDE_LIMIT as int,
        ;
        let num: u128 = (pre_period_sq as u128) * (variance as u128);
        let den: u128 = (pre_period_sq as u128) + (variance as u128);
        assert(num == pre_period_sq * variance) by (nonlinear_arith)
            requires
                num == (pre_period_sq as u128) * (variance as u128),
                pre_period_sq as u128 == pre_period_sq as int,
                variance as u128 == variance as int,
        ;
        let q: u128 = num / den;
        proof {
            let p = pre_period_sq as int;
            let w = variance as int;
            let d = p + w;
            // strictly below the pre-period value: the numerator falls
            // short of p * d by p * p > 0
            assert(p * w <= d * (p - 1) + (d - 1)) by (nonlinear_arith)
                requires
                    0 < p,
                    0 < w,
                    d == p + w,
            ;
            lemma_div_is_ordered(p * w, d * (p - 1) + (d - 1), d);
            lemma_div_multiples_vanish_fancy(p - 1, d - 1, d);
            // at most the variance: the numerator is bounded by w * d
            assert(p * w <= d * w) by (nonlinear_arith)
                requires
                    0 < p,
                    0 <= w,
                    d == p + w,
            ;
            lemma_div_is_ordered(p * w, d * w, d);
            lemma_div_multiples_vanish_fancy(w, 0, d);
            // positive above the representation floor: the numerator
            // reaches the denominator once both inputs are at least 2
            if 2 <= p && 2 <= w {
                assert(d <= p * w) by (nonlinear_arith)
                    requires
                        2 <= p,
                        2 <= w,
                        d == p + w,
                ;
                lemma_div_is_ordered(d, p * w, d);
                lemma_div_multiples_vanish_fancy(1, 0, d);
            }
        }
        Some(q as i128)
    } else {
        None
    }
}

} // verus!
