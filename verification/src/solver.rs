//! Discrete core of the volatility root-finder.
//!
//! The new volatility solves a transcendental equation `f(x) = 0`.  The
//! root is found by a bounded secant iteration (the Illinois variant of
//! regula falsi): a bracket of two trial points is kept together with
//! the value of `f` at each, a secant step proposes a candidate, and the
//! bracket is rebuilt around it, halving a retained function value when
//! the same endpoint persists.  Evaluating `f` itself needs `exp` and
//! `ln` and stays with the caller; everything the iteration *decides* —
//! the secant candidate, the rebracketing rule, the convergence test,
//! the probe points of the initial bracket search — is verified here on
//! fixed-point values.
//!
//! A fixed-point value represents the real number `v / SCALE`.

use vstd::prelude::*;

use crate::fixed::half;
use crate::fixed::half_toward_zero;
use crate::fixed::in_range;
use crate::fixed::mag;
use crate::fixed::MAGNITUDE_LIMIT;

verus! {

/// Convergence tolerance of the iteration, `1e-8`, in fixed-point units.
pub const CONVERGENCE_TOLERANCE_FIXED: i128 = 10_000;

/// The system constant `tau = 0.9`, in fixed-point units.  It sets the
/// spacing of the probe points in the initial bracket search.
pub const SYSTEM_CONSTANT_FIXED: i128 = 900_000_000_000;

/// Size of the secant step away from `end_a`, toward `end_b`: the
/// distance between the trial points, scaled by the share of `f_a` in
/// the total magnitude of the two function values, rounded down.
pub open spec fn secant_offset(end_a: int, end_b: int, f_a: int, f_b: int) -> int {
    (mag(end_a - end_b) * mag(f_a)) / (mag(f_a) + mag(f_b))
}

/// The secant candidate: `end_a` moved toward `end_b` by the secant
/// offset.  When the two function values have opposite signs this is
/// the regula-falsi point `end_a + (end_a - end_b) * f_a / (f_b - f_a)`
/// of the bracket, rounded toward `end_a`.
pub open spec fn secant_point(end_a: int, end_b: int, f_a: int, f_b: int) -> int {
    if end_a >= end_b {
        end_a - secant_offset(end_a, end_b, f_a, f_b)
    } else {
        end_a + secant_offset(end_a, end_b, f_a, f_b)
    }
}

/// A secant bracket: two trial points with the value of `f` at each.
/// `end_a` is the retained endpoint — the root estimate the iteration
/// reports on convergence — and `end_b` the most recent trial point.
#[derive(Clone, Copy, PartialEq, Eq, Structural, Debug)]
pub struct Bracket {
    pub end_a: i128,
    pub end_b: i128,
    pub f_a: i128,
    pub f_b: i128,
}

impl Bracket {
    /// All four components are within the solver's working range.
    pub open spec fn wf(self) -> bool {
        &&& in_range(self.end_a as int)
        &&& in_range(self.end_b as int)
        &&& in_range(self.f_a as int)
        &&& in_range(self.f_b as int)
    }

    /// Builds a bracket from two trial points and their function
    /// values; rejects any component outside the working range.
    pub fn new(end_a: i128, end_b: i128, f_a: i128, f_b: i128) -> (r: Option<Bracket>)
        ensures
            r is Some <==> (in_range(end_a as int) && in_range(end_b as int)
                && in_range(f_a as int) && in_range(f_b as int)),
            match r {
                Some(b) => b == (Bracket { end_a, end_b, f_a, f_b }) && b.wf(),
                None => true,
            },
    {
        if -MAGNITUDE_LIMIT <= end_a && end_a <= MAGNITUDE_LIMIT
            && -MAGNITUDE_LIMIT <= end_b && end_b <= MAGNITUDE_LIMIT
            && -MAGNITUDE_LIMIT <= f_a && f_a <= MAGNITUDE_LIMIT
            && -MAGNITUDE_LIMIT <= f_b && f_b <= MAGNITUDE_LIMIT
        {
            Some(Bracket { end_a, end_b, f_a, f_b })
        } else {
            None
        }
    }

    /// Whether the two trial points are within the convergence
    /// tolerance of one another; the iteration stops exactly then.
    pub fn converged(&self) -> (r: bool)
        requires
            self.wf(),
        ensures
            r <==> mag(self.end_b - self.end_a) <= CONVERGENCE_TOLERANCE_FIXED,
    {
        let d: i128 = if self.end_b >= self.end_a {
            self.end_b - self.end_a
        } else {
            self.end_a - self.end_b
        };
        d <= CONVERGENCE_TOLERANCE_FIXED
    }

    /// The next trial point proposed by the secant step, which always
    /// lies between the two current trial points.  `None` exactly when
    /// both function values are zero, where the secant direction is
    /// undefined (the caller already holds a root then).
    pub fn secant_candidate(&self) -> (r: Option<i128>)
        requires
            self.wf(),
        ensures
            r is Some <==> !(self.f_a == 0 && self.f_b == 0),
            match r {
                Some(c) => {
                    &&& c == secant_point(
                        self.end_a as int, self.end_b as int,
                        self.f_a as int, self.f_b as int)
                    &&& in_range(c as int)
                    &&& (self.end_a <= c || self.end_b <= c)
                    &&& (c <= self.end_a || c <= self.end_b)
                },
                None => self.f_a == 0 && self.f_b == 0,
            },
    {
        if self.f_a == 0 && self.f_b == 0 {
            return None;
        }
        let dist: u128 = if self.end_a >= self.end_b {
            (self.end_a - self.end_b) as u128
        } else {
            (self.end_b - self.end_a) as u128
        };
        let mag_a: u128 = if self.f_a >= 0 {
            self.f_a as u128
        } else {
            (-self.f_a) as u128
        };
        let mag_b: u128 = if self.f_b >= 0 {
            self.f_b as u128
        } else {
            (-self.f_b) as u128
        };
        assert(dist == mag(self.end_a - self.end_b));
        assert(mag_a == mag(self.f_a as int));
        assert(mag_b == mag(self.f_b as int));
        assert(dist * mag_a <= 2 * (MAGNITUDE_LIMIT as int) * (MAGNITUDE_LIMIT as int))
            by (nonlinear_arith)
            requires
                0 <= dist <= 2 * (MAGNITUDE_LIMIT as int),
                0 <= mag_a <= MAGNITUDE_LIMIT as int,
        ;
        let num: u128 = dist * mag_a;
        let den: u128 = mag_a + mag_b;
        let q: u128 = num / den;
        assert(q <= dist) by (nonlinear_arith)
            requires
                q == (dist * mag_a) / (den as int),
                den == mag_a + mag_b,
                0 < den,
                mag_a <= den,
                0 <= dist,
        ;
        let qi: i128 = q as i128;
        assert(qi == secant_offset(
            self.end_a as int, self.end_b as int, self.f_a as int, self.f_b as int));
        let c: i128 = if self.end_a >= self.end_b {
            self.end_a - qi
        } else {
            self.end_a + qi
        };
        Some(c)
    }

    /// How one Illinois step rebuilds the bracket around a candidate
    /// `c` with function value `f_c`.  When `f_c` and `f_b` have
    /// opposite signs the root lies between the last two trial points,
    /// so `end_b` becomes the retained endpoint; otherwise the retained
    /// endpoint persists and its function value is halved, which is
    /// what keeps a stale endpoint from freezing the iteration.  In
    /// both cases the candidate becomes the new trial point `end_b`.
    pub open spec fn advance_rel(self, c: i128, f_c: i128, next: Bracket) -> bool {
        &&& next.end_b == c
        &&& next.f_b == f_c
        &&& (self.f_b * f_c < 0 ==> next.end_a == self.end_b && next.f_a == self.f_b)
        &&& (self.f_b * f_c >= 0 ==> next.end_a == self.end_a
            && next.f_a == half_toward_zero(self.f_a as int))
    }

    /// One Illinois rebracketing step.  `None` exactly when the
    /// candidate or its function value lies outside the working range.
    pub fn advance(&self, c: i128, f_c: i128) -> (r: Option<Bracket>)
        requires
            self.wf(),
        ensures
            r is Some <==> (in_range(c as int) && in_range(f_c as int)),
            match r {
                Some(next) => self.advance_rel(c, f_c, next) && next.wf(),
                None => !(in_range(c as int) && in_range(f_c as int)),
            },
    {
        if !(-MAGNITUDE_LIMIT <= c && c <= MAGNITUDE_LIMIT
            && -MAGNITUDE_LIMIT <= f_c && f_c <= MAGNITUDE_LIMIT)
        {
            return None;
        }
        let opposite: bool = (f_c < 0 && self.f_b > 0) || (f_c > 0 && self.f_b < 0);
        assert(((f_c < 0 && self.f_b > 0) || (f_c > 0 && self.f_b < 0))
            <==> self.f_b * f_c < 0) by (nonlinear_arith);
        if opposite {
            Some(Bracket { end_a: self.end_b, end_b: c, f_a: self.f_b, f_b: f_c })
        } else {
            Some(Bracket { end_a: self.end_a, end_b: c, f_a: half(self.f_a), f_b: f_c })
        }
    }
}

/// Probe point of the initial bracket search: the starting point
/// lowered by `k` steps of the system constant.  While the iteration
/// function is still negative at the probe, the search walks further
/// down one step at a time (`bracket_search_stops` decides when it
/// ends).  `None` exactly when the probe would leave the working
/// range.
pub fn bracket_probe(start: i128, k: u32) -> (r: Option<i128>)
    requires
        in_range(start as int),
    ensures
        r is Some <==> in_range(start - k * SYSTEM_CONSTANT_FIXED),
        match r {
            Some(v) => v == start - k * SYSTEM_CONSTANT_FIXED,
            None => true,
        },
{
    let step: i128 = (k as i128) * SYSTEM_CONSTANT_FIXED;
    let v: i128 = start - step;
    if -MAGNITUDE_LIMIT <= v {
        Some(v)
    } else {
        None
    }
}

/// One step of the initial bracket search: given the fixed-point
/// value of `f` at the probe `start - k * tau`, the search stops — the
/// probe becomes the endpoint `end_b` — exactly when that value is no
/// longer negative, so that `f` changes sign across the initial
/// bracket (`f` at the starting point is negative in the branch that
/// searches).
pub fn bracket_search_stops(f_probe: i128) -> (r: bool)
    ensures
        r <==> f_probe >= 0,
{
    f_probe >= 0
}

/// The secant step is the classical regula-falsi step: whenever the
/// two function values of the bracket have strictly opposite signs,
/// the secant offset equals the magnitude of the displacement
/// `(end_a - end_b) * f_a / (f_b - f_a)` of the false-position rule,
/// rounded down.
pub proof fn lemma_secant_offset_is_regula_falsi(end_a: int, end_b: int, f_a: int, f_b: int)
    requires
        f_a * f_b < 0,
    ensures
        secant_offset(end_a, end_b, f_a, f_b) == mag((end_a - end_b) * f_a) / mag(f_b - f_a),
{
    assert(mag(f_b - f_a) == mag(f_a) + mag(f_b)) by (nonlinear_arith)
        requires
            f_a * f_b < 0,
    ;
    assert(mag((end_a - end_b) * f_a) == mag(end_a - end_b) * mag(f_a)) by (nonlinear_arith);
}

/// An Illinois step never loses the root: when the two function values
/// of a bracket have strictly opposite signs, the values of the bracket
/// it rebuilds still have opposite signs in the weak sense.  (Equality
/// with zero can arise, exactly when the step lands on a root or halves
/// a retained value down to zero.)
pub proof fn lemma_advance_keeps_sign_change(b: Bracket, c: i128, f_c: i128, next: Bracket)
    requires
        b.advance_rel(c, f_c, next),
        b.f_a * b.f_b < 0,
    ensures
        next.f_a * next.f_b <= 0,
{
    if b.f_b * f_c < 0 {
        assert(next.f_a * next.f_b < 0);
    } else {
        let h: int = half_toward_zero(b.f_a as int);
        assert(b.f_a >= 0 ==> 0 <= h <= b.f_a);
        assert(b.f_a < 0 ==> b.f_a <= h <= 0);
        assert(h * f_c <= 0) by (nonlinear_arith)
            requires
                b.f_a * b.f_b < 0,
                b.f_b * f_c >= 0,
                b.f_a >= 0 ==> 0 <= h <= b.f_a,
                b.f_a < 0 ==> b.f_a <= h <= 0,
        ;
    }
}

/// An Illinois step never widens the bracket: as long as the candidate
/// lies between the two current trial points — and the secant candidate
/// always does — the distance between the rebuilt trial points is at
/// most the distance between the old ones.
pub proof fn lemma_advance_narrows(b: Bracket, c: i128, f_c: i128, next: Bracket)
    requires
        b.advance_rel(c, f_c, next),
        b.end_a <= c || b.end_b <= c,
        c <= b.end_a || c <= b.end_b,
    ensures
        mag(next.end_b - next.end_a) <= mag(b.end_b - b.end_a),
{
}

} // verus!
