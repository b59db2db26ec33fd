//! End-to-end rating updates: the real-valued Glicko-2 formulas are
//! evaluated here in floating point and the verified fixed-point solver
//! drives the volatility iteration, exactly as the front end does.

use glicko2::fixed::scaled_product;
use glicko2::fixed::SCALE;
use glicko2::solver::bracket_probe;
use glicko2::solver::bracket_search_stops;
use glicko2::solver::Bracket;
use glicko2::update::deviation_squared_after_period;
use glicko2::update::pre_period_deviation_squared;

const TAU: f64 = 0.9;
const UNIT: f64 = 173.7178;

fn to_fix(x: f64) -> i128 {
    (x * (SCALE as f64)).round() as i128
}

fn from_fix(v: i128) -> f64 {
    (v as f64) / (SCALE as f64)
}

fn weight(phi: f64) -> f64 {
    1.0 / (1.0 + 3.0 * phi * phi / (std::f64::consts::PI * std::f64::consts::PI)).sqrt()
}

fn expected_score(mu: f64, mu_opp: f64, phi_opp: f64) -> f64 {
    1.0 / (1.0 + (-weight(phi_opp) * (mu - mu_opp)).exp())
}

fn iteration_fn(x: f64, a: f64, phi: f64, v: f64, delta: f64) -> f64 {
    x.exp() * (delta * delta - phi * phi - v - x.exp())
        / (2.0 * (phi * phi + v + x.exp()).powi(2))
        - (x - a) / (TAU * TAU)
}

/// Solves for the new log-volatility `x` with the verified bracket
/// logic; returns `x` and the number of secant steps taken.
fn solve_volatility(phi: f64, sigma: f64, v: f64, delta: f64) -> (f64, usize) {
    let a = (sigma * sigma).ln();
    let f = |x: f64| iteration_fn(x, a, phi, v, delta);
    let b_init: f64 = if delta * delta > phi * phi + v {
        (delta * delta - phi * phi - v).ln()
    } else {
        let mut k: u32 = 1;
        while !bracket_search_stops(to_fix(f(from_fix(bracket_probe(to_fix(a), k).unwrap())))) {
            k += 1;
            assert!(k < 1000, "bracket search ran away");
        }
        from_fix(bracket_probe(to_fix(a), k).unwrap())
    };
    let mut bracket = Bracket::new(to_fix(a), to_fix(b_init), to_fix(f(a)), to_fix(f(b_init)))
        .expect("solver inputs within working range");
    let mut steps: usize = 0;
    let x_fix: i128 = loop {
        if bracket.converged() {
            break bracket.end_a;
        }
        steps += 1;
        assert!(steps <= 500, "volatility iteration did not converge");
        match bracket.secant_candidate() {
            None => break bracket.end_b,
            Some(c) => {
                let f_c = to_fix(f(from_fix(c)));
                if f_c == 0 {
                    break c;
                }
                bracket = bracket.advance(c, f_c).expect("trial within working range");
            }
        }
    };
    (from_fix(x_fix), steps)
}

/// One full rating-period update on the internal scale; returns the
/// new (rating, deviation, volatility), the pre-period deviation, the
/// solver residual and the number of solver steps.
fn update(
    mu: f64,
    phi: f64,
    sigma: f64,
    opponents: &[(f64, f64, f64)],
) -> (f64, f64, f64, f64, f64, usize) {
    let v = 1.0
        / opponents
            .iter()
            .map(|&(mj, pj, _)| {
                let e = expected_score(mu, mj, pj);
                weight(pj) * weight(pj) * e * (1.0 - e)
            })
            .sum::<f64>();
    let surprise: f64 = opponents
        .iter()
        .map(|&(mj, pj, s)| weight(pj) * (s - expected_score(mu, mj, pj)))
        .sum();
    let delta = v * surprise;
    let (x, steps) = solve_volatility(phi, sigma, v, delta);
    let residual = iteration_fn(x, (sigma * sigma).ln(), phi, v, delta);
    let sigma_new = (x / 2.0).exp();
    let pre_sq = pre_period_deviation_squared(to_fix(phi * phi), to_fix(sigma_new * sigma_new))
        .expect("squared deviations within working range");
    let phi_star = from_fix(pre_sq).sqrt();
    let new_sq = deviation_squared_after_period(pre_sq, to_fix(v))
        .expect("deviation update within working range");
    let phi_new = from_fix(new_sq).sqrt();
    let shift = scaled_product(new_sq, to_fix(surprise)).expect("shift within working range");
    let mu_new = mu + from_fix(shift);
    (mu_new, phi_new, sigma_new, phi_star, residual, steps)
}

#[test]
fn known_worked_example() {
    // The canonical Glicko-2 example: subject (1500, 200, 0.06) against
    // (1400, 30, win), (1550, 100, loss), (1700, 300, loss).
    let mu = (1500.0 - 1500.0) / UNIT;
    let phi = 200.0 / UNIT;
    let opponents = [
        ((1400.0 - 1500.0) / UNIT, 30.0 / UNIT, 1.0),
        ((1550.0 - 1500.0) / UNIT, 100.0 / UNIT, 0.0),
        ((1700.0 - 1500.0) / UNIT, 300.0 / UNIT, 0.0),
    ];
    let (mu_new, phi_new, sigma_new, _, residual, steps) = update(mu, phi, 0.06, &opponents);
    let rating = UNIT * mu_new + 1500.0;
    let deviation = UNIT * phi_new;
    assert!((rating - 1464.06).abs() < 0.05, "rating {rating}");
    assert!((deviation - 151.52).abs() < 0.05, "deviation {deviation}");
    assert!((sigma_new - 0.05999).abs() < 1e-4, "volatility {sigma_new}");
    assert!(residual.abs() < 1e-6, "residual {residual}");
    assert!(steps <= 100, "steps {steps}");
}

#[test]
fn solver_converges_over_synthetic_sweep() {
    // A deterministic sweep of synthetic inputs within realistic
    // ranges: the iteration must stop within the step bound, with a
    // small residual, and the new deviation must fall strictly below
    // the pre-period inflated deviation.
    let mut state: u64 = 0x1234_5678_9abc_def0;
    let mut next_unit = move || {
        state = state
            .wrapping_mul(6_364_136_223_846_793_005)
            .wrapping_add(1_442_695_040_888_963_407);
        ((state >> 11) as f64) / ((1u64 << 53) as f64)
    };
    for _ in 0..200 {
        let mu = -3.0 + 6.0 * next_unit();
        let phi = 0.2 + 2.3 * next_unit();
        let sigma = 0.03 + 0.09 * next_unit();
        let count = 1 + ((5.0 * next_unit()) as usize).min(4);
        let mut opponents: Vec<(f64, f64, f64)> = Vec::new();
        for _ in 0..count {
            let mj = -3.0 + 6.0 * next_unit();
            let pj = 0.2 + 2.3 * next_unit();
            let s = match (3.0 * next_unit()) as u32 {
                0 => 0.0,
                1 => 0.5,
                _ => 1.0,
            };
            opponents.push((mj, pj, s));
        }
        let (_, phi_new, sigma_new, phi_star, residual, steps) =
            update(mu, phi, sigma, &opponents);
        assert!(steps <= 500, "steps {steps}");
        assert!(residual.abs() < 1e-6, "residual {residual}");
        assert!(sigma_new > 0.0);
        assert!(phi_new < phi_star, "uncertainty must shrink: {phi_new} vs {phi_star}");
        assert!(phi_new > 0.0);
    }
}

#[test]
fn volatility_barely_moves_when_results_match_expectation() {
    // An evenly matched draw leaves the volatility near its old value.
    let (_, _, sigma_new, _, _, _) = update(0.0, 1.2, 0.06, &[(0.0, 1.2, 0.5)]);
    assert!((sigma_new - 0.06).abs() < 0.01, "volatility {sigma_new}");
}
