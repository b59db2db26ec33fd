//! Verified core of a Glicko-2 rating updater.
//!
//! The rating update itself runs on real numbers; what this library
//! verifies is the discrete heart of the algorithm: the bracketed
//! root-finding (Illinois variant of regula falsi) that solves for the
//! new volatility, carried out on fixed-point values, together with the
//! game-outcome value type.  A thin front end evaluates the
//! transcendental functions and drives the solver loop.

pub mod fixed;
pub mod outcome;
pub mod scale;
pub mod solver;
pub mod update;
