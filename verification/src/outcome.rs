//! The outcome of a single game, as a constrained value type.
//!
//! A win scores 1, a draw 1/2, a loss 0.  Scores are carried as twice
//! their conventional value so that they stay integral; the front end
//! divides by two when it feeds the score into the real-valued update.

use vstd::prelude::*;

verus! {

/// The result of one game against a single opponent, seen from the
/// subject's side.  Making the three legal scores a closed enumeration
/// keeps malformed scores unrepresentable.
#[derive(Clone, Copy, PartialEq, Eq, Structural, Debug)]
pub enum GameOutcome {
    Win,
    Draw,
    Loss,
}

impl GameOutcome {
    /// Twice the conventional score of this outcome: 2 for a win,
    /// 1 for a draw, 0 for a loss.
    pub open spec fn spec_score_in_halves(self) -> u8 {
        match self {
            GameOutcome::Win => 2,
            GameOutcome::Draw => 1,
            GameOutcome::Loss => 0,
        }
    }

    /// Twice the conventional score of this outcome.
    pub fn score_in_halves(&self) -> (s: u8)
        ensures
            s == self.spec_score_in_halves(),
    {
        match self {
            GameOutcome::Win => 2,
            GameOutcome::Draw => 1,
            GameOutcome::Loss => 0,
        }
    }

    /// The outcome whose doubled score is `s`, if there is one; the
    /// three legal doubled scores are exactly 0, 1 and 2.
    pub fn from_score_in_halves(s: u8) -> (r: Option<GameOutcome>)
        ensures
            r is Some <==> s <= 2,
            match r {
                Some(o) => o.spec_score_in_halves() == s,
                None => s > 2,
            },
    {
        if s == 2 {
            Some(GameOutcome::Win)
        } else if s == 1 {
            Some(GameOutcome::Draw)
        } else if s == 0 {
            Some(GameOutcome::Loss)
        } else {
            None
        }
    }
}

} // verus!
