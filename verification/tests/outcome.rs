use glicko2::outcome::GameOutcome;

#[test]
fn outcome_scores_in_halves() {
    assert_eq!(GameOutcome::Win.score_in_halves(), 2);
    assert_eq!(GameOutcome::Draw.score_in_halves(), 1);
    assert_eq!(GameOutcome::Loss.score_in_halves(), 0);
}

#[test]
fn outcome_from_score_round_trip() {
    let outcomes = [GameOutcome::Win, GameOutcome::Draw, GameOutcome::Loss];
    for o in outcomes {
        let s = o.score_in_halves();
        assert_eq!(GameOutcome::from_score_in_halves(s), Some(o));
    }
}

#[test]
fn outcome_from_score_rejects_out_of_range() {
    assert_eq!(GameOutcome::from_score_in_halves(3), None);
    assert_eq!(GameOutcome::from_score_in_halves(255), None);
}
