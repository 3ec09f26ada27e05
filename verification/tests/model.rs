use madness::features::{matchup_seeds, matchup_teams, FeatureError};
use madness::models::Matchup;

#[test]
fn test_sigmoid_midpoint() {
    // score = 0 → 50/50
    let prob = 1.0 / (1.0 + (-0.0_f64).exp());
    assert!((prob - 0.5).abs() < 1e-10);
}

#[test]
fn test_sigmoid_strong_favorite() {
    // large positive score → near 1.0
    let prob = 1.0 / (1.0 + (-10.0_f64).exp());
    assert!(prob > 0.99);
}

#[test]
fn test_seed_diff_normalization() {
    // 1-seed vs 16-seed → diff = (16 - 1) / 15.0 = 1.0
    let (s1, s2, gap) = matchup_seeds(Some(1), Some(16));
    assert_eq!((s1, s2, gap), (1, 16, 15));
    let seed_diff = gap as f64 / 15.0;
    assert!((seed_diff - 1.0).abs() < 1e-10);
}

#[test]
fn test_confidence_from_prob() {
    let prob: f64 = 0.75;
    let confidence = (prob - 0.5).abs() * 2.0;
    assert!((confidence - 0.5).abs() < 1e-10);
}

#[test]
fn test_confidence_at_50_50() {
    let prob: f64 = 0.5;
    let confidence = (prob - 0.5).abs() * 2.0;
    assert!(confidence < 1e-10); // zero confidence at 50/50
}

fn game(id: i64, round: i64, t1: Option<i64>, t2: Option<i64>) -> Matchup {
    Matchup {
        id,
        round,
        region: Some("East".to_string()),
        team1_id: t1,
        team2_id: t2,
        team1_ml: None,
        team2_ml: None,
        winner_id: None,
        game_date: None,
        next_game_id: None,
        next_slot: None,
    }
}

#[test]
fn matchup_seeds_default_to_eight() {
    assert_eq!(matchup_seeds(None, None), (8, 8, 0));
    assert_eq!(matchup_seeds(Some(3), None), (3, 8, 5));
    assert_eq!(matchup_seeds(None, Some(1)), (8, 1, -7));
}

#[test]
fn matchup_teams_resolves_both_teams() {
    let m = game(7, 1, Some(11), Some(12));
    assert_eq!(matchup_teams(7, Some(&m)), Ok((11, 12)));
}

#[test]
fn matchup_teams_reports_each_missing_piece() {
    assert_eq!(matchup_teams(42, None), Err(FeatureError::MatchupNotFound(42)));
    let no1 = game(1, 2, None, Some(3));
    assert_eq!(matchup_teams(1, Some(&no1)), Err(FeatureError::MissingTeam1));
    let no2 = game(1, 2, Some(3), None);
    assert_eq!(matchup_teams(1, Some(&no2)), Err(FeatureError::MissingTeam2));
    let none = game(1, 2, None, None);
    assert_eq!(matchup_teams(1, Some(&none)), Err(FeatureError::MissingTeam1));
}

#[test]
fn feature_error_messages() {
    assert_eq!(FeatureError::MatchupNotFound(42).message(), "Matchup 42 not found");
    assert_eq!(FeatureError::MissingTeam1.message(), "Matchup has no team1");
    assert_eq!(FeatureError::MissingTeam2.message(), "Matchup has no team2");
    assert_eq!(FeatureError::TeamNotFound(-3).message(), "Team -3 not found");
}
