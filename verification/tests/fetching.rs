use madness::fetch::{
    date_prefix, fetch_target, game_result, odds_competitors, parse_record_summary, season_stat_field,
    tournament_dates_2026, GameResult, SeasonStatField,
};

#[test]
fn tournament_dates() {
    let dates = tournament_dates_2026();
    assert_eq!(dates.len(), 12);
    assert_eq!(dates[0], "20260317");
    assert_eq!(dates[6], "20260326");
    assert_eq!(dates[11], "20260406");
}

#[test]
fn fetch_targets_need_a_non_empty_id() {
    assert_eq!(fetch_target(&Some("150".to_string())), Some("150".to_string()));
    assert_eq!(fetch_target(&Some(String::new())), None);
    assert_eq!(fetch_target(&None), None);
}

#[test]
fn statistic_names() {
    assert_eq!(season_stat_field("avgPoints"), Some(SeasonStatField::PointsPerGame));
    assert_eq!(season_stat_field("pointsPerGame"), Some(SeasonStatField::PointsPerGame));
    assert_eq!(season_stat_field("avgPointsAllowed"), Some(SeasonStatField::PointsAllowedPerGame));
    assert_eq!(season_stat_field("avgThreePointPct"), Some(SeasonStatField::ThreePointPct));
    assert_eq!(season_stat_field("reboundsPerGame"), Some(SeasonStatField::ReboundsPerGame));
    assert_eq!(season_stat_field("avgOffRebounds"), Some(SeasonStatField::OffReboundsPerGame));
    assert_eq!(season_stat_field("turnoversPerGame"), Some(SeasonStatField::TurnoversPerGame));
    assert_eq!(season_stat_field("avgBlocks"), Some(SeasonStatField::BlocksPerGame));
    assert_eq!(season_stat_field("wins"), Some(SeasonStatField::Wins));
    assert_eq!(season_stat_field("losses"), Some(SeasonStatField::Losses));
    assert_eq!(season_stat_field("avgFouls"), None);
    assert_eq!(season_stat_field("Wins"), None);
}

#[test]
fn season_records() {
    assert_eq!(parse_record_summary("29-5"), Some((Some(29), Some(5))));
    assert_eq!(parse_record_summary("0-0"), Some((Some(0), Some(0))));
    assert_eq!(parse_record_summary("-5"), Some((None, Some(5))));
    assert_eq!(parse_record_summary("29-"), Some((Some(29), None)));
    assert_eq!(parse_record_summary("x-5"), Some((None, Some(5))));
    assert_eq!(parse_record_summary("29-5-1"), None);
    assert_eq!(parse_record_summary("295"), None);
    assert_eq!(parse_record_summary(""), None);
}

#[test]
fn dates_are_cut_to_ten_bytes() {
    assert_eq!(date_prefix("2026-03-19T16:15Z"), "2026-03-19");
    assert_eq!(date_prefix("2026-03-19"), "2026-03-19");
}

#[test]
fn game_results_from_the_teams_side() {
    assert_eq!(
        game_result(5, Some(5), Some(80), Some(70)),
        GameResult { is_home: true, points: Some(80), points_allowed: Some(70), won: Some(1) }
    );
    assert_eq!(
        game_result(5, Some(6), Some(80), Some(70)),
        GameResult { is_home: false, points: Some(70), points_allowed: Some(80), won: Some(0) }
    );
    assert_eq!(
        game_result(5, None, Some(60), Some(60)),
        GameResult { is_home: false, points: Some(60), points_allowed: Some(60), won: Some(0) }
    );
    assert_eq!(game_result(5, Some(5), None, Some(60)).won, None);
}

#[test]
fn odds_need_odds_and_two_competitors() {
    let ids = vec![Some("150".to_string()), None, Some("9".to_string())];
    assert_eq!(odds_competitors(true, &ids), Some(("150".to_string(), String::new())));
    assert_eq!(odds_competitors(false, &ids), None);
    assert_eq!(odds_competitors(true, &vec![Some("1".to_string())]), None);
}
