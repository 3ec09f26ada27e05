use madness::display::{moneyline_text, region_rows, seed_tag, selected_row, team_label, winner_marker};
use madness::models::{Matchup, Team};

fn game(id: i64, region: Option<&str>) -> Matchup {
    Matchup {
        id,
        round: 1,
        region: region.map(|s| s.to_string()),
        team1_id: None,
        team2_id: None,
        team1_ml: None,
        team2_ml: None,
        winner_id: None,
        game_date: None,
        next_game_id: None,
        next_slot: None,
    }
}

#[test]
fn team_labels() {
    let duke = Team {
        id: 1,
        name: "Duke".to_string(),
        abbrev: None,
        seed: Some(1),
        region: None,
        conference: None,
        espn_id: None,
    };
    assert_eq!(team_label(Some(&duke)), "(1) Duke");
    let mut unseeded = duke.clone();
    unseeded.seed = None;
    assert_eq!(team_label(Some(&unseeded)), "(0) Duke");
    assert_eq!(team_label(None), "TBD");
}

#[test]
fn winner_markers() {
    assert_eq!(winner_marker(Some(3), Some(3)), " ✓");
    assert_eq!(winner_marker(Some(3), Some(4)), "");
    assert_eq!(winner_marker(None, None), "");
    assert_eq!(winner_marker(Some(3), None), "");
}

#[test]
fn rows_of_a_region_column() {
    let games = vec![game(1, Some("East")), game(2, Some("West")), game(3, None), game(4, Some("East"))];
    let refs: Vec<&Matchup> = games.iter().collect();
    assert_eq!(region_rows(&refs, "East"), vec![0, 3]);
    assert_eq!(region_rows(&refs, "West"), vec![1]);
    assert_eq!(region_rows(&refs, "South"), Vec::<usize>::new());
    let rows = region_rows(&refs, "East");
    assert_eq!(selected_row(&rows, 3), Some(1));
    assert_eq!(selected_row(&rows, 1), None);
}

#[test]
fn moneylines_and_seed_tags() {
    assert_eq!(moneyline_text(Some(150)), "+150");
    assert_eq!(moneyline_text(Some(-200)), "-200");
    assert_eq!(moneyline_text(Some(0)), "+0");
    assert_eq!(moneyline_text(None), "N/A");
    for v in [7i64, -7, 0, i64::MAX, i64::MIN] {
        assert_eq!(moneyline_text(Some(v)), format!("{:+}", v));
    }
    assert_eq!(seed_tag(Some(12)), "#12");
    assert_eq!(seed_tag(None), "");
}
