use madness::app::{handle_bracket_keys, handle_game_keys, handle_key, handle_prediction_keys, Action, App, Key};
use madness::display::{truncate, view_name, TeamDisplayInfo};
use madness::models::{Matchup, Team};
use madness::screen::View;

const BRACKET_STATUS: &str = "↑↓ navigate  Enter select game  p predict  q quit";

fn game(id: i64, round: i64) -> Matchup {
    Matchup {
        id,
        round,
        region: Some("East".to_string()),
        team1_id: Some(id * 10),
        team2_id: Some(id * 10 + 1),
        team1_ml: None,
        team2_ml: None,
        winner_id: None,
        game_date: None,
        next_game_id: None,
        next_slot: None,
    }
}

fn team(id: i64, name: &str) -> Team {
    Team {
        id,
        name: name.to_string(),
        abbrev: None,
        seed: Some(id),
        region: Some("East".to_string()),
        conference: Some("ACC".to_string()),
        espn_id: None,
    }
}

fn viewer() -> App<&'static str> {
    let matchups = vec![game(1, 6), game(2, 1), game(3, 2), game(4, 1), game(5, 1)];
    let teams = vec![team(1, "Duke"), team(2, "Alabama"), team(1, "Duplicate")];
    App::new(teams, matchups, 2026, "madness.db".to_string())
}

#[test]
fn new_viewer_starts_on_the_bracket() {
    let app = viewer();
    assert_eq!(app.view, View::Bracket);
    assert_eq!(app.selected_matchup, 0);
    assert_eq!(app.status, BRACKET_STATUS);
    assert!(!app.should_quit);
    assert!(app.prediction.is_none());
    assert_eq!(app.season, 2026);
}

#[test]
fn only_first_round_games_are_listed() {
    let app = viewer();
    let ids: Vec<i64> = app.r64_matchups().iter().map(|m| m.id).collect();
    assert_eq!(ids, vec![2, 4, 5]);
    assert_eq!(app.selected_matchup().map(|m| m.id), Some(2));
}

#[test]
fn navigation_wraps_around() {
    let mut app = viewer();
    app.navigate_up();
    assert_eq!(app.selected_matchup, 2);
    app.navigate_down();
    assert_eq!(app.selected_matchup, 0);
    app.navigate_down();
    app.navigate_down();
    assert_eq!(app.selected_matchup, 2);
    app.navigate_down();
    assert_eq!(app.selected_matchup, 0);
}

#[test]
fn up_then_down_returns_to_the_same_game() {
    for start in 0..3 {
        let mut app = viewer();
        app.selected_matchup = start;
        app.navigate_up();
        assert!(app.selected_matchup < 3);
        app.navigate_down();
        assert_eq!(app.selected_matchup, start);
        app.navigate_down();
        app.navigate_up();
        assert_eq!(app.selected_matchup, start);
    }
}

#[test]
fn navigation_without_games_does_nothing() {
    let mut app: App<()> = App::new(vec![], vec![game(1, 2)], 2026, String::new());
    app.navigate_down();
    app.navigate_up();
    assert_eq!(app.selected_matchup, 0);
    assert!(app.selected_matchup().is_none());
}

#[test]
fn selection_past_the_end_selects_nothing_and_wraps_on_down() {
    let mut app = viewer();
    app.selected_matchup = 7;
    assert!(app.selected_matchup().is_none());
    app.navigate_down();
    assert_eq!(app.selected_matchup, 8 % 3);
}

#[test]
fn team_lookup_takes_the_first_match() {
    let app = viewer();
    assert_eq!(app.team_by_id(1).map(|t| t.name.as_str()), Some("Duke"));
    assert_eq!(app.team_by_id(2).map(|t| t.name.as_str()), Some("Alabama"));
    assert!(app.team_by_id(9).is_none());
}

#[test]
fn bracket_keys() {
    let mut app = viewer();
    handle_bracket_keys(&mut app, Key::Char('j'));
    assert_eq!(app.selected_matchup, 1);
    handle_bracket_keys(&mut app, Key::Down);
    assert_eq!(app.selected_matchup, 2);
    handle_bracket_keys(&mut app, Key::Char('k'));
    handle_bracket_keys(&mut app, Key::Up);
    assert_eq!(app.selected_matchup, 0);
    handle_bracket_keys(&mut app, Key::Char('x'));
    assert_eq!(app.view, View::Bracket);
    handle_bracket_keys(&mut app, Key::Enter);
    assert_eq!(app.view, View::GameDetail);
    assert_eq!(app.status, "p: predict   Esc: back to bracket");
}

#[test]
fn enter_without_a_selected_game_stays_on_the_bracket() {
    let mut app = viewer();
    app.selected_matchup = 5;
    handle_bracket_keys(&mut app, Key::Enter);
    assert_eq!(app.view, View::Bracket);
    assert_eq!(app.status, BRACKET_STATUS);
}

#[test]
fn game_keys_ask_for_a_prediction() {
    let mut app = viewer();
    app.selected_matchup = 1;
    handle_bracket_keys(&mut app, Key::Enter);
    let action = handle_game_keys(&mut app, Key::Char('p'));
    assert_eq!(action, Action::Predict { matchup_id: 4, season: 2026 });
    assert_eq!(app.status, "Running prediction...");
    assert_eq!(handle_game_keys(&mut app, Key::Char('P')), Action::Predict { matchup_id: 4, season: 2026 });
    assert_eq!(handle_game_keys(&mut app, Key::Char('z')), Action::Nothing);
    app.set_prediction("result", "Duke", 73);
    assert_eq!(app.view, View::Prediction);
    assert_eq!(app.status, "Prediction: Duke wins (73% confidence)");
    assert_eq!(app.prediction, Some("result"));
}

#[test]
fn failed_prediction_is_reported() {
    let mut app = viewer();
    handle_bracket_keys(&mut app, Key::Enter);
    app.prediction_failed("Matchup 2 not found");
    assert_eq!(app.status, "Prediction failed: Matchup 2 not found (run `fetch` and `globals` first)");
    assert_eq!(app.view, View::GameDetail);
}

#[test]
fn escape_walks_back_to_the_bracket() {
    let mut app = viewer();
    handle_bracket_keys(&mut app, Key::Enter);
    app.set_prediction("r", "Duke", 10);
    handle_prediction_keys(&mut app, Key::Esc);
    assert_eq!(app.view, View::GameDetail);
    assert_eq!(handle_game_keys(&mut app, Key::Esc), Action::Nothing);
    assert_eq!(app.view, View::Bracket);
    assert_eq!(app.status, BRACKET_STATUS);
    app.go_back();
    assert_eq!(app.view, View::Bracket);
}

#[test]
fn q_quits_in_every_view() {
    for view in [View::Bracket, View::GameDetail, View::Prediction] {
        let mut app = viewer();
        app.view = view;
        assert_eq!(handle_key(&mut app, Key::Char('q'), false), Action::Nothing);
        assert!(app.should_quit);
        let mut app = viewer();
        app.view = view;
        handle_key(&mut app, Key::Char('Q'), false);
        assert!(app.should_quit);
    }
}

#[test]
fn ctrl_c_always_quits() {
    for view in [View::Bracket, View::GameDetail, View::Prediction] {
        let mut app = viewer();
        app.view = view;
        handle_key(&mut app, Key::Char('c'), true);
        assert!(app.should_quit);
        let mut app = viewer();
        app.view = view;
        handle_key(&mut app, Key::Char('c'), false);
        assert!(!app.should_quit);
    }
}

#[test]
fn handle_key_dispatches_by_view() {
    let mut app = viewer();
    assert_eq!(handle_key(&mut app, Key::Enter, false), Action::Nothing);
    assert_eq!(app.view, View::GameDetail);
    assert_eq!(handle_key(&mut app, Key::Char('p'), false), Action::Predict { matchup_id: 2, season: 2026 });
}

#[test]
fn view_names() {
    assert_eq!(view_name(&View::Bracket), "Bracket");
    assert_eq!(view_name(&View::GameDetail), "Game Detail");
    assert_eq!(view_name(&View::Prediction), "Prediction");
}

#[test]
fn truncate_keeps_short_text_and_cuts_long_text() {
    assert_eq!(truncate("(1) Duke", 20), "(1) Duke");
    assert_eq!(truncate("(16) SIU Edwardsville", 21), "(16) SIU Edwardsville");
    assert_eq!(truncate("(16) SIU Edwardsville", 20), "(16) SIU Edwardsvil…");
    assert_eq!(truncate("abc", 0), "…");
    assert_eq!(truncate("abc", 1), "…");
    assert_eq!(truncate("ab", 2), "ab");
    assert_eq!(truncate("héllo", 4), "hé…");
}

#[test]
fn team_display_info() {
    let t = team(4, "Arizona");
    let info = TeamDisplayInfo::from_team(Some(&t));
    assert_eq!((info.name.as_str(), info.seed.as_str(), info.conference.as_str(), info.region.as_str()), ("Arizona", "4", "ACC", "East"));
    let mut bare = team(9, "Baylor");
    bare.seed = None;
    bare.conference = None;
    bare.region = None;
    let info = TeamDisplayInfo::from_team(Some(&bare));
    assert_eq!((info.name.as_str(), info.seed.as_str(), info.conference.as_str(), info.region.as_str()), ("Baylor", "?", "?", "?"));
    let info = TeamDisplayInfo::from_team(None);
    assert_eq!((info.name.as_str(), info.seed.as_str(), info.conference.as_str(), info.region.as_str()), ("TBD", "?", "?", "?"));
}

#[test]
fn as_many_downs_as_games_return_to_the_start() {
    for start in 0..3 {
        let mut app = viewer();
        app.selected_matchup = start;
        for _ in 0..3 {
            app.navigate_down();
            assert!(app.selected_matchup < 3);
        }
        assert_eq!(app.selected_matchup, start);
    }
}
