//! The decisions taken while fetching statistics, schedules and odds from
//! ESPN: which teams to ask for, which statistic a name stands for, how a
//! season record and a game's result read.
use vstd::prelude::*;
use vstd::string::*;
use vstd::utf8::*;
use crate::text::{byte_prefix, digit_char, parse_i64, parse_i64_spec, str_eq};

verus! {

/// The scoreboard dates of the 2026 tournament, `YYYYMMDD`.
pub open spec fn tournament_dates_spec() -> Seq<Seq<char>> {
    seq!["20260317"@, "20260318"@, "20260319"@, "20260320"@, "20260321"@, "20260322"@, "20260326"@, "20260327"@, "20260328"@, "20260329"@, "20260404"@, "20260406"@]
}

/// Scoreboard dates of the 2026 tournament: First Four March 17–18, first
/// round March 19–20, second round March 21–22, Sweet 16 March 26–27, Elite
/// Eight March 28–29, Final Four April 4, championship April 6.
pub fn tournament_dates_2026() -> (res: Vec<String>)
    ensures
        res@.len() == tournament_dates_spec().len(),
        forall|i: int| 0 <= i < res@.len() ==> (#[trigger] res@[i])@ == tournament_dates_spec()[i],
{
    let mut v: Vec<String> = Vec::new();
    v.push(String::from_str("20260317"));
    v.push(String::from_str("20260318"));
    v.push(String::from_str("20260319"));
    v.push(String::from_str("20260320"));
    v.push(String::from_str("20260321"));
    v.push(String::from_str("20260322"));
    v.push(String::from_str("20260326"));
    v.push(String::from_str("20260327"));
    v.push(String::from_str("20260328"));
    v.push(String::from_str("20260329"));
    v.push(String::from_str("20260404"));
    v.push(String::from_str("20260406"));
    v
}

/// The ESPN id to fetch a team's data with: its id when it has a non-empty one.
pub fn fetch_target(espn_id: &Option<String>) -> (res: Option<String>)
    ensures
        match *espn_id {
            Some(id) => if id@.len() > 0 { res == Some(id) } else { res is None },
            None => res is None,
        },
{
    match espn_id {
        Some(id) => if id.as_str().is_empty() {
            None
        } else {
            Some(id.clone())
        },
        None => None,
    }
}

/// A column of the season statistics that an ESPN statistic fills.
#[derive(Debug, Clone, Copy, PartialEq, Eq, Structural)]
pub enum SeasonStatField {
    /// `points_per_game`
    PointsPerGame,
    /// `points_allowed_per_game`
    PointsAllowedPerGame,
    /// `field_goal_pct`
    FieldGoalPct,
    /// `three_point_pct`
    ThreePointPct,
    /// `free_throw_pct`
    FreeThrowPct,
    /// `rebounds_per_game`
    ReboundsPerGame,
    /// `off_rebounds_per_game`
    OffReboundsPerGame,
    /// `def_rebounds_per_game`
    DefReboundsPerGame,
    /// `assists_per_game`
    AssistsPerGame,
    /// `turnovers_per_game`
    TurnoversPerGame,
    /// `steals_per_game`
    StealsPerGame,
    /// `blocks_per_game`
    BlocksPerGame,
    /// `wins`
    Wins,
    /// `losses`
    Losses,
}

/// The column that the ESPN statistic `name` fills, if any (the category
/// it is listed under does not matter).
pub open spec fn stat_field_spec(name: Seq<char>) -> Option<SeasonStatField> {
    if name == "avgPoints"@ || name == "pointsPerGame"@ {
        Some(SeasonStatField::PointsPerGame)
    } else if name == "avgPointsAllowed"@ {
        Some(SeasonStatField::PointsAllowedPerGame)
    } else if name == "fieldGoalPct"@ {
        Some(SeasonStatField::FieldGoalPct)
    } else if name == "threePointPct"@ || name == "avgThreePointPct"@ {
        Some(SeasonStatField::ThreePointPct)
    } else if name == "freeThrowPct"@ {
        Some(SeasonStatField::FreeThrowPct)
    } else if name == "avgRebounds"@ || name == "reboundsPerGame"@ {
        Some(SeasonStatField::ReboundsPerGame)
    } else if name == "avgOffRebounds"@ {
        Some(SeasonStatField::OffReboundsPerGame)
    } else if name == "avgDefRebounds"@ {
        Some(SeasonStatField::DefReboundsPerGame)
    } else if name == "avgAssists"@ || name == "assistsPerGame"@ {
        Some(SeasonStatField::AssistsPerGame)
    } else if name == "avgTurnovers"@ || name == "turnoversPerGame"@ {
        Some(SeasonStatField::TurnoversPerGame)
    } else if name == "avgSteals"@ {
        Some(SeasonStatField::StealsPerGame)
    } else if name == "avgBlocks"@ {
        Some(SeasonStatField::BlocksPerGame)
    } else if name == "wins"@ {
        Some(SeasonStatField::Wins)
    } else if name == "losses"@ {
        Some(SeasonStatField::Losses)
    } else {
        None
    }
}

/// The column that the ESPN statistic `name` fills, if any.
pub fn season_stat_field(name: &str) -> (res: Option<SeasonStatField>)
    ensures
        res == stat_field_spec(name@),
{
    if str_eq(name, "avgPoints") || str_eq(name, "pointsPerGame") {
        Some(SeasonStatField::PointsPerGame)
    } else if str_eq(name, "avgPointsAllowed") {
        Some(SeasonStatField::PointsAllowedPerGame)
    } else if str_eq(name, "fieldGoalPct") {
        Some(SeasonStatField::FieldGoalPct)
    } else if str_eq(name, "threePointPct") || str_eq(name, "avgThreePointPct") {
        Some(SeasonStatField::ThreePointPct)
    } else if str_eq(name, "freeThrowPct") {
        Some(SeasonStatField::FreeThrowPct)
    } else if str_eq(name, "avgRebounds") || str_eq(name, "reboundsPerGame") {
        Some(SeasonStatField::ReboundsPerGame)
    } else if str_eq(name, "avgOffRebounds") {
        Some(SeasonStatField::OffReboundsPerGame)
    } else if str_eq(name, "avgDefRebounds") {
        Some(SeasonStatField::DefReboundsPerGame)
    } else if str_eq(name, "avgAssists") || str_eq(name, "assistsPerGame") {
        Some(SeasonStatField::AssistsPerGame)
    } else if str_eq(name, "avgTurnovers") || str_eq(name, "turnoversPerGame") {
        Some(SeasonStatField::TurnoversPerGame)
    } else if str_eq(name, "avgSteals") {
        Some(SeasonStatField::StealsPerGame)
    } else if str_eq(name, "avgBlocks") {
        Some(SeasonStatField::BlocksPerGame)
    } else if str_eq(name, "wins") {
        Some(SeasonStatField::Wins)
    } else if str_eq(name, "losses") {
        Some(SeasonStatField::Losses)
    } else {
        None
    }
}

/// `s` holds exactly one `-`, at position `k`.
pub open spec fn single_dash_at(s: Seq<char>, k: int) -> bool {
    &&& 0 <= k < s.len()
    &&& s[k] == '-'
    &&& forall|j: int| 0 <= j < s.len() && j != k ==> s[j] != '-'
}

/// A season record "W-L" (such as "29-5"): when the text splits on `-`
/// into exactly two parts, the two parts read as integers (each `None`
/// when it does not read as one).
pub open spec fn record_spec(s: Seq<char>) -> Option<(Option<i64>, Option<i64>)> {
    if exists|k: int| single_dash_at(s, k) {
        let k = choose|k: int| single_dash_at(s, k);
        Some((parse_i64_spec(s.take(k)), parse_i64_spec(s.skip(k + 1))))
    } else {
        None
    }
}

/// Reads a season record "W-L" into wins and losses.
pub fn parse_record_summary(summary: &str) -> (res: Option<(Option<i64>, Option<i64>)>)
    ensures
        res == record_spec(summary@),
{
    let n = summary.unicode_len();
    let mut dash: Option<usize> = None;
    let mut i: usize = 0;
    while i < n
        invariant
            i <= n,
            n == summary@.len(),
            match dash {
                None => forall|j: int| 0 <= j < i ==> summary@[j] != '-',
                Some(k) => k < i && summary@[k as int] == '-' && forall|j: int|
                    0 <= j < i && j != k ==> summary@[j] != '-',
            },
        decreases n - i,
    {
        if summary.get_char(i) == '-' {
            match dash {
                Some(k) => {
                    proof {
                        assert forall|k2: int| !single_dash_at(summary@, k2) by {
                            if single_dash_at(summary@, k2) {
                                if k2 != k {
                                    assert(summary@[k as int] != '-');
                                } else {
                                    assert(summary@[i as int] != '-');
                                }
                            }
                        }
                    }
                    return None;
                },
                None => {
                    dash = Some(i);
                },
            }
        }
        i = i + 1;
    }
    match dash {
        None => {
            proof {
                assert forall|k2: int| !single_dash_at(summary@, k2) by {
                    if single_dash_at(summary@, k2) {
                        assert(summary@[k2] != '-');
                    }
                }
            }
            None
        },
        Some(k) => {
            proof {
                assert(single_dash_at(summary@, k as int));
                let k2 = choose|k2: int| single_dash_at(summary@, k2);
                assert(k2 == k);
            }
            let wins_text = summary.substring_char(0, k);
            let losses_text = summary.substring_char(k + 1, n);
            proof {
                assert(wins_text@ =~= summary@.take(k as int));
                assert(losses_text@ =~= summary@.skip(k + 1));
            }
            Some((parse_i64(wins_text), parse_i64(losses_text)))
        },
    }
}

/// The first ten bytes (`YYYY-MM-DD`) of an ESPN timestamp; the cut must
/// fall on a character boundary (slicing panics otherwise).
pub fn date_prefix(timestamp: &str) -> (res: String)
    requires
        10 <= timestamp.spec_bytes().len(),
        is_char_boundary(timestamp.spec_bytes(), 10),
    ensures
        res@ == decode_utf8(timestamp.spec_bytes().subrange(0, 10)),
{
    String::from_str(byte_prefix(timestamp, 10))
}

/// One team's view of a finished or scheduled game.
#[derive(Debug, Clone, Copy, PartialEq, Eq, Structural)]
pub struct GameResult {
    /// The team is the first competitor listed.
    pub is_home: bool,
    pub points: Option<i64>,
    pub points_allowed: Option<i64>,
    /// 1 when the team scored more, 0 when not, `None` without both scores.
    pub won: Option<i64>,
}

/// The game seen from team `team_id`: it is the home side when the first
/// competitor is that team (`first_team` is the first competitor's team, if
/// known), else the second competitor is taken as the team.
pub fn game_result(team_id: i64, first_team: Option<i64>, first_score: Option<i64>, second_score: Option<i64>) -> (res: GameResult)
    ensures
        res.is_home == (first_team == Some(team_id)),
        res.points == (if res.is_home { first_score } else { second_score }),
        res.points_allowed == (if res.is_home { second_score } else { first_score }),
        res.won == (match (res.points, res.points_allowed) {
            (Some(m), Some(o)) => Some(if m > o { 1i64 } else { 0i64 }),
            _ => None,
        }),
{
    let is_home = match first_team {
        Some(t) => t == team_id,
        None => false,
    };
    let (points, points_allowed) = if is_home {
        (first_score, second_score)
    } else {
        (second_score, first_score)
    };
    let won = match (points, points_allowed) {
        (Some(m), Some(o)) => Some(if m > o { 1i64 } else { 0i64 }),
        _ => None,
    };
    GameResult { is_home, points, points_allowed, won }
}

/// The ESPN ids of the two teams of a scoreboard competition whose odds are
/// to be stored: none without odds or with fewer than two competitors; a
/// missing id reads as the empty string.
pub fn odds_competitors(has_odds: bool, competitor_ids: &Vec<Option<String>>) -> (res: Option<(String, String)>)
    ensures
        !has_odds || competitor_ids@.len() < 2 ==> res is None,
        has_odds && competitor_ids@.len() >= 2 ==> (res matches Some((a, b)) && a@ == text_or_empty(
            competitor_ids@[0],
        ) && b@ == text_or_empty(competitor_ids@[1])),
{
    if !has_odds || competitor_ids.len() < 2 {
        return None;
    }
    Some((or_empty(&competitor_ids[0]), or_empty(&competitor_ids[1])))
}

/// The text of an optional id, or the empty string.
pub open spec fn text_or_empty(v: Option<String>) -> Seq<char> {
    match v {
        Some(s) => s@,
        None => Seq::empty(),
    }
}

/// The text of an optional id, or the empty string.
fn or_empty(v: &Option<String>) -> (res: String)
    ensures
        res@ == text_or_empty(*v),
{
    match v {
        Some(s) => s.clone(),
        None => String::new(),
    }
}


// ─── The tournament calendar ────────────────────────────────────────────────

/// A two-digit, zero-padded number.
pub open spec fn two_digits(n: int) -> Seq<char> {
    seq![digit_char(n / 10), digit_char(n % 10)]
}

/// A 2026 date as `YYYYMMDD`.
pub open spec fn date_2026(month: int, day: int) -> Seq<char> {
    seq!['2', '0', '2', '6'] + two_digits(month) + two_digits(day)
}

/// The scoreboard dates are the tournament's game days of 2026, in order:
/// the First Four and the first two rounds on six days in a row from
/// March 17, the regional rounds on four days in a row from March 26, the
/// Final Four on April 4 and the championship on April 6.
pub proof fn lemma_tournament_calendar()
    ensures
        tournament_dates_spec().len() == 12,
        forall|i: int| 0 <= i < 6 ==> #[trigger] tournament_dates_spec()[i] == date_2026(3, 17 + i),
        forall|i: int| 0 <= i < 4 ==> #[trigger] tournament_dates_spec()[6 + i] == date_2026(3, 26 + i),
        tournament_dates_spec()[10] == date_2026(4, 4),
        tournament_dates_spec()[11] == date_2026(4, 6),
{
    reveal_strlit("20260317");
    reveal_strlit("20260318");
    reveal_strlit("20260319");
    reveal_strlit("20260320");
    reveal_strlit("20260321");
    reveal_strlit("20260322");
    reveal_strlit("20260326");
    reveal_strlit("20260327");
    reveal_strlit("20260328");
    reveal_strlit("20260329");
    reveal_strlit("20260404");
    reveal_strlit("20260406");
    let d = tournament_dates_spec();
    assert forall|i: int| 0 <= i < 6 implies #[trigger] d[i] == date_2026(3, 17 + i) by {
        assert(d[i] =~= date_2026(3, 17 + i));
    }
    assert forall|i: int| 0 <= i < 4 implies #[trigger] d[6 + i] == date_2026(3, 26 + i) by {
        assert(d[6 + i] =~= date_2026(3, 26 + i));
    }
    assert(d[10] =~= date_2026(4, 4));
    assert(d[11] =~= date_2026(4, 6));
}


// ─── Statistic names and columns ────────────────────────────────────────────

/// The ESPN statistic names that report each column's statistic: the
/// average (`avg…`) and per-game (`…PerGame`) spellings of the same
/// statistic, the percentage (`…Pct`) names, and the season totals.
pub open spec fn espn_names(f: SeasonStatField) -> Seq<Seq<char>> {
    match f {
        SeasonStatField::PointsPerGame => seq!["avgPoints"@, "pointsPerGame"@],
        SeasonStatField::PointsAllowedPerGame => seq!["avgPointsAllowed"@],
        SeasonStatField::FieldGoalPct => seq!["fieldGoalPct"@],
        SeasonStatField::ThreePointPct => seq!["threePointPct"@, "avgThreePointPct"@],
        SeasonStatField::FreeThrowPct => seq!["freeThrowPct"@],
        SeasonStatField::ReboundsPerGame => seq!["avgRebounds"@, "reboundsPerGame"@],
        SeasonStatField::OffReboundsPerGame => seq!["avgOffRebounds"@],
        SeasonStatField::DefReboundsPerGame => seq!["avgDefRebounds"@],
        SeasonStatField::AssistsPerGame => seq!["avgAssists"@, "assistsPerGame"@],
        SeasonStatField::TurnoversPerGame => seq!["avgTurnovers"@, "turnoversPerGame"@],
        SeasonStatField::StealsPerGame => seq!["avgSteals"@],
        SeasonStatField::BlocksPerGame => seq!["avgBlocks"@],
        SeasonStatField::Wins => seq!["wins"@],
        SeasonStatField::Losses => seq!["losses"@],
    }
}

/// A statistic name fills a column exactly when it is one of the names of
/// that column's statistic: every statistic goes to its own column, and two
/// different statistics never share a column (the columns' name lists are
/// disjoint).
pub proof fn lemma_stat_field_names(name: Seq<char>, f: SeasonStatField)
    ensures
        stat_field_spec(name) == Some(f) <==> espn_names(f).contains(name),
{
    reveal_strlit("avgPoints");
    reveal_strlit("pointsPerGame");
    reveal_strlit("avgPointsAllowed");
    reveal_strlit("fieldGoalPct");
    reveal_strlit("threePointPct");
    reveal_strlit("avgThreePointPct");
    reveal_strlit("freeThrowPct");
    reveal_strlit("avgRebounds");
    reveal_strlit("reboundsPerGame");
    reveal_strlit("avgOffRebounds");
    reveal_strlit("avgDefRebounds");
    reveal_strlit("avgAssists");
    reveal_strlit("assistsPerGame");
    reveal_strlit("avgTurnovers");
    reveal_strlit("turnoversPerGame");
    reveal_strlit("avgSteals");
    reveal_strlit("avgBlocks");
    reveal_strlit("wins");
    reveal_strlit("losses");
    assert("avgPoints"@.len() == 9 && "avgPoints"@[0] == 'a' && "avgPoints"@[1] == 'v' && "avgPoints"@[3] == 'P');
    assert("pointsPerGame"@.len() == 13 && "pointsPerGame"@[0] == 'p' && "pointsPerGame"@[1] == 'o' && "pointsPerGame"@[3] == 'n');
    assert("avgPointsAllowed"@.len() == 16 && "avgPointsAllowed"@[0] == 'a' && "avgPointsAllowed"@[1] == 'v' && "avgPointsAllowed"@[3] == 'P');
    assert("fieldGoalPct"@.len() == 12 && "fieldGoalPct"@[0] == 'f' && "fieldGoalPct"@[1] == 'i' && "fieldGoalPct"@[3] == 'l');
    assert("threePointPct"@.len() == 13 && "threePointPct"@[0] == 't' && "threePointPct"@[1] == 'h' && "threePointPct"@[3] == 'e');
    assert("avgThreePointPct"@.len() == 16 && "avgThreePointPct"@[0] == 'a' && "avgThreePointPct"@[1] == 'v' && "avgThreePointPct"@[3] == 'T');
    assert("freeThrowPct"@.len() == 12 && "freeThrowPct"@[0] == 'f' && "freeThrowPct"@[1] == 'r' && "freeThrowPct"@[3] == 'e');
    assert("avgRebounds"@.len() == 11 && "avgRebounds"@[0] == 'a' && "avgRebounds"@[1] == 'v' && "avgRebounds"@[3] == 'R');
    assert("reboundsPerGame"@.len() == 15 && "reboundsPerGame"@[0] == 'r' && "reboundsPerGame"@[1] == 'e' && "reboundsPerGame"@[3] == 'o');
    assert("avgOffRebounds"@.len() == 14 && "avgOffRebounds"@[0] == 'a' && "avgOffRebounds"@[1] == 'v' && "avgOffRebounds"@[3] == 'O');
    assert("avgDefRebounds"@.len() == 14 && "avgDefRebounds"@[0] == 'a' && "avgDefRebounds"@[1] == 'v' && "avgDefRebounds"@[3] == 'D');
    assert("avgAssists"@.len() == 10 && "avgAssists"@[0] == 'a' && "avgAssists"@[1] == 'v' && "avgAssists"@[3] == 'A');
    assert("assistsPerGame"@.len() == 14 && "assistsPerGame"@[0] == 'a' && "assistsPerGame"@[1] == 's' && "assistsPerGame"@[3] == 'i');
    assert("avgTurnovers"@.len() == 12 && "avgTurnovers"@[0] == 'a' && "avgTurnovers"@[1] == 'v' && "avgTurnovers"@[3] == 'T');
    assert("turnoversPerGame"@.len() == 16 && "turnoversPerGame"@[0] == 't' && "turnoversPerGame"@[1] == 'u' && "turnoversPerGame"@[3] == 'n');
    assert("avgSteals"@.len() == 9 && "avgSteals"@[0] == 'a' && "avgSteals"@[1] == 'v' && "avgSteals"@[3] == 'S');
    assert("avgBlocks"@.len() == 9 && "avgBlocks"@[0] == 'a' && "avgBlocks"@[1] == 'v' && "avgBlocks"@[3] == 'B');
    assert("wins"@.len() == 4 && "wins"@[0] == 'w' && "wins"@[1] == 'i' && "wins"@[3] == 's');
    assert("losses"@.len() == 6 && "losses"@[0] == 'l' && "losses"@[1] == 'o' && "losses"@[3] == 's');
    assert(stat_field_spec("avgPoints"@) == Some(SeasonStatField::PointsPerGame));
    assert(stat_field_spec("pointsPerGame"@) == Some(SeasonStatField::PointsPerGame));
    assert(stat_field_spec("avgPointsAllowed"@) == Some(SeasonStatField::PointsAllowedPerGame));
    assert(stat_field_spec("fieldGoalPct"@) == Some(SeasonStatField::FieldGoalPct));
    assert(stat_field_spec("threePointPct"@) == Some(SeasonStatField::ThreePointPct));
    assert(stat_field_spec("avgThreePointPct"@) == Some(SeasonStatField::ThreePointPct));
    assert(stat_field_spec("freeThrowPct"@) == Some(SeasonStatField::FreeThrowPct));
    assert(stat_field_spec("avgRebounds"@) == Some(SeasonStatField::ReboundsPerGame));
    assert(stat_field_spec("reboundsPerGame"@) == Some(SeasonStatField::ReboundsPerGame));
    assert(stat_field_spec("avgOffRebounds"@) == Some(SeasonStatField::OffReboundsPerGame));
    assert(stat_field_spec("avgDefRebounds"@) == Some(SeasonStatField::DefReboundsPerGame));
    assert(stat_field_spec("avgAssists"@) == Some(SeasonStatField::AssistsPerGame));
    assert(stat_field_spec("assistsPerGame"@) == Some(SeasonStatField::AssistsPerGame));
    assert(stat_field_spec("avgTurnovers"@) == Some(SeasonStatField::TurnoversPerGame));
    assert(stat_field_spec("turnoversPerGame"@) == Some(SeasonStatField::TurnoversPerGame));
    assert(stat_field_spec("avgSteals"@) == Some(SeasonStatField::StealsPerGame));
    assert(stat_field_spec("avgBlocks"@) == Some(SeasonStatField::BlocksPerGame));
    assert(stat_field_spec("wins"@) == Some(SeasonStatField::Wins));
    assert(stat_field_spec("losses"@) == Some(SeasonStatField::Losses));
    if espn_names(f).contains(name) {
        let k = choose|k: int| 0 <= k < espn_names(f).len() && espn_names(f)[k] == name;
        assert(stat_field_spec(name) == Some(f));
    }
    if stat_field_spec(name) == Some(f) {
        if name == "avgPoints"@ {
            assert(espn_names(f)[0] == name);
        } else if name == "pointsPerGame"@ {
            assert(espn_names(f)[1] == name);
        } else if name == "avgPointsAllowed"@ {
            assert(espn_names(f)[0] == name);
        } else if name == "fieldGoalPct"@ {
            assert(espn_names(f)[0] == name);
        } else if name == "threePointPct"@ {
            assert(espn_names(f)[0] == name);
        } else if name == "avgThreePointPct"@ {
            assert(espn_names(f)[1] == name);
        } else if name == "freeThrowPct"@ {
            assert(espn_names(f)[0] == name);
        } else if name == "avgRebounds"@ {
            assert(espn_names(f)[0] == name);
        } else if name == "reboundsPerGame"@ {
            assert(espn_names(f)[1] == name);
        } else if name == "avgOffRebounds"@ {
            assert(espn_names(f)[0] == name);
        } else if name == "avgDefRebounds"@ {
            assert(espn_names(f)[0] == name);
        } else if name == "avgAssists"@ {
            assert(espn_names(f)[0] == name);
        } else if name == "assistsPerGame"@ {
            assert(espn_names(f)[1] == name);
        } else if name == "avgTurnovers"@ {
            assert(espn_names(f)[0] == name);
        } else if name == "turnoversPerGame"@ {
            assert(espn_names(f)[1] == name);
        } else if name == "avgSteals"@ {
            assert(espn_names(f)[0] == name);
        } else if name == "avgBlocks"@ {
            assert(espn_names(f)[0] == name);
        } else if name == "wins"@ {
            assert(espn_names(f)[0] == name);
        } else if name == "losses"@ {
            assert(espn_names(f)[0] == name);
        }
    }
}

/// Two different columns never take the same statistic name.
pub proof fn lemma_stat_columns_disjoint(name: Seq<char>, f1: SeasonStatField, f2: SeasonStatField)
    requires
        espn_names(f1).contains(name),
        espn_names(f2).contains(name),
    ensures
        f1 == f2,
{
    lemma_stat_field_names(name, f1);
    lemma_stat_field_names(name, f2);
}

} // verus!
