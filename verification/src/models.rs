//! The records that the bracket, the viewer and the fetchers share.
use vstd::prelude::*;

verus! {

/// A tournament team as stored in the `teams` table.
#[derive(Debug, Clone)]
pub struct Team {
    pub id: i64,
    pub name: String,
    pub abbrev: Option<String>,
    pub seed: Option<i64>,
    pub region: Option<String>,
    pub conference: Option<String>,
    pub espn_id: Option<String>,
}

/// A game of the bracket as stored in the `matchups` table, with the
/// integer and text columns that the library's logic reads.
///
/// The point spread and the over/under line are decimal numbers that no
/// logic here reads; the application keeps them beside this record.
#[derive(Debug, Clone)]
pub struct Matchup {
    pub id: i64,
    pub round: i64,
    pub region: Option<String>,
    pub team1_id: Option<i64>,
    pub team2_id: Option<i64>,
    pub team1_ml: Option<i64>,
    pub team2_ml: Option<i64>,
    pub winner_id: Option<i64>,
    pub game_date: Option<String>,
    pub next_game_id: Option<i64>,
    pub next_slot: Option<i64>,
}

/// Display label of a round number.
pub open spec fn round_label(round: i64) -> Seq<char> {
    if round == 0 {
        "First Four"@
    } else if round == 1 {
        "Round of 64"@
    } else if round == 2 {
        "Round of 32"@
    } else if round == 3 {
        "Sweet 16"@
    } else if round == 4 {
        "Elite Eight"@
    } else if round == 5 {
        "Final Four"@
    } else if round == 6 {
        "Championship"@
    } else {
        "Unknown"@
    }
}

/// Round labels for display.
pub fn round_name(round: i64) -> (res: &'static str)
    ensures
        res@ == round_label(round),
{
    match round {
        0 => "First Four",
        1 => "Round of 64",
        2 => "Round of 32",
        3 => "Sweet 16",
        4 => "Elite Eight",
        5 => "Final Four",
        6 => "Championship",
        _ => "Unknown",
    }
}

} // verus!
