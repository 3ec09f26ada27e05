//! The integer side of building a game's features: finding its two teams
//! and their seeds. The statistics themselves are decimal numbers and are
//! combined by the application.
use vstd::prelude::*;
use vstd::string::*;
use crate::models::Matchup;
use crate::text::{decimal_string, i64_to_string};

verus! {

/// Why the features of a game cannot be built.
#[derive(Debug, Clone, Copy, PartialEq, Eq, Structural)]
pub enum FeatureError {
    /// No game has this id.
    MatchupNotFound(i64),
    /// The game has no first team yet.
    MissingTeam1,
    /// The game has no second team yet.
    MissingTeam2,
    /// No team has this id.
    TeamNotFound(i64),
}

/// The message of an error.
pub open spec fn feature_error_text(e: FeatureError) -> Seq<char> {
    match e {
        FeatureError::MatchupNotFound(id) => "Matchup "@ + decimal_string(id as int) + " not found"@,
        FeatureError::MissingTeam1 => "Matchup has no team1"@,
        FeatureError::MissingTeam2 => "Matchup has no team2"@,
        FeatureError::TeamNotFound(id) => "Team "@ + decimal_string(id as int) + " not found"@,
    }
}

impl FeatureError {
    /// The message of the error.
    pub fn message(&self) -> (res: String)
        ensures
            res@ == feature_error_text(*self),
    {
        match self {
            FeatureError::MatchupNotFound(id) => {
                let mut s = String::from_str("Matchup ");
                let n = i64_to_string(*id);
                s.append(n.as_str());
                s.append(" not found");
                s
            },
            FeatureError::MissingTeam1 => String::from_str("Matchup has no team1"),
            FeatureError::MissingTeam2 => String::from_str("Matchup has no team2"),
            FeatureError::TeamNotFound(id) => {
                let mut s = String::from_str("Team ");
                let n = i64_to_string(*id);
                s.append(n.as_str());
                s.append(" not found");
                s
            },
        }
    }
}

/// The ids of the two teams of game `matchup_id` (`matchup` is what the
/// lookup of that id found): an error when the game is missing or either
/// team slot is still empty.
pub fn matchup_teams(matchup_id: i64, matchup: Option<&Matchup>) -> (res: Result<(i64, i64), FeatureError>)
    ensures
        match matchup {
            None => res == Err::<(i64, i64), FeatureError>(FeatureError::MatchupNotFound(matchup_id)),
            Some(m) => match (m.team1_id, m.team2_id) {
                (Some(t1), Some(t2)) => res == Ok::<(i64, i64), FeatureError>((t1, t2)),
                (None, _) => res == Err::<(i64, i64), FeatureError>(FeatureError::MissingTeam1),
                (Some(_), None) => res == Err::<(i64, i64), FeatureError>(FeatureError::MissingTeam2),
            },
        },
{
    match matchup {
        None => Err(FeatureError::MatchupNotFound(matchup_id)),
        Some(m) => match m.team1_id {
            None => Err(FeatureError::MissingTeam1),
            Some(t1) => match m.team2_id {
                None => Err(FeatureError::MissingTeam2),
                Some(t2) => Ok((t1, t2)),
            },
        },
    }
}

/// The seed a team plays with in the model: its seed, or 8 when it has none.
pub open spec fn model_seed(seed: Option<i64>) -> i64 {
    match seed {
        Some(s) => s,
        None => 8,
    }
}

/// The seeds of the two teams as the model uses them, and the seed gap in
/// favour of the first team (second seed minus first seed; positive when
/// the first team is seeded higher).
pub fn matchup_seeds(team1_seed: Option<i64>, team2_seed: Option<i64>) -> (res: (i64, i64, i64))
    requires
        i64::MIN <= model_seed(team2_seed) - model_seed(team1_seed) <= i64::MAX,
    ensures
        res.0 == model_seed(team1_seed),
        res.1 == model_seed(team2_seed),
        res.2 == model_seed(team2_seed) - model_seed(team1_seed),
{
    let s1 = match team1_seed {
        Some(s) => s,
        None => 8,
    };
    let s2 = match team2_seed {
        Some(s) => s,
        None => 8,
    };
    (s1, s2, s2 - s1)
}

} // verus!
