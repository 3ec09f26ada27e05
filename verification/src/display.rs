//! Text shown by the viewer's screens.
use vstd::prelude::*;
use vstd::string::*;
use vstd::utf8::*;
use crate::models::{Matchup, Team};
use crate::screen;
use crate::text::{byte_prefix, decimal_string, i64_to_string, nat_digits, str_eq};

verus! {

/// Every character takes at least one byte in UTF-8.
pub proof fn lemma_encoded_len(chars: Seq<char>)
    ensures
        encode_utf8(chars).len() >= chars.len(),
    decreases chars.len(),
{
    if chars.len() > 0 {
        lemma_encoded_len(chars.drop_first());
    }
}

/// Byte length kept by `truncate` before the ellipsis.
pub open spec fn kept_bytes(max: usize) -> int {
    if max >= 1 { max - 1 } else { 0 }
}

/// Truncates `s` to fit a column of `max` characters: a string of at most
/// `max` characters is kept whole; a longer one is cut to its first
/// `max - 1` bytes, followed by `…`. The cut must fall on a character
/// boundary (slicing panics otherwise).
pub fn truncate(s: &str, max: usize) -> (res: String)
    requires
        s@.len() > max ==> is_char_boundary(s.spec_bytes(), kept_bytes(max)),
    ensures
        s@.len() <= max ==> res@ == s@,
        s@.len() > max ==> res@ == decode_utf8(s.spec_bytes().subrange(0, kept_bytes(max))) + "…"@,
{
    let count = s.unicode_len();
    if count <= max {
        String::from_str(s)
    } else {
        let n: usize = if max >= 1 { max - 1 } else { 0 };
        proof {
            lemma_encoded_len(s@);
        }
        let head = byte_prefix(s, n);
        let mut out = String::from_str(head);
        out.append("…");
        out
    }
}

/// Name of a view, for the title bar.
pub open spec fn view_label(view: screen::View) -> Seq<char> {
    match view {
        screen::View::Bracket => "Bracket"@,
        screen::View::GameDetail => "Game Detail"@,
        screen::View::Prediction => "Prediction"@,
    }
}

/// Name of a view, for the title bar.
pub fn view_name(view: &screen::View) -> (res: &'static str)
    ensures
        res@ == view_label(*view),
{
    match view {
        screen::View::Bracket => "Bracket",
        screen::View::GameDetail => "Game Detail",
        screen::View::Prediction => "Prediction",
    }
}

/// The text of an optional field, or `?` when it is missing.
pub open spec fn text_or_unknown(v: Option<String>) -> Seq<char> {
    match v {
        Some(s) => s@,
        None => "?"@,
    }
}

/// The seed of a team as shown, or `?` when it is missing.
pub open spec fn seed_text(seed: Option<i64>) -> Seq<char> {
    match seed {
        Some(s) => decimal_string(s as int),
        None => "?"@,
    }
}

/// The texts that the game view shows for one team.
pub struct TeamDisplayInfo {
    pub name: String,
    pub seed: String,
    pub conference: String,
    pub region: String,
}

/// The text of an optional field, or `?`.
fn or_unknown(v: &Option<String>) -> (res: String)
    ensures
        res@ == text_or_unknown(*v),
{
    match v {
        Some(s) => s.clone(),
        None => String::from_str("?"),
    }
}

impl TeamDisplayInfo {
    /// The texts for a team, or placeholders when the slot has no team yet.
    pub fn from_team(t: Option<&Team>) -> (res: Self)
        ensures
            match t {
                Some(team) => {
                    &&& res.name@ == team.name@
                    &&& res.seed@ == seed_text(team.seed)
                    &&& res.conference@ == text_or_unknown(team.conference)
                    &&& res.region@ == text_or_unknown(team.region)
                },
                None => {
                    &&& res.name@ == "TBD"@
                    &&& res.seed@ == "?"@
                    &&& res.conference@ == "?"@
                    &&& res.region@ == "?"@
                },
            },
    {
        match t {
            Some(team) => TeamDisplayInfo {
                name: team.name.clone(),
                seed: match team.seed {
                    Some(s) => i64_to_string(s),
                    None => String::from_str("?"),
                },
                conference: or_unknown(&team.conference),
                region: or_unknown(&team.region),
            },
            None => TeamDisplayInfo {
                name: String::from_str("TBD"),
                seed: String::from_str("?"),
                conference: String::from_str("?"),
                region: String::from_str("?"),
            },
        }
    }
}


// ─── Bracket and game views ─────────────────────────────────────────────────

/// The label of a team slot in the bracket: "(seed) name", the seed read
/// as 0 when missing, or "TBD" for a slot without a (known) team.
pub open spec fn team_label_text(t: Option<Team>) -> Seq<char> {
    match t {
        Some(team) => "("@ + decimal_string(
            (match team.seed {
                Some(s) => s,
                None => 0,
            }) as int,
        ) + ") "@ + team.name@,
        None => "TBD"@,
    }
}

/// The label of a team slot in the bracket.
pub fn team_label(t: Option<&Team>) -> (res: String)
    ensures
        res@ == team_label_text(
            match t {
                Some(team) => Some(*team),
                None => None,
            },
        ),
{
    match t {
        Some(team) => {
            let mut s = String::from_str("(");
            let seed = match team.seed {
                Some(v) => v,
                None => 0,
            };
            let digits = i64_to_string(seed);
            s.append(digits.as_str());
            s.append(") ");
            s.append(team.name.as_str());
            s
        },
        None => String::from_str("TBD"),
    }
}

/// The mark after a team that won its game: " ✓" when the game has a
/// winner and it is that team.
pub fn winner_marker(winner_id: Option<i64>, team_id: Option<i64>) -> (res: &'static str)
    ensures
        res@ == (if winner_id is Some && winner_id == team_id { " ✓"@ } else { ""@ }),
{
    match (winner_id, team_id) {
        (Some(w), Some(t)) => if w == t {
            " ✓"
        } else {
            ""
        },
        _ => "",
    }
}

/// The game's region is named `region`.
pub open spec fn game_in_region(m: Matchup, region: Seq<char>) -> bool {
    m.region matches Some(r) && r@ == region
}

/// Positions, among `games`, of the games of `region`, in order.
pub open spec fn region_rows_spec(games: Seq<Matchup>, region: Seq<char>) -> Seq<int> {
    Seq::new(games.len(), |k: int| k).filter(|k: int| game_in_region(games[k], region))
}

/// Positions, among the listed games, of the games of a region: the rows of
/// that region's column in the bracket view.
pub fn region_rows(games: &Vec<&Matchup>, region: &str) -> (res: Vec<usize>)
    ensures
        res@.map_values(|k: usize| k as int) == region_rows_spec(
            games@.map_values(|m: &Matchup| *m),
            region@,
        ),
{
    let ghost all = games@.map_values(|m: &Matchup| *m);
    let ghost pred = |k: int| game_in_region(all[k], region@);
    let n = games.len();
    let mut out: Vec<usize> = Vec::new();
    let mut k: usize = 0;
    while k < n
        invariant
            k <= n,
            n == games@.len(),
            all == games@.map_values(|m: &Matchup| *m),
            pred == (|j: int| game_in_region(all[j], region@)),
            out@.map_values(|j: usize| j as int) == Seq::new(k as nat, |j: int| j).filter(pred),
        decreases n - k,
    {
        let ghost before = out@;
        let inside = match &games[k].region {
            Some(r) => str_eq(r.as_str(), region),
            None => false,
        };
        if inside {
            out.push(k);
        }
        proof {
            reveal_with_fuel(Seq::<_>::filter, 2);
            let t = Seq::new((k + 1) as nat, |j: int| j);
            assert(t.drop_last() =~= Seq::new(k as nat, |j: int| j));
            assert(t.last() == k as int);
            assert(all[k as int] == *games@[k as int]);
            if inside {
                assert(out@ == before.push(k));
                assert(out@.map_values(|j: usize| j as int) =~= before.map_values(|j: usize| j as int).push(k as int));
            } else {
                assert(out@ == before);
            }
        }
        k = k + 1;
    }
    proof {
        assert(all.len() == n);
    }
    out
}

/// The row of the bracket column that the selection stands on: the first
/// row showing the selected game.
pub fn selected_row(rows: &Vec<usize>, selected: usize) -> (res: Option<usize>)
    ensures
        match res {
            Some(p) => p < rows@.len() && rows@[p as int] == selected && forall|q: int|
                0 <= q < p ==> rows@[q] != selected,
            None => forall|q: int| 0 <= q < rows@.len() ==> rows@[q] != selected,
        },
{
    let n = rows.len();
    let mut p: usize = 0;
    while p < n
        invariant
            p <= n,
            n == rows@.len(),
            forall|q: int| 0 <= q < p ==> rows@[q] != selected,
        decreases n - p,
    {
        if rows[p] == selected {
            return Some(p);
        }
        p = p + 1;
    }
    None
}

/// A moneyline as shown: signed ("+150", "-200", "+0"), or "N/A".
pub open spec fn moneyline_label(ml: Option<i64>) -> Seq<char> {
    match ml {
        Some(v) => if v < 0 { decimal_string(v as int) } else { "+"@ + nat_digits(v as nat) },
        None => "N/A"@,
    }
}

/// A moneyline as shown in the game view.
pub fn moneyline_text(ml: Option<i64>) -> (res: String)
    ensures
        res@ == moneyline_label(ml),
{
    match ml {
        Some(v) => {
            if v < 0 {
                i64_to_string(v)
            } else {
                let mut s = String::from_str("+");
                let digits = i64_to_string(v);
                s.append(digits.as_str());
                s
            }
        },
        None => String::from_str("N/A"),
    }
}

/// A seed as shown in the game view's header: "#seed", or nothing.
pub open spec fn seed_tag_text(seed: Option<i64>) -> Seq<char> {
    match seed {
        Some(s) => "#"@ + decimal_string(s as int),
        None => Seq::empty(),
    }
}

/// A seed as shown in the game view's header.
pub fn seed_tag(seed: Option<i64>) -> (res: String)
    ensures
        res@ == seed_tag_text(seed),
{
    match seed {
        Some(s) => {
            let mut out = String::from_str("#");
            let digits = i64_to_string(s);
            out.append(digits.as_str());
            out
        },
        None => String::new(),
    }
}

} // verus!
