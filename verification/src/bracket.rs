//! The bracket graph: which games exist, in which order they are stored,
//! and which game each winner advances to.
use vstd::prelude::*;
use crate::models::Team;
use crate::seeds::{field_2026, lemma_field_2026_layout, pairings_spec, SeededTeam};
use crate::text::str_eq;

verus! {

/// The four regions of the bracket.
#[derive(Debug, Clone, Copy, PartialEq, Eq, Structural)]
pub enum Region {
    East,
    West,
    South,
    Midwest,
}

/// Name of a region.
pub open spec fn region_label(r: Region) -> Seq<char> {
    match r {
        Region::East => "East"@,
        Region::West => "West"@,
        Region::South => "South"@,
        Region::Midwest => "Midwest"@,
    }
}

/// Position of a region in bracket order: East, West, South, Midwest.
pub open spec fn region_index(r: Region) -> int {
    match r {
        Region::East => 0,
        Region::West => 1,
        Region::South => 2,
        Region::Midwest => 3,
    }
}

/// The region at a position of bracket order.
pub open spec fn region_at(i: int) -> Region {
    if i == 0 {
        Region::East
    } else if i == 1 {
        Region::West
    } else if i == 2 {
        Region::South
    } else {
        Region::Midwest
    }
}

impl Region {
    /// Name of the region.
    pub fn name(&self) -> (res: &'static str)
        ensures
            res@ == region_label(*self),
    {
        match self {
            Region::East => "East",
            Region::West => "West",
            Region::South => "South",
            Region::Midwest => "Midwest",
        }
    }

    /// The region at position `i` of bracket order.
    pub fn from_index(i: usize) -> (res: Region)
        requires
            i < 4,
        ensures
            res == region_at(i as int),
            region_index(res) == i,
    {
        if i == 0 {
            Region::East
        } else if i == 1 {
            Region::West
        } else if i == 2 {
            Region::South
        } else {
            Region::Midwest
        }
    }
}

/// One game of the bracket, in the order in which the games are stored.
///
/// `next_game` is the position (in the same list) of the game that the
/// winner advances to, and `next_slot` which of its two team slots (1 or 2)
/// the winner fills. First-round games carry the positions, in the seeded
/// field, of their two teams.
#[derive(Debug, Clone, Copy, PartialEq, Eq)]
pub struct PlannedGame {
    pub round: i64,
    pub region: Option<Region>,
    pub next_game: Option<usize>,
    pub next_slot: Option<i64>,
    pub teams: Option<(usize, usize)>,
}

/// Number of games in rounds 2 to 6: 16 + 8 + 4 + 2 + 1.
pub open spec fn placeholder_count() -> int {
    31
}

/// The `i`-th of the games of rounds 2 to 6, which are stored first, from
/// the championship down: the championship; the two semifinals (East/West,
/// then South/Midwest); one regional final per region; two regional
/// semifinals per region; four second-round games per region.
pub open spec fn placeholder_game(i: int) -> PlannedGame {
    if i == 0 {
        PlannedGame { round: 6, region: None, next_game: None, next_slot: None, teams: None }
    } else if i < 3 {
        PlannedGame {
            round: 5,
            region: None,
            next_game: Some(0),
            next_slot: Some(i as i64),
            teams: None,
        }
    } else if i < 7 {
        let r = i - 3;
        PlannedGame {
            round: 4,
            region: Some(region_at(r)),
            next_game: Some((1 + r / 2) as usize),
            next_slot: Some((r % 2 + 1) as i64),
            teams: None,
        }
    } else if i < 15 {
        let r = (i - 7) / 2;
        let h = (i - 7) % 2;
        PlannedGame {
            round: 3,
            region: Some(region_at(r)),
            next_game: Some((3 + r) as usize),
            next_slot: Some((h + 1) as i64),
            teams: None,
        }
    } else {
        let r = (i - 15) / 4;
        let k = (i - 15) % 4;
        PlannedGame {
            round: 2,
            region: Some(region_at(r)),
            next_game: Some((7 + 2 * r + k / 2) as usize),
            next_slot: Some((k % 2 + 1) as i64),
            teams: None,
        }
    }
}

/// A seeded team belongs to `region` and carries `seed`.
pub open spec fn seeded_in(t: SeededTeam, region: Region, seed: i64) -> bool {
    t.1@ == region_label(region) && t.0 == seed
}

/// Position of the first team of `teams`, from `start` on, in `region` with `seed`.
pub open spec fn first_seeded_from(teams: Seq<SeededTeam>, region: Region, seed: i64, start: int) -> Option<int>
    decreases teams.len() - start,
{
    if start < 0 || start >= teams.len() {
        None
    } else if seeded_in(teams[start], region, seed) {
        Some(start)
    } else {
        first_seeded_from(teams, region, seed, start + 1)
    }
}

/// Position of the first team of `teams` in `region` with `seed`.
pub open spec fn first_seeded(teams: Seq<SeededTeam>, region: Region, seed: i64) -> Option<int> {
    first_seeded_from(teams, region, seed, 0)
}

/// The first-round game of pairing `p` in region `r`, when both of its
/// seeds are found in the field.
pub open spec fn r64_game(teams: Seq<SeededTeam>, pairs: Seq<(i64, i64)>, r: int, p: int) -> Option<PlannedGame> {
    match (first_seeded(teams, region_at(r), pairs[p].0), first_seeded(teams, region_at(r), pairs[p].1)) {
        (Some(i1), Some(i2)) => Some(
            PlannedGame {
                round: 1,
                region: Some(region_at(r)),
                next_game: Some((15 + 4 * r + p / 2) as usize),
                next_slot: Some((p % 2 + 1) as i64),
                teams: Some((i1 as usize, i2 as usize)),
            },
        ),
        _ => None,
    }
}

/// The first-round games of the first `k` (region, pairing) slots, regions
/// outermost, in bracket order, leaving out the slots whose seeds are missing.
pub open spec fn r64_games(teams: Seq<SeededTeam>, pairs: Seq<(i64, i64)>, k: int) -> Seq<PlannedGame>
    decreases k,
{
    if k <= 0 || pairs.len() == 0 {
        Seq::empty()
    } else {
        let q = k - 1;
        let prev = r64_games(teams, pairs, q);
        match r64_game(teams, pairs, q / (pairs.len() as int), q % (pairs.len() as int)) {
            Some(g) => prev.push(g),
            None => prev,
        }
    }
}

/// The slots (region * pairings + pairing) of the games of `r64_games`, in the same order.
pub open spec fn r64_slots(teams: Seq<SeededTeam>, pairs: Seq<(i64, i64)>, k: int) -> Seq<int>
    decreases k,
{
    if k <= 0 || pairs.len() == 0 {
        Seq::empty()
    } else {
        let q = k - 1;
        let prev = r64_slots(teams, pairs, q);
        match r64_game(teams, pairs, q / (pairs.len() as int), q % (pairs.len() as int)) {
            Some(g) => prev.push(q),
            None => prev,
        }
    }
}

/// No pairing beyond the eighth finds both of its seeds in any region: a
/// region has four second-round games, so only eight pairings can feed them.
pub open spec fn pairings_fit(teams: Seq<SeededTeam>, pairs: Seq<(i64, i64)>) -> bool {
    forall|r: int, p: int| 0 <= r < 4 && 8 <= p < pairs.len() ==> #[trigger] r64_game(teams, pairs, r, p) is None
}

/// The whole bracket in storage order: the games of rounds 2 to 6, then the
/// first-round games of every region.
pub open spec fn bracket_spec(teams: Seq<SeededTeam>, pairs: Seq<(i64, i64)>) -> Seq<PlannedGame> {
    Seq::new(placeholder_count() as nat, |i: int| placeholder_game(i)) + r64_games(
        teams,
        pairs,
        4 * pairs.len() as int,
    )
}

/// The `i`-th game of rounds 2 to 6 in storage order.
pub fn placeholder(i: usize) -> (res: PlannedGame)
    requires
        i < 31,
    ensures
        res == placeholder_game(i as int),
{
    if i == 0 {
        PlannedGame { round: 6, region: None, next_game: None, next_slot: None, teams: None }
    } else if i < 3 {
        PlannedGame {
            round: 5,
            region: None,
            next_game: Some(0),
            next_slot: Some(i as i64),
            teams: None,
        }
    } else if i < 7 {
        let r = i - 3;
        PlannedGame {
            round: 4,
            region: Some(Region::from_index(r)),
            next_game: Some(1 + r / 2),
            next_slot: Some((r % 2 + 1) as i64),
            teams: None,
        }
    } else if i < 15 {
        let r = (i - 7) / 2;
        let h = (i - 7) % 2;
        PlannedGame {
            round: 3,
            region: Some(Region::from_index(r)),
            next_game: Some(3 + r),
            next_slot: Some((h + 1) as i64),
            teams: None,
        }
    } else {
        let r = (i - 15) / 4;
        let k = (i - 15) % 4;
        PlannedGame {
            round: 2,
            region: Some(Region::from_index(r)),
            next_game: Some(7 + 2 * r + k / 2),
            next_slot: Some((k % 2 + 1) as i64),
            teams: None,
        }
    }
}

/// Position of the first team of the field in `region` with `seed`.
pub fn find_seeded(teams: &Vec<SeededTeam>, region: Region, seed: i64) -> (res: Option<usize>)
    ensures
        match res {
            Some(i) => first_seeded(teams@, region, seed) == Some(i as int),
            None => first_seeded(teams@, region, seed) is None,
        },
{
    let name = region.name();
    let n = teams.len();
    let mut i: usize = 0;
    while i < n
        invariant
            i <= n,
            n == teams@.len(),
            name@ == region_label(region),
            first_seeded(teams@, region, seed) == first_seeded_from(teams@, region, seed, i as int),
        decreases n - i,
    {
        let t = &teams[i];
        if t.0 == seed && str_eq(t.1, name) {
            return Some(i);
        }
        i = i + 1;
    }
    None
}

/// The whole bracket, in the order in which its games are stored: the games
/// of rounds 2 to 6 (whose teams are filled in as winners advance), then
/// for each region the first-round games of the pairings, with the seeded
/// teams found in the field. A pairing whose seed is missing from a region
/// gets no game.
pub fn bracket_plan(teams: &Vec<SeededTeam>, pairings: &Vec<(i64, i64)>) -> (plan: Vec<PlannedGame>)
    requires
        pairings_fit(teams@, pairings@),
    ensures
        plan@ == bracket_spec(teams@, pairings@),
{
    let mut plan: Vec<PlannedGame> = Vec::new();
    let mut i: usize = 0;
    while i < 31
        invariant
            i <= 31,
            plan@ == Seq::new(i as nat, |j: int| placeholder_game(j)),
        decreases 31 - i,
    {
        plan.push(placeholder(i));
        assert(plan@ =~= Seq::new((i + 1) as nat, |j: int| placeholder_game(j)));
        i = i + 1;
    }
    let ghost head = plan@;
    let np = pairings.len();
    let mut r: usize = 0;
    while r < 4
        invariant
            r <= 4,
            np == pairings@.len(),
            pairings_fit(teams@, pairings@),
            head == Seq::new(31nat, |j: int| placeholder_game(j)),
            plan@ == head + r64_games(teams@, pairings@, (r * np) as int),
        decreases 4 - r,
    {
        let region = Region::from_index(r);
        let mut p: usize = 0;
        while p < np
            invariant
                r < 4,
                p <= np,
                np == pairings@.len(),
                pairings_fit(teams@, pairings@),
                region == region_at(r as int),
                head == Seq::new(31nat, |j: int| placeholder_game(j)),
                plan@ == head + r64_games(teams@, pairings@, (r * np + p) as int),
            decreases np - p,
        {
            let (s1, s2) = pairings[p];
            let t1 = find_seeded(teams, region, s1);
            let t2 = find_seeded(teams, region, s2);
            proof {
                let q = (r * np + p) as int;
                assert(q / (np as int) == r as int) by (nonlinear_arith)
                    requires q == r * np + p, p < np;
                assert(q % (np as int) == p as int) by (nonlinear_arith)
                    requires q == r * np + p, p < np;
                assert(r * np + p + 1 == q + 1);
            }
            match (t1, t2) {
                (Some(i1), Some(i2)) => {
                    assert(p < 8) by {
                        if p >= 8 {
                            assert(r64_game(teams@, pairings@, r as int, p as int) is None);
                        }
                    }
                    let g = PlannedGame {
                        round: 1,
                        region: Some(region),
                        next_game: Some(15 + 4 * r + p / 2),
                        next_slot: Some((p % 2 + 1) as i64),
                        teams: Some((i1, i2)),
                    };
                    plan.push(g);
                    assert(plan@ =~= head + r64_games(teams@, pairings@, (r * np + p + 1) as int));
                },
                _ => {
                    assert(plan@ =~= head + r64_games(teams@, pairings@, (r * np + p + 1) as int));
                },
            }
            p = p + 1;
        }
        assert((r * np + np) as int == ((r + 1) * np) as int) by (nonlinear_arith);
        r = r + 1;
    }
    assert((4 * np) as int == 4 * pairings@.len());
    plan
}


// ─── Laws of the bracket graph ──────────────────────────────────────────────

/// Each stored first-round game is the game of its slot, slots come in
/// increasing order and lie below `k`.
pub proof fn lemma_r64_games_slots(teams: Seq<SeededTeam>, pairs: Seq<(i64, i64)>, k: int)
    ensures
        r64_games(teams, pairs, k).len() == r64_slots(teams, pairs, k).len(),
        forall|m: int| 0 <= m < r64_slots(teams, pairs, k).len() ==> {
            let q = #[trigger] r64_slots(teams, pairs, k)[m];
            &&& 0 <= q < k
            &&& pairs.len() > 0
            &&& r64_game(teams, pairs, q / (pairs.len() as int), q % (pairs.len() as int)) == Some(
                r64_games(teams, pairs, k)[m],
            )
        },
        forall|m1: int, m2: int|
            0 <= m1 < m2 < r64_slots(teams, pairs, k).len() ==> #[trigger] r64_slots(teams, pairs, k)[m1]
                < #[trigger] r64_slots(teams, pairs, k)[m2],
    decreases k,
{
    if k > 0 && pairs.len() > 0 {
        lemma_r64_games_slots(teams, pairs, k - 1);
    }
}

/// Facts about the first-round game of slot `q`.
pub proof fn lemma_r64_game_link(teams: Seq<SeededTeam>, pairs: Seq<(i64, i64)>, q: int)
    requires
        0 < pairs.len(),
        pairings_fit(teams, pairs),
        0 <= q < 4 * pairs.len(),
        r64_game(teams, pairs, q / (pairs.len() as int), q % (pairs.len() as int)) is Some,
    ensures
        ({
            let g = r64_game(teams, pairs, q / (pairs.len() as int), q % (pairs.len() as int))->0;
            let r = q / (pairs.len() as int);
            let p = q % (pairs.len() as int);
            &&& 0 <= r < 4
            &&& 0 <= p < pairs.len()
            &&& g.round == 1
            &&& g.region == Some(region_at(r))
            &&& g.next_game == Some((15 + 4 * r + p / 2) as usize)
            &&& 15 <= 15 + 4 * r + p / 2 < 31
            &&& (15 + 4 * r + p / 2 - 15) / 4 == r
            &&& (15 + 4 * r + p / 2 - 15) % 4 == p / 2
            &&& g.next_slot == Some((p % 2 + 1) as i64)
        }),
{
    let n = pairs.len() as int;
    let r = q / n;
    let p = q % n;
    assert(0 <= r < 4 && 0 <= p < n) by (nonlinear_arith)
        requires 0 < n, 0 <= q < 4 * n, r == q / n, p == q % n;
    if p >= 8 {
        assert(r64_game(teams, pairs, r, p) is None);
    }
    assert(0 <= p / 2 < 4);
    assert((4 * r + p / 2) / 4 == r && (4 * r + p / 2) % 4 == p / 2) by (nonlinear_arith)
        requires 0 <= p / 2 < 4, 0 <= r;
}

/// Every game but the championship sends its winner to a game stored
/// before it, of the next round, into slot 1 or 2; the championship sends
/// its winner nowhere. A winner below the semifinals stays in its region.
#[verifier::rlimit(40)]
#[verifier::spinoff_prover]
pub proof fn lemma_bracket_links(teams: Seq<SeededTeam>, pairs: Seq<(i64, i64)>, i: int)
    requires
        pairings_fit(teams, pairs),
        0 <= i < bracket_spec(teams, pairs).len(),
    ensures
        ({
            let plan = bracket_spec(teams, pairs);
            let g = plan[i];
            &&& 1 <= g.round <= 6
            &&& g.round == 6 <==> g.next_game is None
            &&& g.round < 6 ==> {
                let j = g.next_game->0 as int;
                &&& 0 <= j < i
                &&& plan[j].round == g.round + 1
                &&& (g.next_slot == Some(1i64) || g.next_slot == Some(2i64))
                &&& plan[j].round <= 4 ==> plan[j].region == g.region && g.region is Some
            }
            &&& g.round == 6 ==> g.region is None && i == 0
            &&& g.round == 5 ==> g.region is None
            &&& g.round <= 4 ==> g.region is Some
            &&& (g.teams is Some <==> g.round == 1)
        }),
{
    let plan = bracket_spec(teams, pairs);
    let head = Seq::new(placeholder_count() as nat, |j: int| placeholder_game(j));
    let tail = r64_games(teams, pairs, 4 * pairs.len() as int);
    assert(plan == head + tail);
    if i < 31 {
        assert(plan[i] == placeholder_game(i));
        let g = placeholder_game(i);
        if 3 <= i < 7 {
            let r = i - 3;
            assert(plan[1 + r / 2] == placeholder_game(1 + r / 2));
        } else if 7 <= i < 15 {
            let r = (i - 7) / 2;
            assert(plan[3 + r] == placeholder_game(3 + r));
        } else if 15 <= i {
            let r = (i - 15) / 4;
            let k = (i - 15) % 4;
            let j = 7 + 2 * r + k / 2;
            assert(plan[j] == placeholder_game(j));
            assert((j - 7) / 2 == r) by (nonlinear_arith)
                requires j == 7 + 2 * r + k / 2, 0 <= k < 4, 0 <= r;
        } else if 1 <= i < 3 {
            assert(plan[0] == placeholder_game(0));
        }
    } else {
        lemma_r64_games_slots(teams, pairs, 4 * pairs.len() as int);
        let m = i - 31;
        assert(plan[i] == tail[m]);
        let q = r64_slots(teams, pairs, 4 * pairs.len() as int)[m];
        lemma_r64_game_link(teams, pairs, q);
        let g = tail[m];
        let j = g.next_game->0 as int;
        assert(plan[j] == placeholder_game(j));
    }
}

/// No two games send their winners into the same slot of the same game.
pub proof fn lemma_bracket_slots_distinct(teams: Seq<SeededTeam>, pairs: Seq<(i64, i64)>, i1: int, i2: int)
    requires
        pairings_fit(teams, pairs),
        0 <= i1 < i2 < bracket_spec(teams, pairs).len(),
        bracket_spec(teams, pairs)[i1].next_game is Some,
        bracket_spec(teams, pairs)[i2].next_game is Some,
    ensures
        ({
            let plan = bracket_spec(teams, pairs);
            plan[i1].next_game != plan[i2].next_game || plan[i1].next_slot != plan[i2].next_slot
        }),
{
    let plan = bracket_spec(teams, pairs);
    let head = Seq::new(placeholder_count() as nat, |j: int| placeholder_game(j));
    let tail = r64_games(teams, pairs, 4 * pairs.len() as int);
    assert(plan == head + tail);
    let n = pairs.len() as int;
    if i2 < 31 {
        assert(plan[i1] == placeholder_game(i1));
        assert(plan[i2] == placeholder_game(i2));
        if 15 <= i1 {
            assert(0 <= (i1 - 15) / 4 < 4);
            assert(0 <= (i2 - 15) / 4 < 4);
            assert(i1 - 15 == 4 * ((i1 - 15) / 4) + (i1 - 15) % 4);
            assert(i2 - 15 == 4 * ((i2 - 15) / 4) + (i2 - 15) % 4);
        } else if 7 <= i1 {
            assert(i1 - 7 == 2 * ((i1 - 7) / 2) + (i1 - 7) % 2);
            if i2 < 15 {
                assert(i2 - 7 == 2 * ((i2 - 7) / 2) + (i2 - 7) % 2);
            }
        }
    } else if i1 < 31 {
        assert(plan[i1] == placeholder_game(i1));
        lemma_r64_games_slots(teams, pairs, 4 * n);
        let q2 = r64_slots(teams, pairs, 4 * n)[i2 - 31];
        lemma_r64_game_link(teams, pairs, q2);
        assert(plan[i2] == tail[i2 - 31]);
        if 15 <= i1 {
            assert(0 <= (i1 - 15) / 4 < 4);
        } else if 7 <= i1 {
            assert(0 <= (i1 - 7) / 2 < 4);
        } else if 3 <= i1 {
            assert(0 <= (i1 - 3) / 2 < 2);
        }
    } else {
        lemma_r64_games_slots(teams, pairs, 4 * n);
        let slots = r64_slots(teams, pairs, 4 * n);
        let q1 = slots[i1 - 31];
        let q2 = slots[i2 - 31];
        assert(q1 < q2);
        lemma_r64_game_link(teams, pairs, q1);
        lemma_r64_game_link(teams, pairs, q2);
        assert(plan[i1] == tail[i1 - 31]);
        assert(plan[i2] == tail[i2 - 31]);
        let r1 = q1 / n;
        let p1 = q1 % n;
        let r2 = q2 / n;
        let p2 = q2 % n;
        assert(q1 == n * r1 + p1 && q2 == n * r2 + p2) by (nonlinear_arith)
            requires r1 == q1 / n, p1 == q1 % n, r2 == q2 / n, p2 == q2 % n, n > 0;
        if r1 == r2 {
            assert(p1 != p2);
            assert(p1 == 2 * (p1 / 2) + p1 % 2);
            assert(p2 == 2 * (p2 / 2) + p2 % 2);
        }
    }
}


/// Every first-round slot of the field finds both of its seeds.
pub open spec fn field_complete(teams: Seq<SeededTeam>, pairs: Seq<(i64, i64)>) -> bool {
    forall|q: int|
        0 <= q < 4 * pairs.len() ==> #[trigger] r64_game(
            teams,
            pairs,
            q / (pairs.len() as int),
            q % (pairs.len() as int),
        ) is Some
}

/// With a complete field, the first-round games are stored one per slot.
pub proof fn lemma_r64_games_complete(teams: Seq<SeededTeam>, pairs: Seq<(i64, i64)>, k: int)
    requires
        pairs.len() > 0,
        0 <= k <= 4 * pairs.len(),
        field_complete(teams, pairs),
    ensures
        r64_games(teams, pairs, k).len() == k,
        forall|q: int|
            0 <= q < k ==> Some(#[trigger] r64_games(teams, pairs, k)[q]) == r64_game(
                teams,
                pairs,
                q / (pairs.len() as int),
                q % (pairs.len() as int),
            ),
    decreases k,
{
    if k > 0 {
        lemma_r64_games_complete(teams, pairs, k - 1);
        assert(r64_game(teams, pairs, (k - 1) / (pairs.len() as int), (k - 1) % (pairs.len() as int)) is Some);
    }
}

/// With a complete field of eight pairings per region, the bracket holds
/// 63 games, and each of the two slots of every game after the first round
/// is filled by the winner of exactly one game (the one returned): a winner
/// can be carried from any first-round game up to the championship.
pub proof fn lemma_bracket_feeders(teams: Seq<SeededTeam>, pairs: Seq<(i64, i64)>, j: int, s: int) -> (i: int)
    requires
        pairs.len() == 8,
        field_complete(teams, pairs),
        0 <= j < 31,
        s == 1 || s == 2,
    ensures
        bracket_spec(teams, pairs).len() == 63,
        0 <= i < 63,
        bracket_spec(teams, pairs)[i].next_game == Some(j as usize),
        bracket_spec(teams, pairs)[i].next_slot == Some(s as i64),
        forall|i2: int|
            0 <= i2 < 63 && bracket_spec(teams, pairs)[i2].next_game == Some(j as usize)
                && bracket_spec(teams, pairs)[i2].next_slot == Some(s as i64) ==> i2 == i,
{
    let plan = bracket_spec(teams, pairs);
    let head = Seq::new(placeholder_count() as nat, |x: int| placeholder_game(x));
    let tail = r64_games(teams, pairs, 32);
    assert(plan == head + tail);
    lemma_r64_games_complete(teams, pairs, 32);
    let i = if j == 0 {
        s
    } else if j < 3 {
        3 + 2 * (j - 1) + (s - 1)
    } else if j < 7 {
        7 + 2 * (j - 3) + (s - 1)
    } else if j < 15 {
        15 + 2 * (j - 7) + (s - 1)
    } else {
        31 + 2 * (j - 15) + (s - 1)
    };
    if i < 31 {
        assert(plan[i] == placeholder_game(i));
        if j >= 7 {
            assert((i - 15) / 4 == (j - 7) / 2 && (i - 15) % 4 == 2 * ((j - 7) % 2) + (s - 1));
        } else if j >= 3 {
            assert((i - 7) / 2 == j - 3 && (i - 7) % 2 == s - 1);
        }
    } else {
        let q = i - 31;
        assert(plan[i] == tail[q]);
        let t = j - 15;
        assert(q / 8 == t / 4 && q % 8 == 2 * (t % 4) + (s - 1)) by (nonlinear_arith)
            requires q == 2 * t + (s - 1), 0 <= t < 16, s == 1 || s == 2;
        lemma_r64_game_link(teams, pairs, q);
    }
    assert forall|i2: int|
        0 <= i2 < 63 && plan[i2].next_game == Some(j as usize) && plan[i2].next_slot == Some(
            s as i64,
        ) implies i2 == i by {
        if i2 != i {
            if i2 < i {
                lemma_bracket_slots_distinct(teams, pairs, i2, i);
            } else {
                lemma_bracket_slots_distinct(teams, pairs, i, i2);
            }
        }
    }
    i
}


// ─── Teams grouped by region ────────────────────────────────────────────────

/// The seed by which a team is listed; teams without a seed come last.
pub open spec fn listing_seed(t: Team) -> int {
    match t.seed {
        Some(s) => s as int,
        None => 99,
    }
}

/// The team's region is named `region`.
pub open spec fn team_in_region(t: Team, region: Seq<char>) -> bool {
    t.region matches Some(r) && r@ == region
}

/// Team `a` is listed before team `b`: a smaller listing seed, or the same
/// seed and an earlier position in the input (the order is stable).
pub open spec fn listed_before(teams: Seq<Team>, a: int, b: int) -> bool {
    ||| listing_seed(teams[a]) < listing_seed(teams[b])
    ||| (listing_seed(teams[a]) == listing_seed(teams[b]) && a < b)
}

/// `idx` lists the positions of exactly the teams of `region`, by seed and,
/// for equal seeds, in input order.
pub open spec fn is_region_listing(teams: Seq<Team>, region: Seq<char>, idx: Seq<int>) -> bool {
    &&& forall|k: int|
        0 <= k < idx.len() ==> 0 <= #[trigger] idx[k] < teams.len() && team_in_region(
            teams[idx[k]],
            region,
        )
    &&& forall|i: int| 0 <= i < teams.len() && team_in_region(teams[i], region) ==> #[trigger] idx.contains(i)
    &&& forall|a: int, b: int| 0 <= a < b < idx.len() ==> listed_before(teams, #[trigger] idx[a], #[trigger] idx[b])
}

/// There is only one listing of a region.
pub proof fn lemma_region_listing_unique(teams: Seq<Team>, region: Seq<char>, idx1: Seq<int>, idx2: Seq<int>)
    requires
        is_region_listing(teams, region, idx1),
        is_region_listing(teams, region, idx2),
    ensures
        idx1 == idx2,
{
    lemma_sorted_same_elements_equal(teams, idx1, idx2);
}

/// Two sequences sorted strictly by `listed_before` with the same elements are equal.
proof fn lemma_sorted_same_elements_equal(teams: Seq<Team>, s1: Seq<int>, s2: Seq<int>)
    requires
        forall|a: int, b: int| 0 <= a < b < s1.len() ==> listed_before(teams, #[trigger] s1[a], #[trigger] s1[b]),
        forall|a: int, b: int| 0 <= a < b < s2.len() ==> listed_before(teams, #[trigger] s2[a], #[trigger] s2[b]),
        forall|x: int| s1.contains(x) <==> s2.contains(x),
    ensures
        s1 == s2,
    decreases s1.len() + s2.len(),
{
    if s1.len() == 0 {
        if s2.len() > 0 {
            assert(s2.contains(s2[0]));
        }
        assert(s1 =~= s2);
    } else if s2.len() == 0 {
        assert(s1.contains(s1[0]));
    } else {
        assert(s1.contains(s1[0]));
        assert(s2.contains(s2[0]));
        let a = choose|a: int| 0 <= a < s1.len() && s1[a] == s2[0];
        let b = choose|b: int| 0 <= b < s2.len() && s2[b] == s1[0];
        if a > 0 {
            assert(listed_before(teams, s1[0], s1[a]));
            if b > 0 {
                assert(listed_before(teams, s2[0], s2[b]));
            }
        }
        assert(s1[0] == s2[0]);
        let t1 = s1.drop_first();
        let t2 = s2.drop_first();
        assert forall|x: int| t1.contains(x) implies t2.contains(x) by {
            let k = choose|k: int| 0 <= k < t1.len() && t1[k] == x;
            assert(listed_before(teams, s1[0], s1[k + 1]));
            assert(s2.contains(x));
            let m = choose|m: int| 0 <= m < s2.len() && s2[m] == x;
            if m == 0 {
                assert(listed_before(teams, x, x));
            }
            assert(t2[m - 1] == x);
        }
        assert forall|x: int| t2.contains(x) implies t1.contains(x) by {
            let k = choose|k: int| 0 <= k < t2.len() && t2[k] == x;
            assert(listed_before(teams, s2[0], s2[k + 1]));
            assert(s1.contains(x));
            let m = choose|m: int| 0 <= m < s1.len() && s1[m] == x;
            if m == 0 {
                assert(listed_before(teams, x, x));
            }
            assert(t1[m - 1] == x);
        }
        assert forall|a: int, b: int| 0 <= a < b < t1.len() implies listed_before(teams, #[trigger] t1[a], #[trigger] t1[b]) by {
            assert(listed_before(teams, s1[a + 1], s1[b + 1]));
        }
        assert forall|a: int, b: int| 0 <= a < b < t2.len() implies listed_before(teams, #[trigger] t2[a], #[trigger] t2[b]) by {
            assert(listed_before(teams, s2[a + 1], s2[b + 1]));
        }
        lemma_sorted_same_elements_equal(teams, t1, t2);
        assert(s1.len() == s2.len());
        assert forall|k: int| 0 <= k < s1.len() implies s1[k] == s2[k] by {
            if k > 0 {
                assert(s1[k] == t1[k - 1]);
                assert(s2[k] == t2[k - 1]);
            }
        }
        assert(s1 =~= s2);
    }
}

/// The seed by which a team is listed.
fn listing_seed_of(t: &Team) -> (res: i64)
    ensures
        res == listing_seed(*t),
{
    match t.seed {
        Some(s) => s,
        None => 99,
    }
}

/// Tells whether the team's region is named `region`.
pub fn in_region(t: &Team, region: &str) -> (res: bool)
    ensures
        res == team_in_region(*t, region@),
{
    match &t.region {
        Some(r) => str_eq(r.as_str(), region),
        None => false,
    }
}

/// Positions of the teams of `region`, by seed, stable.
pub fn region_listing(teams: &[Team], region: &str) -> (res: Vec<usize>)
    ensures
        is_region_listing(teams@, region@, res@.map_values(|i: usize| i as int)),
{
    let n = teams.len();
    let mut out: Vec<usize> = Vec::new();
    let mut k: usize = 0;
    while k < n
        invariant
            k <= n,
            n == teams@.len(),
            forall|j: int| 0 <= j < out@.len() ==> (#[trigger] out@[j] as int) < k && team_in_region(
                teams@[out@[j] as int],
                region@,
            ),
            forall|i: int|
                0 <= i < k && team_in_region(teams@[i], region@) ==> #[trigger] out@.contains(i as usize),
            forall|a: int, b: int|
                0 <= a < b < out@.len() ==> listed_before(teams@, #[trigger] out@[a] as int, #[trigger] out@[b] as int),
        decreases n - k,
    {
        if in_region(&teams[k], region) {
            let key = listing_seed_of(&teams[k]);
            let m = out.len();
            let mut pos: usize = 0;
            while pos < m && listing_seed_of(&teams[out[pos]]) <= key
                invariant
                    pos <= m,
                    m == out@.len(),
                    k < n,
                    n == teams@.len(),
                    key == listing_seed(teams@[k as int]),
                    forall|j: int| 0 <= j < out@.len() ==> (#[trigger] out@[j] as int) < k,
                    forall|j: int| 0 <= j < pos ==> listed_before(teams@, #[trigger] out@[j] as int, k as int),
                decreases m - pos,
            {
                pos = pos + 1;
            }
            proof {
                assert forall|j: int| pos <= j < m implies listed_before(teams@, k as int, #[trigger] out@[j] as int) by {
                    if pos < m {
                        assert(listing_seed(teams@[out@[pos as int] as int]) > key);
                        if j > pos {
                            assert(listed_before(teams@, out@[pos as int] as int, out@[j] as int));
                        }
                    }
                }
            }
            let ghost old_out = out@;
            out.insert(pos, k);
            proof {
                assert forall|j: int| 0 <= j < out@.len() implies (#[trigger] out@[j] as int) < k + 1 && team_in_region(
                    teams@[out@[j] as int],
                    region@,
                ) by {
                    if j < pos {
                        assert(out@[j] == old_out[j]);
                    } else if j > pos {
                        assert(out@[j] == old_out[j - 1]);
                    }
                }
                assert forall|i: int|
                    0 <= i < k + 1 && team_in_region(teams@[i], region@) implies #[trigger] out@.contains(i as usize) by {
                    if i < k {
                        assert(old_out.contains(i as usize));
                        let j = choose|j: int| 0 <= j < old_out.len() && old_out[j] == i as usize;
                        if j < pos {
                            assert(out@[j] == i as usize);
                        } else {
                            assert(out@[j + 1] == i as usize);
                        }
                    } else {
                        assert(out@[pos as int] == k);
                    }
                }
                assert forall|a: int, b: int|
                    0 <= a < b < out@.len() implies listed_before(teams@, #[trigger] out@[a] as int, #[trigger] out@[b] as int) by {
                    if b < pos {
                        assert(out@[a] == old_out[a] && out@[b] == old_out[b]);
                    } else if b == pos {
                        assert(out@[a] == old_out[a]);
                    } else if a < pos {
                        assert(out@[a] == old_out[a] && out@[b] == old_out[b - 1]);
                    } else if a == pos {
                        assert(out@[b] == old_out[b - 1]);
                    } else {
                        assert(out@[a] == old_out[a - 1] && out@[b] == old_out[b - 1]);
                    }
                }
            }
        } else {
            proof {
                assert forall|i: int|
                    0 <= i < k + 1 && team_in_region(teams@[i], region@) implies #[trigger] out@.contains(i as usize) by {
                }
            }
        }
        k = k + 1;
    }
    proof {
        let idx = out@.map_values(|i: usize| i as int);
        assert forall|i: int| 0 <= i < teams@.len() && team_in_region(teams@[i], region@) implies #[trigger] idx.contains(i) by {
            assert(out@.contains(i as usize));
            let j = choose|j: int| 0 <= j < out@.len() && out@[j] == i as usize;
            assert(idx[j] == i);
        }
    }
    out
}

/// `group` holds the teams at the positions `idx`, in that order.
pub open spec fn is_group_of(teams: Seq<Team>, idx: Seq<int>, group: Seq<&Team>) -> bool {
    &&& idx.len() == group.len()
    &&& forall|k: int| 0 <= k < idx.len() ==> *(#[trigger] group[k]) == teams[idx[k]]
}

/// `g` is the group of the `r`-th region: its name, and its teams listed by seed.
pub open spec fn is_region_group(teams: Seq<Team>, r: int, g: (String, Vec<&Team>)) -> bool {
    &&& g.0@ == region_label(region_at(r))
    &&& exists|idx: Seq<int>|
        #[trigger] is_region_listing(teams, region_label(region_at(r)), idx) && is_group_of(teams, idx, g.1@)
}

/// Returns teams grouped by region (East, West, South, Midwest), each group
/// sorted by seed (teams without a seed last, ties in input order), for
/// bracket display.
pub fn teams_by_region(teams: &[Team]) -> (res: Vec<(String, Vec<&Team>)>)
    ensures
        res@.len() == 4,
        forall|r: int| 0 <= r < 4 ==> is_region_group(teams@, r, #[trigger] res@[r]),
{
    let mut res: Vec<(String, Vec<&Team>)> = Vec::new();
    let mut r: usize = 0;
    while r < 4
        invariant
            r <= 4,
            res@.len() == r,
            forall|q: int| 0 <= q < r ==> is_region_group(teams@, q, #[trigger] res@[q]),
        decreases 4 - r,
    {
        let region = Region::from_index(r);
        let name = region.name();
        let listing = region_listing(teams, name);
        let ghost idx = listing@.map_values(|i: usize| i as int);
        let mut group: Vec<&Team> = Vec::new();
        let mut k: usize = 0;
        while k < listing.len()
            invariant
                k <= listing@.len(),
                idx == listing@.map_values(|i: usize| i as int),
                forall|j: int| 0 <= j < idx.len() ==> 0 <= #[trigger] idx[j] < teams@.len(),
                group@.len() == k,
                forall|j: int| 0 <= j < k ==> *(#[trigger] group@[j]) == teams@[idx[j]],
            decreases listing@.len() - k,
        {
            let i = listing[k];
            assert(idx[k as int] == i as int);
            group.push(&teams[i]);
            k = k + 1;
        }
        let ghost old_res = res@;
        res.push((String::from_str(name), group));
        proof {
            assert(res@[r as int].1@.len() == idx.len());
            assert(is_group_of(teams@, idx, res@[r as int].1@));
            assert(is_region_group(teams@, r as int, res@[r as int]));
            assert forall|q: int| 0 <= q < r + 1 implies is_region_group(teams@, q, #[trigger] res@[q]) by {
                if q < r {
                    assert(res@[q] == old_res[q]);
                }
            }
        }
        r = r + 1;
    }
    res
}


// ─── The 2026 bracket ───────────────────────────────────────────────────────

/// The search for a seed stops at the first team that matches.
pub proof fn lemma_first_seeded_at(teams: Seq<SeededTeam>, region: Region, seed: i64, start: int, t: int)
    requires
        0 <= start <= t < teams.len(),
        seeded_in(teams[t], region, seed),
        forall|j: int| start <= j < t ==> !seeded_in(#[trigger] teams[j], region, seed),
    ensures
        first_seeded_from(teams, region, seed, start) == Some(t),
    decreases t - start,
{
    if start < t {
        lemma_first_seeded_at(teams, region, seed, start + 1, t);
    }
}

/// The four regions have different names.
pub proof fn lemma_region_names()
    ensures
        forall|b1: int, b2: int|
            0 <= b1 < 4 && 0 <= b2 < 4 && b1 != b2 ==> #[trigger] region_label(region_at(b1)) != #[trigger] region_label(
                region_at(b2),
            ),
{
    reveal_strlit("East");
    reveal_strlit("West");
    reveal_strlit("South");
    reveal_strlit("Midwest");
    assert("East"@[0] != "West"@[0]);
    assert("South"@.len() != "East"@.len());
    assert("Midwest"@.len() != "East"@.len());
    assert("Midwest"@.len() != "South"@.len());
}

/// In the 2026 field, seed `s` of the `r`-th region is team `16 r + s - 1`.
pub proof fn lemma_field_2026_seed_position(r: int, s: i64)
    requires
        0 <= r < 4,
        1 <= s <= 16,
    ensures
        first_seeded(field_2026(), region_at(r), s) == Some(16 * r + s - 1),
{
    lemma_field_2026_layout();
    lemma_region_names();
    let f = field_2026();
    let t = 16 * r + s - 1;
    assert(t / 16 == r && t % 16 == s - 1) by (nonlinear_arith)
        requires t == 16 * r + s - 1, 1 <= s <= 16;
    assert(f[t].0 == s);
    assert forall|j: int| 0 <= j < t implies !seeded_in(#[trigger] f[j], region_at(r), s) by {
        assert(f[j].0 == j % 16 + 1);
        assert(f[j].1@ == region_label(region_at(j / 16)));
        if j / 16 == r {
            assert(j % 16 < s - 1) by (nonlinear_arith)
                requires j / 16 == r, t == 16 * r + s - 1, 0 <= j < t, 1 <= s <= 16;
        } else {
            assert(0 <= j / 16 < 4);
            assert(region_label(region_at(j / 16)) != region_label(region_at(r)));
        }
    }
    lemma_first_seeded_at(f, region_at(r), s, 0, t);
}

/// Every first-round slot of the 2026 bracket finds both of its teams.
pub proof fn lemma_field_2026_complete()
    ensures
        field_complete(field_2026(), pairings_spec()),
{
    let pairs = pairings_spec();
    assert(pairs.len() == 8);
    assert forall|q: int| 0 <= q < 4 * pairs.len() implies #[trigger] r64_game(
        field_2026(),
        pairs,
        q / (pairs.len() as int),
        q % (pairs.len() as int),
    ) is Some by {
        let r = q / 8;
        let p = q % 8;
        assert(0 <= r < 4 && 0 <= p < 8);
        assert(1 <= pairs[p].0 <= 16 && 1 <= pairs[p].1 <= 16);
        lemma_field_2026_seed_position(r, pairs[p].0);
        lemma_field_2026_seed_position(r, pairs[p].1);
    }
}

/// The 2026 bracket has 63 games, and each slot of every game after the
/// first round is filled by the winner of exactly one game.
pub proof fn lemma_bracket_2026(j: int, s: int) -> (i: int)
    requires
        0 <= j < 31,
        s == 1 || s == 2,
    ensures
        bracket_spec(field_2026(), pairings_spec()).len() == 63,
        0 <= i < 63,
        bracket_spec(field_2026(), pairings_spec())[i].next_game == Some(j as usize),
        bracket_spec(field_2026(), pairings_spec())[i].next_slot == Some(s as i64),
        forall|i2: int|
            0 <= i2 < 63 && bracket_spec(field_2026(), pairings_spec())[i2].next_game == Some(j as usize)
                && bracket_spec(field_2026(), pairings_spec())[i2].next_slot == Some(s as i64) ==> i2 == i,
{
    lemma_field_2026_complete();
    assert(pairings_spec().len() == 8);
    lemma_bracket_feeders(field_2026(), pairings_spec(), j, s)
}

} // verus!
