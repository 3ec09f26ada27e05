//! The seeded field of the 2026 tournament and its first-round pairings.
use vstd::prelude::*;
use crate::bracket::{region_at, region_label};

verus! {

/// A seeded team: (seed, region, name, abbreviation, ESPN id).
pub type SeededTeam = (i64, &'static str, &'static str, &'static str, &'static str);

/// The 2026 field of 68 teams: region by region, seeds 1 to 16 in each,
/// then the four First Four teams (East 16, South 16, South 11, Midwest 11),
/// each of which shares its seed line with a team listed before it.
pub open spec fn field_2026() -> Seq<SeededTeam> {
    seq![
        (1i64, "East", "Duke", "DUKE", "150"),
        (2i64, "East", "Alabama", "ALA", "333"),
        (3i64, "East", "Wisconsin", "WIS", "275"),
        (4i64, "East", "Arizona", "ARIZ", "12"),
        (5i64, "East", "Oregon", "ORE", "2483"),
        (6i64, "East", "BYU", "BYU", "252"),
        (7i64, "East", "Saint Mary's", "SMC", "2608"),
        (8i64, "East", "Mississippi State", "MSST", "344"),
        (9i64, "East", "Baylor", "BAY", "239"),
        (10i64, "East", "New Mexico", "UNM", "167"),
        (11i64, "East", "VCU", "VCU", "2670"),
        (12i64, "East", "Colorado State", "CSU", "36"),
        (13i64, "East", "High Point", "HPU", "2272"),
        (14i64, "East", "Bryant", "BRY", "2825"),
        (15i64, "East", "Wofford", "WOF", "2749"),
        (16i64, "East", "American", "AMER", "44"),
        (1i64, "West", "Kansas", "KAN", "2305"),
        (2i64, "West", "Michigan State", "MSU", "127"),
        (3i64, "West", "Texas A&M", "TAMU", "245"),
        (4i64, "West", "Purdue", "PUR", "2509"),
        (5i64, "West", "Memphis", "MEM", "235"),
        (6i64, "West", "Illinois", "ILL", "356"),
        (7i64, "West", "Clemson", "CLEM", "228"),
        (8i64, "West", "Texas", "TEX", "2641"),
        (9i64, "West", "Utah State", "USU", "328"),
        (10i64, "West", "Xavier", "XAV", "2752"),
        (11i64, "West", "Drake", "DRKE", "2181"),
        (12i64, "West", "UC San Diego", "UCSD", "2604"),
        (13i64, "West", "Akron", "AKR", "2006"),
        (14i64, "West", "Montana", "MONT", "149"),
        (15i64, "West", "Lipscomb", "LIP", "288"),
        (16i64, "West", "SIU Edwardsville", "SIUE", "2565"),
        (1i64, "South", "Tennessee", "TENN", "2633"),
        (2i64, "South", "Iowa State", "ISU", "66"),
        (3i64, "South", "Kentucky", "UK", "96"),
        (4i64, "South", "Florida", "FLA", "57"),
        (5i64, "South", "Missouri", "MIZ", "142"),
        (6i64, "South", "Marquette", "MARQ", "269"),
        (7i64, "South", "Gonzaga", "GONZ", "2250"),
        (8i64, "South", "Georgia", "UGA", "61"),
        (9i64, "South", "Oklahoma", "OU", "201"),
        (10i64, "South", "Arkansas", "ARK", "8"),
        (11i64, "South", "North Carolina", "UNC", "153"),
        (12i64, "South", "Liberty", "LIB", "2335"),
        (13i64, "South", "Yale", "YALE", "43"),
        (14i64, "South", "Vermont", "UVM", "261"),
        (15i64, "South", "Rider", "RID", "2520"),
        (16i64, "South", "Southern University", "SOU", "2582"),
        (1i64, "Midwest", "Auburn", "AUB", "2"),
        (2i64, "Midwest", "St. John's", "SJU", "2599"),
        (3i64, "Midwest", "UCLA", "UCLA", "26"),
        (4i64, "Midwest", "Maryland", "MD", "120"),
        (5i64, "Midwest", "Creighton", "CREI", "156"),
        (6i64, "Midwest", "Mississippi", "MISS", "145"),
        (7i64, "Midwest", "Cincinnati", "CIN", "2132"),
        (8i64, "Midwest", "Louisville", "LOU", "97"),
        (9i64, "Midwest", "Vanderbilt", "VAN", "238"),
        (10i64, "Midwest", "Nebraska", "NEB", "158"),
        (11i64, "Midwest", "UC Irvine", "UCI", "2955"),
        (12i64, "Midwest", "James Madison", "JMU", "256"),
        (13i64, "Midwest", "Furman", "FUR", "231"),
        (14i64, "Midwest", "South Dakota State", "SDST", "2571"),
        (15i64, "Midwest", "California Baptist", "CBU", "2856"),
        (16i64, "Midwest", "Queens", "QUEEN", "2858"),
        (16i64, "East", "Mount St. Mary's", "MSM", ""),
        (16i64, "South", "Alabama State", "ALST", ""),
        (11i64, "South", "San Diego State", "SDSU", ""),
        (11i64, "Midwest", "Boise State", "BSU", "")
    ]
}

/// 2026 NCAA Tournament teams (all 68), as bracketed on March 15, 2026.
/// Duke is the #1 overall seed (East region).
/// Format: (seed, region, name, abbrev, espn_id); an ESPN id of "" means unknown.
pub fn teams_2026() -> (res: Vec<SeededTeam>)
    ensures
        res@ == field_2026(),
{
    let mut v: Vec<SeededTeam> = Vec::new();
    v.push((1, "East", "Duke", "DUKE", "150"));
    v.push((2, "East", "Alabama", "ALA", "333"));
    v.push((3, "East", "Wisconsin", "WIS", "275"));
    v.push((4, "East", "Arizona", "ARIZ", "12"));
    v.push((5, "East", "Oregon", "ORE", "2483"));
    v.push((6, "East", "BYU", "BYU", "252"));
    v.push((7, "East", "Saint Mary's", "SMC", "2608"));
    v.push((8, "East", "Mississippi State", "MSST", "344"));
    v.push((9, "East", "Baylor", "BAY", "239"));
    v.push((10, "East", "New Mexico", "UNM", "167"));
    v.push((11, "East", "VCU", "VCU", "2670"));
    v.push((12, "East", "Colorado State", "CSU", "36"));
    v.push((13, "East", "High Point", "HPU", "2272"));
    v.push((14, "East", "Bryant", "BRY", "2825"));
    v.push((15, "East", "Wofford", "WOF", "2749"));
    v.push((16, "East", "American", "AMER", "44"));
    v.push((1, "West", "Kansas", "KAN", "2305"));
    v.push((2, "West", "Michigan State", "MSU", "127"));
    v.push((3, "West", "Texas A&M", "TAMU", "245"));
    v.push((4, "West", "Purdue", "PUR", "2509"));
    v.push((5, "West", "Memphis", "MEM", "235"));
    v.push((6, "West", "Illinois", "ILL", "356"));
    v.push((7, "West", "Clemson", "CLEM", "228"));
    v.push((8, "West", "Texas", "TEX", "2641"));
    v.push((9, "West", "Utah State", "USU", "328"));
    v.push((10, "West", "Xavier", "XAV", "2752"));
    v.push((11, "West", "Drake", "DRKE", "2181"));
    v.push((12, "West", "UC San Diego", "UCSD", "2604"));
    v.push((13, "West", "Akron", "AKR", "2006"));
    v.push((14, "West", "Montana", "MONT", "149"));
    v.push((15, "West", "Lipscomb", "LIP", "288"));
    v.push((16, "West", "SIU Edwardsville", "SIUE", "2565"));
    v.push((1, "South", "Tennessee", "TENN", "2633"));
    v.push((2, "South", "Iowa State", "ISU", "66"));
    v.push((3, "South", "Kentucky", "UK", "96"));
    v.push((4, "South", "Florida", "FLA", "57"));
    v.push((5, "South", "Missouri", "MIZ", "142"));
    v.push((6, "South", "Marquette", "MARQ", "269"));
    v.push((7, "South", "Gonzaga", "GONZ", "2250"));
    v.push((8, "South", "Georgia", "UGA", "61"));
    v.push((9, "South", "Oklahoma", "OU", "201"));
    v.push((10, "South", "Arkansas", "ARK", "8"));
    v.push((11, "South", "North Carolina", "UNC", "153"));
    v.push((12, "South", "Liberty", "LIB", "2335"));
    v.push((13, "South", "Yale", "YALE", "43"));
    v.push((14, "South", "Vermont", "UVM", "261"));
    v.push((15, "South", "Rider", "RID", "2520"));
    v.push((16, "South", "Southern University", "SOU", "2582"));
    v.push((1, "Midwest", "Auburn", "AUB", "2"));
    v.push((2, "Midwest", "St. John's", "SJU", "2599"));
    v.push((3, "Midwest", "UCLA", "UCLA", "26"));
    v.push((4, "Midwest", "Maryland", "MD", "120"));
    v.push((5, "Midwest", "Creighton", "CREI", "156"));
    v.push((6, "Midwest", "Mississippi", "MISS", "145"));
    v.push((7, "Midwest", "Cincinnati", "CIN", "2132"));
    v.push((8, "Midwest", "Louisville", "LOU", "97"));
    v.push((9, "Midwest", "Vanderbilt", "VAN", "238"));
    v.push((10, "Midwest", "Nebraska", "NEB", "158"));
    v.push((11, "Midwest", "UC Irvine", "UCI", "2955"));
    v.push((12, "Midwest", "James Madison", "JMU", "256"));
    v.push((13, "Midwest", "Furman", "FUR", "231"));
    v.push((14, "Midwest", "South Dakota State", "SDST", "2571"));
    v.push((15, "Midwest", "California Baptist", "CBU", "2856"));
    v.push((16, "Midwest", "Queens", "QUEEN", "2858"));
    // First Four: each plays its region's team of the same seed for a
    // first-round place; ESPN ids unknown.
    v.push((16, "East", "Mount St. Mary's", "MSM", ""));
    v.push((16, "South", "Alabama State", "ALST", ""));
    v.push((11, "South", "San Diego State", "SDSU", ""));
    v.push((11, "Midwest", "Boise State", "BSU", ""));
    assert(v@ =~= field_2026());
    v
}

/// Standard first-round seed pairings: (higher seed, lower seed).
pub open spec fn pairings_spec() -> Seq<(i64, i64)> {
    seq![(1i64, 16i64), (8, 9), (5, 12), (4, 13), (6, 11), (3, 14), (7, 10), (2, 15)]
}

/// Standard seed pairings in the Round of 64 (1v16, 2v15, … 8v9),
/// as (higher_seed, lower_seed) pairs in bracket order.
pub fn r64_pairings() -> (res: Vec<(i64, i64)>)
    ensures
        res@ == pairings_spec(),
{
    let mut v: Vec<(i64, i64)> = Vec::new();
    v.push((1, 16));
    v.push((8, 9));
    v.push((5, 12));
    v.push((4, 13));
    v.push((6, 11));
    v.push((3, 14));
    v.push((7, 10));
    v.push((2, 15));
    assert(v@ =~= pairings_spec());
    v
}


// ─── Layout of the 2026 field ───────────────────────────────────────────────

/// The 2026 field holds 68 teams. Its first 64 list each region in turn
/// (East, West, South, Midwest), and within a region the seeds 1 to 16 in
/// order: every region holds every seed, and the first team of each seed
/// line is the one listed there. The last four are the First Four teams:
/// an East 16, a South 16, a South 11 and a Midwest 11.
#[verifier::rlimit(100)]
#[verifier::spinoff_prover]
pub proof fn lemma_field_2026_layout()
    ensures
        field_2026().len() == 68,
        field_2026()[64].0 == 16 && field_2026()[64].1@ == region_label(region_at(0)),
        field_2026()[65].0 == 16 && field_2026()[65].1@ == region_label(region_at(2)),
        field_2026()[66].0 == 11 && field_2026()[66].1@ == region_label(region_at(2)),
        field_2026()[67].0 == 11 && field_2026()[67].1@ == region_label(region_at(3)),
        forall|i: int|
            0 <= i < 64 ==> (#[trigger] field_2026()[i]).0 == i % 16 + 1 && field_2026()[i].1@
                == region_label(region_at(i / 16)),
{
    let f = field_2026();
    assert(f.len() == 68);
    assert(f[64].0 == 16 && f[64].1 == "East");
    assert(f[65].0 == 16 && f[65].1 == "South");
    assert(f[66].0 == 11 && f[66].1 == "South");
    assert(f[67].0 == 11 && f[67].1 == "Midwest");
    assert forall|i: int| 0 <= i < 64 implies (#[trigger] field_2026()[i]).0 == i % 16 + 1 && field_2026()[i].1@
        == region_label(region_at(i / 16)) by {
        if i == 0 {
            assert(f[0].0 == 1 && f[0].1 == "East");
        } else if i == 1 {
            assert(f[1].0 == 2 && f[1].1 == "East");
        } else if i == 2 {
            assert(f[2].0 == 3 && f[2].1 == "East");
        } else if i == 3 {
            assert(f[3].0 == 4 && f[3].1 == "East");
        } else if i == 4 {
            assert(f[4].0 == 5 && f[4].1 == "East");
        } else if i == 5 {
            assert(f[5].0 == 6 && f[5].1 == "East");
        } else if i == 6 {
            assert(f[6].0 == 7 && f[6].1 == "East");
        } else if i == 7 {
            assert(f[7].0 == 8 && f[7].1 == "East");
        } else if i == 8 {
            assert(f[8].0 == 9 && f[8].1 == "East");
        } else if i == 9 {
            assert(f[9].0 == 10 && f[9].1 == "East");
        } else if i == 10 {
            assert(f[10].0 == 11 && f[10].1 == "East");
        } else if i == 11 {
            assert(f[11].0 == 12 && f[11].1 == "East");
        } else if i == 12 {
            assert(f[12].0 == 13 && f[12].1 == "East");
        } else if i == 13 {
            assert(f[13].0 == 14 && f[13].1 == "East");
        } else if i == 14 {
            assert(f[14].0 == 15 && f[14].1 == "East");
        } else if i == 15 {
            assert(f[15].0 == 16 && f[15].1 == "East");
        } else if i == 16 {
            assert(f[16].0 == 1 && f[16].1 == "West");
        } else if i == 17 {
            assert(f[17].0 == 2 && f[17].1 == "West");
        } else if i == 18 {
            assert(f[18].0 == 3 && f[18].1 == "West");
        } else if i == 19 {
            assert(f[19].0 == 4 && f[19].1 == "West");
        } else if i == 20 {
            assert(f[20].0 == 5 && f[20].1 == "West");
        } else if i == 21 {
            assert(f[21].0 == 6 && f[21].1 == "West");
        } else if i == 22 {
            assert(f[22].0 == 7 && f[22].1 == "West");
        } else if i == 23 {
            assert(f[23].0 == 8 && f[23].1 == "West");
        } else if i == 24 {
            assert(f[24].0 == 9 && f[24].1 == "West");
        } else if i == 25 {
            assert(f[25].0 == 10 && f[25].1 == "West");
        } else if i == 26 {
            assert(f[26].0 == 11 && f[26].1 == "West");
        } else if i == 27 {
            assert(f[27].0 == 12 && f[27].1 == "West");
        } else if i == 28 {
            assert(f[28].0 == 13 && f[28].1 == "West");
        } else if i == 29 {
            assert(f[29].0 == 14 && f[29].1 == "West");
        } else if i == 30 {
            assert(f[30].0 == 15 && f[30].1 == "West");
        } else if i == 31 {
            assert(f[31].0 == 16 && f[31].1 == "West");
        } else if i == 32 {
            assert(f[32].0 == 1 && f[32].1 == "South");
        } else if i == 33 {
            assert(f[33].0 == 2 && f[33].1 == "South");
        } else if i == 34 {
            assert(f[34].0 == 3 && f[34].1 == "South");
        } else if i == 35 {
            assert(f[35].0 == 4 && f[35].1 == "South");
        } else if i == 36 {
            assert(f[36].0 == 5 && f[36].1 == "South");
        } else if i == 37 {
            assert(f[37].0 == 6 && f[37].1 == "South");
        } else if i == 38 {
            assert(f[38].0 == 7 && f[38].1 == "South");
        } else if i == 39 {
            assert(f[39].0 == 8 && f[39].1 == "South");
        } else if i == 40 {
            assert(f[40].0 == 9 && f[40].1 == "South");
        } else if i == 41 {
            assert(f[41].0 == 10 && f[41].1 == "South");
        } else if i == 42 {
            assert(f[42].0 == 11 && f[42].1 == "South");
        } else if i == 43 {
            assert(f[43].0 == 12 && f[43].1 == "South");
        } else if i == 44 {
            assert(f[44].0 == 13 && f[44].1 == "South");
        } else if i == 45 {
            assert(f[45].0 == 14 && f[45].1 == "South");
        } else if i == 46 {
            assert(f[46].0 == 15 && f[46].1 == "South");
        } else if i == 47 {
            assert(f[47].0 == 16 && f[47].1 == "South");
        } else if i == 48 {
            assert(f[48].0 == 1 && f[48].1 == "Midwest");
        } else if i == 49 {
            assert(f[49].0 == 2 && f[49].1 == "Midwest");
        } else if i == 50 {
            assert(f[50].0 == 3 && f[50].1 == "Midwest");
        } else if i == 51 {
            assert(f[51].0 == 4 && f[51].1 == "Midwest");
        } else if i == 52 {
            assert(f[52].0 == 5 && f[52].1 == "Midwest");
        } else if i == 53 {
            assert(f[53].0 == 6 && f[53].1 == "Midwest");
        } else if i == 54 {
            assert(f[54].0 == 7 && f[54].1 == "Midwest");
        } else if i == 55 {
            assert(f[55].0 == 8 && f[55].1 == "Midwest");
        } else if i == 56 {
            assert(f[56].0 == 9 && f[56].1 == "Midwest");
        } else if i == 57 {
            assert(f[57].0 == 10 && f[57].1 == "Midwest");
        } else if i == 58 {
            assert(f[58].0 == 11 && f[58].1 == "Midwest");
        } else if i == 59 {
            assert(f[59].0 == 12 && f[59].1 == "Midwest");
        } else if i == 60 {
            assert(f[60].0 == 13 && f[60].1 == "Midwest");
        } else if i == 61 {
            assert(f[61].0 == 14 && f[61].1 == "Midwest");
        } else if i == 62 {
            assert(f[62].0 == 15 && f[62].1 == "Midwest");
        } else if i == 63 {
            assert(f[63].0 == 16 && f[63].1 == "Midwest");
        }
    }
}

} // verus!
