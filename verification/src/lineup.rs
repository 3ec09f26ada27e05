//! The teams of the 2026 field, seed line by seed line.
use vstd::prelude::*;
use crate::bracket::{
    first_seeded, first_seeded_from, lemma_field_2026_seed_position, lemma_first_seeded_at,
    lemma_region_names, region_at, region_label, seeded_in, Region,
};
use crate::seeds::{field_2026, lemma_field_2026_layout, SeededTeam};

verus! {

/// Name, abbreviation and ESPN id of the first team of `teams` listed in
/// `region` with `seed`.
pub open spec fn line_team(teams: Seq<SeededTeam>, region: Region, seed: i64) -> Option<(Seq<char>, Seq<char>, Seq<char>)> {
    match first_seeded(teams, region, seed) {
        Some(i) => Some((teams[i].2@, teams[i].3@, teams[i].4@)),
        None => None,
    }
}

/// Name, abbreviation and ESPN id of the team of `teams` that shares the
/// seed line (`region`, `seed`) with the first one: the other side of a
/// First Four game.
pub open spec fn play_in_team(teams: Seq<SeededTeam>, region: Region, seed: i64) -> Option<(Seq<char>, Seq<char>, Seq<char>)> {
    match first_seeded(teams, region, seed) {
        Some(i) => match first_seeded_from(teams, region, seed, i + 1) {
            Some(j) => Some((teams[j].2@, teams[j].3@, teams[j].4@)),
            None => None,
        },
        None => None,
    }
}

/// The 2026 East region, seed by seed.
pub proof fn lemma_field_2026_east()
    ensures
        line_team(field_2026(), Region::East, 1) == Some(("Duke"@, "DUKE"@, "150"@)),
        line_team(field_2026(), Region::East, 2) == Some(("Alabama"@, "ALA"@, "333"@)),
        line_team(field_2026(), Region::East, 3) == Some(("Wisconsin"@, "WIS"@, "275"@)),
        line_team(field_2026(), Region::East, 4) == Some(("Arizona"@, "ARIZ"@, "12"@)),
        line_team(field_2026(), Region::East, 5) == Some(("Oregon"@, "ORE"@, "2483"@)),
        line_team(field_2026(), Region::East, 6) == Some(("BYU"@, "BYU"@, "252"@)),
        line_team(field_2026(), Region::East, 7) == Some(("Saint Mary's"@, "SMC"@, "2608"@)),
        line_team(field_2026(), Region::East, 8) == Some(("Mississippi State"@, "MSST"@, "344"@)),
        line_team(field_2026(), Region::East, 9) == Some(("Baylor"@, "BAY"@, "239"@)),
        line_team(field_2026(), Region::East, 10) == Some(("New Mexico"@, "UNM"@, "167"@)),
        line_team(field_2026(), Region::East, 11) == Some(("VCU"@, "VCU"@, "2670"@)),
        line_team(field_2026(), Region::East, 12) == Some(("Colorado State"@, "CSU"@, "36"@)),
        line_team(field_2026(), Region::East, 13) == Some(("High Point"@, "HPU"@, "2272"@)),
        line_team(field_2026(), Region::East, 14) == Some(("Bryant"@, "BRY"@, "2825"@)),
        line_team(field_2026(), Region::East, 15) == Some(("Wofford"@, "WOF"@, "2749"@)),
        line_team(field_2026(), Region::East, 16) == Some(("American"@, "AMER"@, "44"@)),
{
    let f = field_2026();
    lemma_field_2026_seed_position(0, 1);
    assert(f[0] == (1i64, "East", "Duke", "DUKE", "150"));
    lemma_field_2026_seed_position(0, 2);
    assert(f[1] == (2i64, "East", "Alabama", "ALA", "333"));
    lemma_field_2026_seed_position(0, 3);
    assert(f[2] == (3i64, "East", "Wisconsin", "WIS", "275"));
    lemma_field_2026_seed_position(0, 4);
    assert(f[3] == (4i64, "East", "Arizona", "ARIZ", "12"));
    lemma_field_2026_seed_position(0, 5);
    assert(f[4] == (5i64, "East", "Oregon", "ORE", "2483"));
    lemma_field_2026_seed_position(0, 6);
    assert(f[5] == (6i64, "East", "BYU", "BYU", "252"));
    lemma_field_2026_seed_position(0, 7);
    assert(f[6] == (7i64, "East", "Saint Mary's", "SMC", "2608"));
    lemma_field_2026_seed_position(0, 8);
    assert(f[7] == (8i64, "East", "Mississippi State", "MSST", "344"));
    lemma_field_2026_seed_position(0, 9);
    assert(f[8] == (9i64, "East", "Baylor", "BAY", "239"));
    lemma_field_2026_seed_position(0, 10);
    assert(f[9] == (10i64, "East", "New Mexico", "UNM", "167"));
    lemma_field_2026_seed_position(0, 11);
    assert(f[10] == (11i64, "East", "VCU", "VCU", "2670"));
    lemma_field_2026_seed_position(0, 12);
    assert(f[11] == (12i64, "East", "Colorado State", "CSU", "36"));
    lemma_field_2026_seed_position(0, 13);
    assert(f[12] == (13i64, "East", "High Point", "HPU", "2272"));
    lemma_field_2026_seed_position(0, 14);
    assert(f[13] == (14i64, "East", "Bryant", "BRY", "2825"));
    lemma_field_2026_seed_position(0, 15);
    assert(f[14] == (15i64, "East", "Wofford", "WOF", "2749"));
    lemma_field_2026_seed_position(0, 16);
    assert(f[15] == (16i64, "East", "American", "AMER", "44"));
}

/// The 2026 West region, seed by seed.
pub proof fn lemma_field_2026_west()
    ensures
        line_team(field_2026(), Region::West, 1) == Some(("Kansas"@, "KAN"@, "2305"@)),
        line_team(field_2026(), Region::West, 2) == Some(("Michigan State"@, "MSU"@, "127"@)),
        line_team(field_2026(), Region::West, 3) == Some(("Texas A&M"@, "TAMU"@, "245"@)),
        line_team(field_2026(), Region::West, 4) == Some(("Purdue"@, "PUR"@, "2509"@)),
        line_team(field_2026(), Region::West, 5) == Some(("Memphis"@, "MEM"@, "235"@)),
        line_team(field_2026(), Region::West, 6) == Some(("Illinois"@, "ILL"@, "356"@)),
        line_team(field_2026(), Region::West, 7) == Some(("Clemson"@, "CLEM"@, "228"@)),
        line_team(field_2026(), Region::West, 8) == Some(("Texas"@, "TEX"@, "2641"@)),
        line_team(field_2026(), Region::West, 9) == Some(("Utah State"@, "USU"@, "328"@)),
        line_team(field_2026(), Region::West, 10) == Some(("Xavier"@, "XAV"@, "2752"@)),
        line_team(field_2026(), Region::West, 11) == Some(("Drake"@, "DRKE"@, "2181"@)),
        line_team(field_2026(), Region::West, 12) == Some(("UC San Diego"@, "UCSD"@, "2604"@)),
        line_team(field_2026(), Region::West, 13) == Some(("Akron"@, "AKR"@, "2006"@)),
        line_team(field_2026(), Region::West, 14) == Some(("Montana"@, "MONT"@, "149"@)),
        line_team(field_2026(), Region::West, 15) == Some(("Lipscomb"@, "LIP"@, "288"@)),
        line_team(field_2026(), Region::West, 16) == Some(("SIU Edwardsville"@, "SIUE"@, "2565"@)),
{
    let f = field_2026();
    lemma_field_2026_seed_position(1, 1);
    assert(f[16] == (1i64, "West", "Kansas", "KAN", "2305"));
    lemma_field_2026_seed_position(1, 2);
    assert(f[17] == (2i64, "West", "Michigan State", "MSU", "127"));
    lemma_field_2026_seed_position(1, 3);
    assert(f[18] == (3i64, "West", "Texas A&M", "TAMU", "245"));
    lemma_field_2026_seed_position(1, 4);
    assert(f[19] == (4i64, "West", "Purdue", "PUR", "2509"));
    lemma_field_2026_seed_position(1, 5);
    assert(f[20] == (5i64, "West", "Memphis", "MEM", "235"));
    lemma_field_2026_seed_position(1, 6);
    assert(f[21] == (6i64, "West", "Illinois", "ILL", "356"));
    lemma_field_2026_seed_position(1, 7);
    assert(f[22] == (7i64, "West", "Clemson", "CLEM", "228"));
    lemma_field_2026_seed_position(1, 8);
    assert(f[23] == (8i64, "West", "Texas", "TEX", "2641"));
    lemma_field_2026_seed_position(1, 9);
    assert(f[24] == (9i64, "West", "Utah State", "USU", "328"));
    lemma_field_2026_seed_position(1, 10);
    assert(f[25] == (10i64, "West", "Xavier", "XAV", "2752"));
    lemma_field_2026_seed_position(1, 11);
    assert(f[26] == (11i64, "West", "Drake", "DRKE", "2181"));
    lemma_field_2026_seed_position(1, 12);
    assert(f[27] == (12i64, "West", "UC San Diego", "UCSD", "2604"));
    lemma_field_2026_seed_position(1, 13);
    assert(f[28] == (13i64, "West", "Akron", "AKR", "2006"));
    lemma_field_2026_seed_position(1, 14);
    assert(f[29] == (14i64, "West", "Montana", "MONT", "149"));
    lemma_field_2026_seed_position(1, 15);
    assert(f[30] == (15i64, "West", "Lipscomb", "LIP", "288"));
    lemma_field_2026_seed_position(1, 16);
    assert(f[31] == (16i64, "West", "SIU Edwardsville", "SIUE", "2565"));
}

/// The 2026 South region, seed by seed.
pub proof fn lemma_field_2026_south()
    ensures
        line_team(field_2026(), Region::South, 1) == Some(("Tennessee"@, "TENN"@, "2633"@)),
        line_team(field_2026(), Region::South, 2) == Some(("Iowa State"@, "ISU"@, "66"@)),
        line_team(field_2026(), Region::South, 3) == Some(("Kentucky"@, "UK"@, "96"@)),
        line_team(field_2026(), Region::South, 4) == Some(("Florida"@, "FLA"@, "57"@)),
        line_team(field_2026(), Region::South, 5) == Some(("Missouri"@, "MIZ"@, "142"@)),
        line_team(field_2026(), Region::South, 6) == Some(("Marquette"@, "MARQ"@, "269"@)),
        line_team(field_2026(), Region::South, 7) == Some(("Gonzaga"@, "GONZ"@, "2250"@)),
        line_team(field_2026(), Region::South, 8) == Some(("Georgia"@, "UGA"@, "61"@)),
        line_team(field_2026(), Region::South, 9) == Some(("Oklahoma"@, "OU"@, "201"@)),
        line_team(field_2026(), Region::South, 10) == Some(("Arkansas"@, "ARK"@, "8"@)),
        line_team(field_2026(), Region::South, 11) == Some(("North Carolina"@, "UNC"@, "153"@)),
        line_team(field_2026(), Region::South, 12) == Some(("Liberty"@, "LIB"@, "2335"@)),
        line_team(field_2026(), Region::South, 13) == Some(("Yale"@, "YALE"@, "43"@)),
        line_team(field_2026(), Region::South, 14) == Some(("Vermont"@, "UVM"@, "261"@)),
        line_team(field_2026(), Region::South, 15) == Some(("Rider"@, "RID"@, "2520"@)),
        line_team(field_2026(), Region::South, 16) == Some(("Southern University"@, "SOU"@, "2582"@)),
{
    let f = field_2026();
    lemma_field_2026_seed_position(2, 1);
    assert(f[32] == (1i64, "South", "Tennessee", "TENN", "2633"));
    lemma_field_2026_seed_position(2, 2);
    assert(f[33] == (2i64, "South", "Iowa State", "ISU", "66"));
    lemma_field_2026_seed_position(2, 3);
    assert(f[34] == (3i64, "South", "Kentucky", "UK", "96"));
    lemma_field_2026_seed_position(2, 4);
    assert(f[35] == (4i64, "South", "Florida", "FLA", "57"));
    lemma_field_2026_seed_position(2, 5);
    assert(f[36] == (5i64, "South", "Missouri", "MIZ", "142"));
    lemma_field_2026_seed_position(2, 6);
    assert(f[37] == (6i64, "South", "Marquette", "MARQ", "269"));
    lemma_field_2026_seed_position(2, 7);
    assert(f[38] == (7i64, "South", "Gonzaga", "GONZ", "2250"));
    lemma_field_2026_seed_position(2, 8);
    assert(f[39] == (8i64, "South", "Georgia", "UGA", "61"));
    lemma_field_2026_seed_position(2, 9);
    assert(f[40] == (9i64, "South", "Oklahoma", "OU", "201"));
    lemma_field_2026_seed_position(2, 10);
    assert(f[41] == (10i64, "South", "Arkansas", "ARK", "8"));
    lemma_field_2026_seed_position(2, 11);
    assert(f[42] == (11i64, "South", "North Carolina", "UNC", "153"));
    lemma_field_2026_seed_position(2, 12);
    assert(f[43] == (12i64, "South", "Liberty", "LIB", "2335"));
    lemma_field_2026_seed_position(2, 13);
    assert(f[44] == (13i64, "South", "Yale", "YALE", "43"));
    lemma_field_2026_seed_position(2, 14);
    assert(f[45] == (14i64, "South", "Vermont", "UVM", "261"));
    lemma_field_2026_seed_position(2, 15);
    assert(f[46] == (15i64, "South", "Rider", "RID", "2520"));
    lemma_field_2026_seed_position(2, 16);
    assert(f[47] == (16i64, "South", "Southern University", "SOU", "2582"));
}

/// The 2026 Midwest region, seed by seed.
pub proof fn lemma_field_2026_midwest()
    ensures
        line_team(field_2026(), Region::Midwest, 1) == Some(("Auburn"@, "AUB"@, "2"@)),
        line_team(field_2026(), Region::Midwest, 2) == Some(("St. John's"@, "SJU"@, "2599"@)),
        line_team(field_2026(), Region::Midwest, 3) == Some(("UCLA"@, "UCLA"@, "26"@)),
        line_team(field_2026(), Region::Midwest, 4) == Some(("Maryland"@, "MD"@, "120"@)),
        line_team(field_2026(), Region::Midwest, 5) == Some(("Creighton"@, "CREI"@, "156"@)),
        line_team(field_2026(), Region::Midwest, 6) == Some(("Mississippi"@, "MISS"@, "145"@)),
        line_team(field_2026(), Region::Midwest, 7) == Some(("Cincinnati"@, "CIN"@, "2132"@)),
        line_team(field_2026(), Region::Midwest, 8) == Some(("Louisville"@, "LOU"@, "97"@)),
        line_team(field_2026(), Region::Midwest, 9) == Some(("Vanderbilt"@, "VAN"@, "238"@)),
        line_team(field_2026(), Region::Midwest, 10) == Some(("Nebraska"@, "NEB"@, "158"@)),
        line_team(field_2026(), Region::Midwest, 11) == Some(("UC Irvine"@, "UCI"@, "2955"@)),
        line_team(field_2026(), Region::Midwest, 12) == Some(("James Madison"@, "JMU"@, "256"@)),
        line_team(field_2026(), Region::Midwest, 13) == Some(("Furman"@, "FUR"@, "231"@)),
        line_team(field_2026(), Region::Midwest, 14) == Some(("South Dakota State"@, "SDST"@, "2571"@)),
        line_team(field_2026(), Region::Midwest, 15) == Some(("California Baptist"@, "CBU"@, "2856"@)),
        line_team(field_2026(), Region::Midwest, 16) == Some(("Queens"@, "QUEEN"@, "2858"@)),
{
    let f = field_2026();
    lemma_field_2026_seed_position(3, 1);
    assert(f[48] == (1i64, "Midwest", "Auburn", "AUB", "2"));
    lemma_field_2026_seed_position(3, 2);
    assert(f[49] == (2i64, "Midwest", "St. John's", "SJU", "2599"));
    lemma_field_2026_seed_position(3, 3);
    assert(f[50] == (3i64, "Midwest", "UCLA", "UCLA", "26"));
    lemma_field_2026_seed_position(3, 4);
    assert(f[51] == (4i64, "Midwest", "Maryland", "MD", "120"));
    lemma_field_2026_seed_position(3, 5);
    assert(f[52] == (5i64, "Midwest", "Creighton", "CREI", "156"));
    lemma_field_2026_seed_position(3, 6);
    assert(f[53] == (6i64, "Midwest", "Mississippi", "MISS", "145"));
    lemma_field_2026_seed_position(3, 7);
    assert(f[54] == (7i64, "Midwest", "Cincinnati", "CIN", "2132"));
    lemma_field_2026_seed_position(3, 8);
    assert(f[55] == (8i64, "Midwest", "Louisville", "LOU", "97"));
    lemma_field_2026_seed_position(3, 9);
    assert(f[56] == (9i64, "Midwest", "Vanderbilt", "VAN", "238"));
    lemma_field_2026_seed_position(3, 10);
    assert(f[57] == (10i64, "Midwest", "Nebraska", "NEB", "158"));
    lemma_field_2026_seed_position(3, 11);
    assert(f[58] == (11i64, "Midwest", "UC Irvine", "UCI", "2955"));
    lemma_field_2026_seed_position(3, 12);
    assert(f[59] == (12i64, "Midwest", "James Madison", "JMU", "256"));
    lemma_field_2026_seed_position(3, 13);
    assert(f[60] == (13i64, "Midwest", "Furman", "FUR", "231"));
    lemma_field_2026_seed_position(3, 14);
    assert(f[61] == (14i64, "Midwest", "South Dakota State", "SDST", "2571"));
    lemma_field_2026_seed_position(3, 15);
    assert(f[62] == (15i64, "Midwest", "California Baptist", "CBU", "2856"));
    lemma_field_2026_seed_position(3, 16);
    assert(f[63] == (16i64, "Midwest", "Queens", "QUEEN", "2858"));
}

/// The search for a seed finds nothing when no team from `start` on matches.
proof fn lemma_none_seeded_from(teams: Seq<SeededTeam>, region: Region, seed: i64, start: int)
    requires
        0 <= start,
        forall|j: int| start <= j < teams.len() ==> !seeded_in(#[trigger] teams[j], region, seed),
    ensures
        first_seeded_from(teams, region, seed, start) is None,
    decreases teams.len() - start,
{
    if start < teams.len() {
        lemma_none_seeded_from(teams, region, seed, start + 1);
    }
}

/// Whether (region `r`, `seed`) is one of the four seed lines that the
/// 2026 First Four decides: East 16, South 16, South 11 and Midwest 11.
pub open spec fn first_four_line(r: int, seed: i64) -> bool {
    (r == 0 && seed == 16) || (r == 2 && seed == 16) || (r == 2 && seed == 11) || (r == 3 && seed == 11)
}

/// The First Four of 2026: the four seed lines that have a second team,
/// who that team is, and that every other seed line has exactly one team.
pub proof fn lemma_field_2026_first_four()
    ensures
        play_in_team(field_2026(), Region::East, 16) == Some(("Mount St. Mary's"@, "MSM"@, ""@)),
        play_in_team(field_2026(), Region::South, 16) == Some(("Alabama State"@, "ALST"@, ""@)),
        play_in_team(field_2026(), Region::South, 11) == Some(("San Diego State"@, "SDSU"@, ""@)),
        play_in_team(field_2026(), Region::Midwest, 11) == Some(("Boise State"@, "BSU"@, ""@)),
        forall|r: int, seed: i64|
            0 <= r < 4 && 1 <= seed <= 16 && !first_four_line(r, seed) ==> #[trigger] play_in_team(
                field_2026(),
                region_at(r),
                seed,
            ) is None,
{
    lemma_field_2026_layout();
    lemma_region_names();
    let f = field_2026();
    assert(f[64] == (16i64, "East", "Mount St. Mary's", "MSM", ""));
    assert(f[65] == (16i64, "South", "Alabama State", "ALST", ""));
    assert(f[66] == (11i64, "South", "San Diego State", "SDSU", ""));
    assert(f[67] == (11i64, "Midwest", "Boise State", "BSU", ""));
    assert forall|r: int, seed: i64|
        0 <= r < 4 && 1 <= seed <= 16 && !first_four_line(r, seed) implies #[trigger] play_in_team(
            f,
            region_at(r),
            seed,
        ) is None by {
        lemma_field_2026_seed_position(r, seed);
        assert forall|j: int| 16 * r + seed <= j < f.len() implies !seeded_in(#[trigger] f[j], region_at(r), seed) by {
            if j >= 64 {
                assert(region_label(region_at(0)) != region_label(region_at(r)) || r == 0);
                assert(region_label(region_at(2)) != region_label(region_at(r)) || r == 2);
                assert(region_label(region_at(3)) != region_label(region_at(r)) || r == 3);
            } else {
                assert(f[j].0 == j % 16 + 1);
                assert(f[j].1@ == region_label(region_at(j / 16)));
                if j / 16 == r {
                    assert(j % 16 > seed - 1) by (nonlinear_arith)
                        requires j / 16 == r, 16 * r + seed <= j, 1 <= seed <= 16;
                } else {
                    assert(0 <= j / 16 < 4);
                }
            }
        }
        lemma_none_seeded_from(f, region_at(r), seed, 16 * r + seed);
    }
    // East 16: from position 16 on, the first East 16 is at 64.
    lemma_field_2026_seed_position(0, 16);
    lemma_first_seeded_at(f, region_at(0), 16, 16, 64);
    // South 16: from position 48 on, the first South 16 is at 65.
    lemma_field_2026_seed_position(2, 16);
    assert(region_label(region_at(0)) != region_label(region_at(2)));
    lemma_first_seeded_at(f, region_at(2), 16, 48, 65);
    // South 11: from position 43 on, the first South 11 is at 66.
    lemma_field_2026_seed_position(2, 11);
    lemma_first_seeded_at(f, region_at(2), 11, 43, 66);
    // Midwest 11: from position 59 on, the first Midwest 11 is at 67.
    lemma_field_2026_seed_position(3, 11);
    assert(region_label(region_at(0)) != region_label(region_at(3)));
    assert(region_label(region_at(2)) != region_label(region_at(3)));
    lemma_first_seeded_at(f, region_at(3), 11, 59, 67);
}

} // verus!
