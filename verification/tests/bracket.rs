use madness::bracket::{bracket_plan, find_seeded, teams_by_region, PlannedGame, Region};
use madness::models::Team;
use madness::seeds::{r64_pairings, teams_2026};

#[test]
fn field_has_68_teams_with_every_seed_in_every_region() {
    let teams = teams_2026();
    assert_eq!(teams.len(), 68);
    for (block, region) in ["East", "West", "South", "Midwest"].iter().enumerate() {
        let first: Vec<i64> = teams[16 * block..16 * block + 16].iter().map(|t| t.0).collect();
        assert_eq!(first, (1..=16).collect::<Vec<i64>>(), "region {}", region);
        assert!(teams[16 * block..16 * block + 16].iter().all(|t| t.1 == *region));
    }
    let first_four: Vec<(i64, &str)> = teams[64..].iter().map(|t| (t.0, t.1)).collect();
    assert_eq!(first_four, vec![(16, "East"), (16, "South"), (11, "South"), (11, "Midwest")]);
    let mut names: Vec<&str> = teams.iter().map(|t| t.2).collect();
    names.sort();
    names.dedup();
    assert_eq!(names.len(), 68);
    assert_eq!(teams[0], (1, "East", "Duke", "DUKE", "150"));
    assert_eq!(teams[63], (16, "Midwest", "Queens", "QUEEN", "2858"));
}

#[test]
fn pairings_match_seeds_summing_to_seventeen() {
    let pairs = r64_pairings();
    assert_eq!(pairs, vec![(1, 16), (8, 9), (5, 12), (4, 13), (6, 11), (3, 14), (7, 10), (2, 15)]);
    let mut seen: Vec<i64> = pairs.iter().flat_map(|p| [p.0, p.1]).collect();
    seen.sort();
    assert_eq!(seen, (1..=16).collect::<Vec<i64>>());
    assert!(pairs.iter().all(|p| p.0 + p.1 == 17 && p.0 < p.1));
}

#[test]
fn full_bracket_has_63_games() {
    let plan = bracket_plan(&teams_2026(), &r64_pairings());
    assert_eq!(plan.len(), 63);
    let mut per_round = [0usize; 7];
    for g in &plan {
        per_round[g.round as usize] += 1;
    }
    assert_eq!(per_round, [0, 32, 16, 8, 4, 2, 1]);
}

#[test]
fn every_winner_advances_to_an_earlier_game_of_the_next_round() {
    let plan = bracket_plan(&teams_2026(), &r64_pairings());
    for (i, g) in plan.iter().enumerate() {
        match g.next_game {
            None => {
                assert_eq!(g.round, 6);
                assert_eq!(i, 0);
            }
            Some(j) => {
                assert!(j < i);
                assert_eq!(plan[j].round, g.round + 1);
                assert!(g.next_slot == Some(1) || g.next_slot == Some(2));
                if plan[j].round <= 4 {
                    assert_eq!(plan[j].region, g.region);
                }
            }
        }
    }
}

#[test]
fn every_later_slot_is_filled_by_exactly_one_game() {
    let plan = bracket_plan(&teams_2026(), &r64_pairings());
    for j in 0..31 {
        for s in [1i64, 2] {
            let feeders = plan
                .iter()
                .filter(|g| g.next_game == Some(j) && g.next_slot == Some(s))
                .count();
            assert_eq!(feeders, 1, "game {} slot {}", j, s);
        }
    }
}

#[test]
fn storage_order_follows_the_bracket() {
    let plan = bracket_plan(&teams_2026(), &r64_pairings());
    assert_eq!(plan[0], PlannedGame { round: 6, region: None, next_game: None, next_slot: None, teams: None });
    assert_eq!(plan[2].next_slot, Some(2));
    // East and West meet in the first semifinal, South and Midwest in the second.
    assert_eq!((plan[3].region, plan[3].next_game, plan[3].next_slot), (Some(Region::East), Some(1), Some(1)));
    assert_eq!((plan[4].region, plan[4].next_game, plan[4].next_slot), (Some(Region::West), Some(1), Some(2)));
    assert_eq!((plan[5].region, plan[5].next_game, plan[5].next_slot), (Some(Region::South), Some(2), Some(1)));
    assert_eq!((plan[6].region, plan[6].next_game, plan[6].next_slot), (Some(Region::Midwest), Some(2), Some(2)));
    // First East game: Duke (1) against American (16), into slot 1 of the first East second-round game.
    let teams = teams_2026();
    let first = plan[31];
    assert_eq!(first.round, 1);
    assert_eq!(first.region, Some(Region::East));
    assert_eq!(first.next_game, Some(15));
    assert_eq!(first.next_slot, Some(1));
    let (a, b) = first.teams.unwrap();
    assert_eq!(teams[a].2, "Duke");
    assert_eq!(teams[b].2, "American");
    // Second East game: 8 against 9, slot 2 of the same game.
    let second = plan[32];
    let (a, b) = second.teams.unwrap();
    assert_eq!((teams[a].0, teams[b].0), (8, 9));
    assert_eq!((second.next_game, second.next_slot), (Some(15), Some(2)));
    // Last game: Midwest 2 against 15.
    let last = plan[62];
    let (a, b) = last.teams.unwrap();
    assert_eq!((teams[a].2, teams[b].2), ("St. John's", "California Baptist"));
    assert_eq!((last.next_game, last.next_slot), (Some(30), Some(2)));
}

#[test]
fn missing_seed_drops_its_game() {
    let mut teams = teams_2026();
    teams.retain(|t| !(t.1 == "South" && t.0 == 12));
    let plan = bracket_plan(&teams, &r64_pairings());
    assert_eq!(plan.len(), 62);
    assert!(plan.iter().all(|g| g.teams.map_or(true, |(a, b)| teams[a].1 == teams[b].1)));
}

#[test]
fn find_seeded_takes_the_first_match() {
    let teams = vec![(3, "East", "A", "A", "1"), (3, "West", "B", "B", "2"), (3, "West", "C", "C", "3")];
    assert_eq!(find_seeded(&teams, Region::West, 3), Some(1));
    assert_eq!(find_seeded(&teams, Region::South, 3), None);
    assert_eq!(find_seeded(&teams, Region::East, 4), None);
}

fn team(id: i64, name: &str, seed: Option<i64>, region: Option<&str>) -> Team {
    Team {
        id,
        name: name.to_string(),
        abbrev: None,
        seed,
        region: region.map(|s| s.to_string()),
        conference: None,
        espn_id: None,
    }
}

#[test]
fn teams_grouped_by_region_and_sorted_by_seed() {
    let teams = vec![
        team(1, "e5", Some(5), Some("East")),
        team(2, "w1", Some(1), Some("West")),
        team(3, "e1", Some(1), Some("East")),
        team(4, "e-none", None, Some("East")),
        team(5, "e5b", Some(5), Some("East")),
        team(6, "nowhere", Some(1), None),
        team(7, "e100", Some(100), Some("East")),
        team(8, "lower", Some(2), Some("east")),
    ];
    let groups = teams_by_region(&teams);
    let names: Vec<(String, Vec<&str>)> =
        groups.iter().map(|(r, ts)| (r.clone(), ts.iter().map(|t| t.name.as_str()).collect())).collect();
    assert_eq!(
        names,
        vec![
            ("East".to_string(), vec!["e1", "e5", "e5b", "e-none", "e100"]),
            ("West".to_string(), vec!["w1"]),
            ("South".to_string(), vec![]),
            ("Midwest".to_string(), vec![]),
        ]
    );
}

#[test]
fn region_names() {
    assert_eq!(Region::East.name(), "East");
    assert_eq!(Region::West.name(), "West");
    assert_eq!(Region::South.name(), "South");
    assert_eq!(Region::Midwest.name(), "Midwest");
    assert_eq!(Region::from_index(2), Region::South);
}

#[test]
fn extra_pairing_without_teams_adds_no_game() {
    let mut pairs = r64_pairings();
    pairs.push((17, 18));
    let plan = bracket_plan(&teams_2026(), &pairs);
    assert_eq!(plan.len(), 63);
    assert!(plan.iter().all(|g| g.next_game.map_or(true, |j| j < 31)));
}
