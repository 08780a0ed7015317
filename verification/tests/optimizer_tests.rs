use hsr_optimizer_engine::models::{RelicConfig, Settings};
use hsr_optimizer_engine::optimizer::{
    compare_outcomes, default_relic_config, effective_max_cycles, initial_genome, plan_search,
    propose_neighbor, simulations_count, simulations_count_fits, swap_candidates, JointGenome, MainStatCombo, MoveKind, Outcome,
    SearchPlan, SetCombo, Verdict,
};
use rand::rngs::SmallRng;
use rand::SeedableRng;

fn check_default(cfg: &RelicConfig, sphere: &str) {
    assert_eq!(cfg.relic_set, "Pioneer 4p");
    assert_eq!(cfg.ornament_set, "broken_keel_2p");
    assert_eq!(cfg.body_main, "crit_dmg");
    assert_eq!(cfg.feet_main, "speed");
    assert_eq!(cfg.sphere_main, sphere);
    assert_eq!(cfg.rope_main, "atk_percent");
}

#[test]
fn default_relics_match_element() {
    check_default(&default_relic_config("Physical"), "physical_dmg");
    check_default(&default_relic_config("Fire"), "fire_dmg");
    check_default(&default_relic_config("Ice"), "ice_dmg");
    check_default(&default_relic_config("Lightning"), "lightning_dmg");
    check_default(&default_relic_config("Wind"), "wind_dmg");
    check_default(&default_relic_config("Quantum"), "quantum_dmg");
    check_default(&default_relic_config("Imaginary"), "imaginary_dmg");
    check_default(&default_relic_config("Unknown"), "atk_percent");
    check_default(&default_relic_config(""), "atk_percent");
}

#[test]
fn outcomes_rank_survival_then_cycles() {
    let win3 = Outcome { is_defeated: false, cycles_taken: 3 };
    let win5 = Outcome { is_defeated: false, cycles_taken: 5 };
    let lose1 = Outcome { is_defeated: true, cycles_taken: 1 };
    assert_eq!(compare_outcomes(&lose1, &win5), Verdict::ChallengerBetter);
    assert_eq!(compare_outcomes(&win5, &lose1), Verdict::IncumbentBetter);
    assert_eq!(compare_outcomes(&win5, &win3), Verdict::ChallengerBetter);
    assert_eq!(compare_outcomes(&win3, &win5), Verdict::IncumbentBetter);
    assert_eq!(compare_outcomes(&win3, &win3), Verdict::Tie);
    let sentinel = Outcome { is_defeated: true, cycles_taken: i32::MAX };
    assert_eq!(compare_outcomes(&sentinel, &lose1), Verdict::ChallengerBetter);
}

#[test]
fn max_cycles_defaults_to_five() {
    assert_eq!(effective_max_cycles(&None), 5);
    assert_eq!(effective_max_cycles(&Some(Settings { max_cycles: None, has_castorice: None })), 5);
    assert_eq!(effective_max_cycles(&Some(Settings { max_cycles: Some(8), has_castorice: Some(true) })), 8);
}

#[test]
fn search_plan_switches_to_annealing_above_threshold() {
    assert_eq!(plan_search(3), SearchPlan { team_size: 3, total_combos: 1, exhaustive: true });
    assert_eq!(plan_search(0), SearchPlan { team_size: 0, total_combos: 1, exhaustive: true });
    assert_eq!(plan_search(16), SearchPlan { team_size: 4, total_combos: 1820, exhaustive: true });
    assert_eq!(plan_search(26), SearchPlan { team_size: 4, total_combos: 14950, exhaustive: true });
    assert_eq!(plan_search(27), SearchPlan { team_size: 4, total_combos: 17550, exhaustive: false });
}

#[test]
fn simulation_counts() {
    let ex = plan_search(16);
    assert_eq!(simulations_count(&ex, 4, 3047), 1820 + 4 * 2 * 3047);
    let sa = plan_search(40);
    assert_eq!(simulations_count(&sa, 4, 3047), 40_000 + 4 * 3047);
}

#[test]
fn simulation_counts_that_overflow_are_caught() {
    let ex = plan_search(16);
    assert!(simulations_count_fits(&ex, 4, 3047));
    assert!(!simulations_count_fits(&ex, usize::MAX, 1));
    assert!(!simulations_count_fits(&ex, 4, usize::MAX / 4));
    let sa = plan_search(40);
    assert!(simulations_count_fits(&sa, 4, 3047));
    assert!(!simulations_count_fits(&sa, 2, usize::MAX / 2));
}

#[test]
fn swap_candidates_are_outsiders() {
    assert_eq!(swap_candidates(6, &vec![4, 1, 2]), vec![0, 3, 5]);
    assert_eq!(swap_candidates(3, &vec![0, 1, 2]), Vec::<usize>::new());
}

fn attrs(n: usize) -> Vec<Option<String>> {
    let names = ["Fire", "Ice", "Wind", "Quantum", "Imaginary", "Physical", "Lightning"];
    (0..n).map(|i| if i % 3 == 0 { None } else { Some(names[i % names.len()].to_string()) }).collect()
}

fn assert_distinct_in_pool(g: &JointGenome, n: usize) {
    for (i, a) in g.char_idxs.iter().enumerate() {
        assert!(*a < n);
        for b in &g.char_idxs[i + 1..] {
            assert_ne!(a, b);
        }
    }
    assert_eq!(g.char_idxs.len(), g.relic_configs.len());
}

#[test]
fn initial_team_is_distinct_with_default_relics() {
    for seed in 0..20u64 {
        let mut rng = SmallRng::seed_from_u64(seed);
        let a = attrs(9);
        let g = initial_genome(&mut rng, &a, 4);
        assert_eq!(g.char_idxs.len(), 4);
        assert_distinct_in_pool(&g, 9);
        for (i, &c) in g.char_idxs.iter().enumerate() {
            let expected = default_relic_config(a[c].as_deref().unwrap_or("Physical"));
            assert_eq!(g.relic_configs[i].sphere_main, expected.sphere_main);
        }
    }
}

#[test]
fn neighbours_keep_team_valid() {
    let a = attrs(8);
    let sets = vec![SetCombo { relic_set: "Musketeer 4p".to_string(), ornament_set: "fleet_2p".to_string() }];
    let mains = vec![MainStatCombo {
        body_main: "crit_rate".to_string(),
        feet_main: "atk_percent".to_string(),
        sphere_main: "fire_dmg".to_string(),
        rope_main: "energy_regen".to_string(),
    }];
    let mut rng = SmallRng::seed_from_u64(7);
    let mut g = initial_genome(&mut rng, &a, 4);
    for step in 0..200 {
        let kind = match step % 3 { 0 => MoveKind::SwapCharacter, 1 => MoveKind::ChangeSets, _ => MoveKind::ChangeMains };
        let next = propose_neighbor(&mut rng, &g, kind, &a, &sets, &mains).unwrap();
        assert_distinct_in_pool(&next, 8);
        let changed = (0..4)
            .filter(|&i| next.char_idxs[i] != g.char_idxs[i] || next.relic_configs[i].sphere_main != g.relic_configs[i].sphere_main
                || next.relic_configs[i].relic_set != g.relic_configs[i].relic_set)
            .count();
        assert!(changed <= 1);
        if kind != MoveKind::SwapCharacter {
            assert_eq!(next.char_idxs, g.char_idxs);
        }
        g = next;
    }
}

#[test]
fn no_swap_when_pool_is_the_team() {
    let a = attrs(4);
    let mut rng = SmallRng::seed_from_u64(1);
    let g = initial_genome(&mut rng, &a, 4);
    assert!(propose_neighbor(&mut rng, &g, MoveKind::SwapCharacter, &a, &vec![], &vec![]).is_none());
}

#[test]
fn initial_teams_vary_with_the_seed() {
    let a = attrs(12);
    let mut teams = Vec::new();
    for seed in 0..20u64 {
        let mut rng = SmallRng::seed_from_u64(seed);
        teams.push(initial_genome(&mut rng, &a, 4).char_idxs);
    }
    assert!(teams.iter().any(|t| *t != vec![0, 1, 2, 3]));
    assert!(teams.iter().any(|t| *t != teams[0]));
}
