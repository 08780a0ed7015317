use hsr_optimizer_engine::search::{
    assign_lcs_greedily, lc_pool_ranks_fit, n_combinations, n_combinations_fits_exec, team_candidates, LcCandidate,
};

#[test]
fn n_combinations_small_values() {
    assert_eq!(n_combinations(4, 2), 6);
    assert_eq!(n_combinations(16, 4), 1820);
    assert_eq!(n_combinations(20, 4), 4845);
    assert_eq!(n_combinations(24, 4), 10626);
    assert_eq!(n_combinations(26, 4), 14950);
    assert_eq!(n_combinations(3, 5), 0);
    assert_eq!(n_combinations(7, 0), 1);
    assert_eq!(n_combinations(7, 7), 1);
}

#[test]
fn team_candidates_are_lexicographic() {
    let c = team_candidates(4, 2);
    assert_eq!(c, vec![vec![0, 1], vec![0, 2], vec![0, 3], vec![1, 2], vec![1, 3], vec![2, 3]]);
    assert_eq!(team_candidates(3, 0), vec![Vec::<usize>::new()]);
    assert!(team_candidates(2, 3).is_empty());
}

fn lc(path: &str, level: i32, si: i32) -> LcCandidate {
    LcCandidate { path: Some(path.to_string()), level: Some(level), superimposition: Some(si) }
}

#[test]
fn greedy_lightcones_take_best_free_match() {
    let chars = vec![Some("Hunt".to_string()), Some("Hunt".to_string()), Some("Nihility".to_string()), None];
    let pool = vec![lc("Hunt", 80, 1), lc("Hunt", 80, 5), lc("Nihility", 70, 1), lc("Hunt", 60, 5)];
    let r = assign_lcs_greedily(&chars, &pool);
    assert_eq!(r, vec![Some(1), Some(0), Some(2), None]);
}

#[test]
fn choosing_k_equals_leaving_out_n_minus_k() {
    assert_eq!(n_combinations(10, 3), n_combinations(10, 7));
    assert_eq!(n_combinations(10, 3), 120);
    assert_eq!(n_combinations(26, 22), 14950);
}

#[test]
fn combination_counts_that_fit() {
    assert!(n_combinations_fits_exec(40, 4));
    assert!(n_combinations_fits_exec(0, 0));
    assert!(!n_combinations_fits_exec(usize::MAX, 4));
}

#[test]
fn lightcone_ranks_that_overflow_are_caught() {
    assert!(lc_pool_ranks_fit(&vec![lc("Hunt", 80, 5), lc("Abundance", 1, 1)]));
    assert!(lc_pool_ranks_fit(&Vec::new()));
    assert!(!lc_pool_ranks_fit(&vec![lc("Hunt", 80, 5), lc("Hunt", i32::MAX, 1)]));
    assert!(!lc_pool_ranks_fit(&vec![lc("Hunt", 214748364, 8)]));
    assert!(lc_pool_ranks_fit(&vec![lc("Hunt", 214748364, 7)]));
}
