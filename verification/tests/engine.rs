use dosomekamas::engine::decision::{find_stat_index, rank_by_score, select_recommendation};
use dosomekamas::engine::ev::tier_flat_multiplier;
use dosomekamas::engine::probability::tier_success_modifier;
use dosomekamas::engine::sink::{max_sink_for_level, stat_weight};
use dosomekamas::errors::AppError;
use dosomekamas::models::RuneTier;

#[test]
fn test_max_sink_for_level() {
    assert_eq!(max_sink_for_level(1) as f64, 30.0);
    assert_eq!(max_sink_for_level(200) as f64, 1000.0);
}

#[test]
fn max_sink_rounds_halves_up() {
    // 25 + 4.875 * 2 = 34.75, 25 + 4.875 * 4 = 44.5, 25 + 4.875 * 0 = 25,
    // 25 + 4.875 * 4294967295 = 20937965588.125
    assert_eq!(max_sink_for_level(2), 35);
    assert_eq!(max_sink_for_level(4), 45);
    assert_eq!(max_sink_for_level(0), 25);
    assert_eq!(max_sink_for_level(u32::MAX), 20_937_965_588);
}

#[test]
fn max_sink_grows_with_level() {
    let mut prev = max_sink_for_level(0);
    for level in 1..=300 {
        let cap = max_sink_for_level(level);
        assert!(cap >= prev);
        prev = cap;
    }
}

#[test]
fn test_ra_has_higher_effective_flat() {
    let ra = RuneTier::Ra;
    let ba = RuneTier::Ba;
    assert_eq!(tier_flat_multiplier(&ra) as f64, 10.0);
    assert_eq!(tier_flat_multiplier(&ba) as f64, 1.0);
}

#[test]
fn pa_multiplies_flat_value_by_three() {
    assert_eq!(tier_flat_multiplier(&RuneTier::Pa), 3);
}

#[test]
fn heavier_tiers_have_lower_success_modifier() {
    assert_eq!(tier_success_modifier(&RuneTier::Ba), 100);
    assert_eq!(tier_success_modifier(&RuneTier::Pa), 95);
    assert_eq!(tier_success_modifier(&RuneTier::Ra), 85);
    assert!(tier_success_modifier(&RuneTier::Ra) < tier_success_modifier(&RuneTier::Pa));
}

#[test]
fn stat_weights_follow_the_table() {
    assert_eq!(stat_weight("vitalite"), 20);
    assert_eq!(stat_weight("pv"), 20);
    assert_eq!(stat_weight("sagesse"), 300);
    assert_eq!(stat_weight("pa"), 10000);
    assert_eq!(stat_weight("movement_point"), 9000);
    assert_eq!(stat_weight("range"), 5100);
    assert_eq!(stat_weight("ini"), 10);
    assert_eq!(stat_weight("pods"), 1);
    assert_eq!(stat_weight("res_feu_pct"), 600);
    assert_eq!(stat_weight("reduc_pm"), 800);
}

#[test]
fn unknown_stat_weighs_one_point() {
    assert_eq!(stat_weight("bouclier"), 100);
    assert_eq!(stat_weight(""), 100);
    assert_eq!(stat_weight("Force"), 100);
}

#[test]
fn find_stat_index_returns_first_match() {
    let ids = vec!["force".to_string(), "vitalite".to_string(), "force".to_string()];
    assert_eq!(find_stat_index(&ids, &"force".to_string()), Some(0));
    assert_eq!(find_stat_index(&ids, &"vitalite".to_string()), Some(1));
    assert_eq!(find_stat_index(&ids, &"sagesse".to_string()), None);
}

#[test]
fn ranking_is_descending_and_stable() {
    let order = rank_by_score(&vec![3, 7, 3, -1, 7]);
    assert_eq!(order, vec![1, 4, 0, 2, 3]);
    assert_eq!(rank_by_score(&vec![]), Vec::<usize>::new());
}

#[test]
fn empty_candidate_list_is_a_calculation_error() {
    match select_recommendation(&vec![]) {
        Err(AppError::Calculation(msg)) => {
            assert_eq!(msg, "Aucune rune disponible pour évaluation.")
        }
        _ => panic!("expected a calculation error"),
    }
}

#[test]
fn alternatives_are_capped_at_five() {
    let scores: Vec<i64> = (0..10).map(|i| (i % 4) as i64).collect();
    let sel = match select_recommendation(&scores) {
        Ok(sel) => sel,
        Err(_) => panic!("ten candidates must give a selection"),
    };
    assert_eq!(sel.best, 3);
    assert_eq!(sel.alternatives, vec![7, 2, 6, 1, 5]);
}

#[test]
fn equal_scores_keep_the_order_of_the_list() {
    let scores: Vec<i64> = vec![7; 10];
    let sel = match select_recommendation(&scores) {
        Ok(sel) => sel,
        Err(_) => panic!("ten candidates must give a selection"),
    };
    assert_eq!(sel.best, 0);
    assert_eq!(sel.alternatives, vec![1, 2, 3, 4, 5]);
}

#[test]
fn single_candidate_has_no_alternative() {
    let sel = match select_recommendation(&vec![42]) {
        Ok(sel) => sel,
        Err(_) => panic!("one candidate must give a selection"),
    };
    assert_eq!(sel.best, 0);
    assert!(sel.alternatives.is_empty());
}

#[test]
fn best_candidate_has_highest_score() {
    let scores = vec![-5, 12, 12, 0];
    let sel = match select_recommendation(&scores) {
        Ok(sel) => sel,
        Err(_) => panic!("expected a selection"),
    };
    assert_eq!(sel.best, 1);
    assert_eq!(sel.alternatives, vec![2, 3, 0]);
}
