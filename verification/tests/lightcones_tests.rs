use hsr_optimizer_engine::effects::{EffectMap, EnemyEffects};
use hsr_optimizer_engine::ids;
use hsr_optimizer_engine::lightcones::passing_shore::{fizzle_bonus_count, is_hitting_action, mark_target, MIRAGE_FIZZLE};
use hsr_optimizer_engine::lightcones::{dream_scented_wheat, lightcone_from_id, passing_shore, LightconeKit};
use hsr_optimizer_engine::models::ActionType;

#[test]
fn superimposition_rows() {
    assert_eq!(dream_scented_wheat::si_idx(1), 0);
    assert_eq!(dream_scented_wheat::si_idx(5), 4);
    assert_eq!(dream_scented_wheat::si_idx(0), 0);
    assert_eq!(dream_scented_wheat::si_idx(9), 4);
    assert_eq!(passing_shore::si_idx(3), 2);
    assert_eq!(passing_shore::si_idx(-7), 0);
    assert_eq!(passing_shore::si_idx(i32::MAX), 4);
}

#[test]
fn wheat_boosts_ultimate_and_follow_up_only() {
    assert!(dream_scented_wheat::boosts_action(ActionType::Ultimate));
    assert!(dream_scented_wheat::boosts_action(ActionType::FollowUp));
    assert!(!dream_scented_wheat::boosts_action(ActionType::Basic));
    assert!(!dream_scented_wheat::boosts_action(ActionType::Skill));
}

#[test]
fn lightcones_by_id() {
    assert_eq!(lightcone_from_id(ids::LC_DREAM_SCENTED_WHEAT_ID), Some(LightconeKit::DreamScentedWheat));
    assert_eq!(lightcone_from_id(ids::LC_ALONG_THE_PASSING_SHORE_ID), Some(LightconeKit::AlongThePassingShore));
    assert_eq!(lightcone_from_id(""), None);
}

#[test]
fn fizzle_bonus_stacks_on_ultimate() {
    assert_eq!(fizzle_bonus_count(ActionType::Basic, false), 0);
    assert_eq!(fizzle_bonus_count(ActionType::Basic, true), 1);
    assert_eq!(fizzle_bonus_count(ActionType::Skill, true), 1);
    assert_eq!(fizzle_bonus_count(ActionType::FollowUp, true), 1);
    assert_eq!(fizzle_bonus_count(ActionType::Ultimate, true), 2);
    assert_eq!(fizzle_bonus_count(ActionType::TalentProc, true), 0);
    assert!(!is_hitting_action(ActionType::EnemyAttack));
}

#[test]
fn first_hit_marks_then_bonus_applies_until_next_turn() {
    let mut e: EnemyEffects<f64> =
        EnemyEffects { active_buffs: EffectMap::new(), active_debuffs: EffectMap::new(), debuff_count: 0 };
    let has = |e: &EnemyEffects<f64>| e.active_debuffs.contains_key(MIRAGE_FIZZLE);
    assert_eq!(fizzle_bonus_count(ActionType::Skill, has(&e)), 0);
    assert!(mark_target(ActionType::Skill, &mut e, 0.0));
    assert_eq!(e.debuff_count, 1);
    assert_eq!(fizzle_bonus_count(ActionType::Skill, has(&e)), 1);
    assert!(mark_target(ActionType::Ultimate, &mut e, 0.0));
    assert_eq!(e.debuff_count, 1);
    e.active_debuffs.tick();
    assert!(!has(&e));
    assert!(!mark_target(ActionType::TalentProc, &mut e, 0.0));
    assert!(!has(&e));
}
