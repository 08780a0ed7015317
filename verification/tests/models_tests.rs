use hsr_optimizer_engine::damage::{action_type_dmg_boost, scaling_stat_percent, ActionBonus, ScalingBonus};
use hsr_optimizer_engine::ids::{CHAR_ATK_ID, CHAR_DEF_ID, CHAR_HP_ID};
use hsr_optimizer_engine::models::{
    all_enemies_dead, find_enemy_idx, find_member_idx, living_count, AbilityLevels, ActionType, RelicSlot,
};

#[test]
fn ability_levels_default_is_maxed() {
    let a = AbilityLevels::default();
    assert_eq!(a, AbilityLevels { basic: 6, skill: 10, ultimate: 10, talent: 10 });
}

#[test]
fn find_member_idx_returns_first_match() {
    let team = vec!["a".to_string(), "b".to_string(), "b".to_string()];
    assert_eq!(find_member_idx(&team, "b"), Some(1));
    assert_eq!(find_member_idx(&team, "a"), Some(0));
    assert_eq!(find_member_idx(&team, "c"), None);
    assert_eq!(find_member_idx(&vec![], "a"), None);
}

#[test]
fn find_enemy_idx_skips_empty_slots() {
    let slots = vec![None, Some("e2".to_string()), Some("e3".to_string())];
    assert_eq!(find_enemy_idx(&slots, "e3"), Some(2));
    assert_eq!(find_enemy_idx(&slots, "e1"), None);
}

#[test]
fn all_enemies_dead_and_living_count() {
    assert!(all_enemies_dead::<u8>(&vec![None, None]));
    assert!(!all_enemies_dead(&vec![None, Some(1u8)]));
    assert!(all_enemies_dead::<u8>(&vec![]));
    assert_eq!(living_count(&vec![false, true, false, false]), 3);
    assert_eq!(living_count(&vec![true, true]), 0);
}

#[test]
fn relic_slots_compare() {
    assert_eq!(RelicSlot::Head, RelicSlot::Head);
    assert_ne!(RelicSlot::Body, RelicSlot::Feet);
}

#[test]
fn scaling_bonus_follows_stat_id() {
    assert_eq!(scaling_stat_percent(CHAR_DEF_ID), ScalingBonus::Def);
    assert_eq!(scaling_stat_percent(CHAR_HP_ID), ScalingBonus::Hp);
    assert_eq!(scaling_stat_percent(CHAR_ATK_ID), ScalingBonus::Atk);
    assert_eq!(scaling_stat_percent("anything else"), ScalingBonus::Atk);
}

#[test]
fn action_bonus_by_type() {
    assert_eq!(action_type_dmg_boost(ActionType::Basic), Some(ActionBonus::BasicAtk));
    assert_eq!(action_type_dmg_boost(ActionType::Skill), Some(ActionBonus::Skill));
    assert_eq!(action_type_dmg_boost(ActionType::Ultimate), Some(ActionBonus::Ultimate));
    assert_eq!(action_type_dmg_boost(ActionType::FollowUp), Some(ActionBonus::FollowUp));
    assert_eq!(action_type_dmg_boost(ActionType::TalentProc), None);
    assert_eq!(action_type_dmg_boost(ActionType::EnemyAttack), None);
}

use hsr_optimizer_engine::models::CombatLog;

#[test]
fn log_records_only_when_enabled() {
    let mut off: CombatLog<f64> = CombatLog { with_logs: false, logs: vec![] };
    off.add_log(10.0, "Pela", "Ult".to_string());
    off.add_log_sub("detail".to_string());
    assert!(off.logs.is_empty());

    let mut on: CombatLog<f64> = CombatLog { with_logs: true, logs: vec![] };
    on.add_log_sub("dropped: nothing to attach to".to_string());
    assert!(on.logs.is_empty());
    on.add_log(10.0, "Pela", "Ult".to_string());
    on.add_log(25.5, "Bailu", "Heal".to_string());
    on.add_log_sub("+312 HP".to_string());
    on.add_log_sub("Invigoration".to_string());
    assert_eq!(on.logs.len(), 2);
    assert_eq!(on.logs[0].actor, "Pela");
    assert!(on.logs[0].sub_entries.is_empty());
    assert_eq!(on.logs[1].av, 25.5);
    assert_eq!(on.logs[1].message, "Heal");
    assert_eq!(on.logs[1].sub_entries, vec!["+312 HP".to_string(), "Invigoration".to_string()]);
}
