use hsr_optimizer_engine::effects::{
    apply_enemy_buff, apply_enemy_debuff, apply_member_buff, apply_status_effect, tick_buffs, tick_debuffs,
    tick_enemy_debuffs, try_apply_enemy_debuff, EffectMap, EnemyEffects, MemberEffects, StatChange, StatusEffect,
};

fn eff(duration: i32, value: f64) -> StatusEffect<f64> {
    StatusEffect { duration, value, stat: Some("DEF Reduction".to_string()), effects: vec![] }
}

fn enemy() -> EnemyEffects<f64> {
    EnemyEffects { active_buffs: EffectMap::new(), active_debuffs: EffectMap::new(), debuff_count: 0 }
}

#[test]
fn apply_adds_new_effect() {
    let mut m = EffectMap::new();
    apply_status_effect(&mut m, "pela_ult_def", eff(2, 40.0));
    assert_eq!(m.len(), 1);
    assert!(m.contains_key("pela_ult_def"));
    assert_eq!(m.get("pela_ult_def").unwrap().duration, 2);
    assert_eq!(m.get("pela_ult_def").unwrap().value, 40.0);
}

#[test]
fn apply_longer_duration_wins() {
    let mut m = EffectMap::new();
    m.apply("k", eff(2, 1.0));
    m.apply("k", eff(3, 2.0));
    assert_eq!(m.get("k").unwrap().duration, 3);
    assert_eq!(m.get("k").unwrap().value, 2.0);
    // shorter or equal does not replace
    m.apply("k", eff(1, 5.0));
    m.apply("k", eff(3, 7.0));
    assert_eq!(m.get("k").unwrap().duration, 3);
    assert_eq!(m.get("k").unwrap().value, 2.0);
    assert_eq!(m.len(), 1);
}

#[test]
fn apply_same_effect_twice_is_idempotent() {
    let mut m = EffectMap::new();
    m.apply("k", eff(2, 1.0));
    m.apply("k", eff(2, 1.0));
    assert_eq!(m.len(), 1);
    assert_eq!(m.get("k").unwrap().duration, 2);
}

#[test]
fn tick_decrements_and_drops_expired() {
    let mut m = EffectMap::new();
    m.apply("a", eff(1, 1.0));
    m.apply("b", eff(2, 2.0));
    m.apply("c", eff(3, 3.0));
    let removed = m.tick();
    assert_eq!(removed, 1);
    assert_eq!(m.len(), 2);
    assert!(!m.contains_key("a"));
    assert_eq!(m.get("b").unwrap().duration, 1);
    assert_eq!(m.get("c").unwrap().duration, 2);
    assert_eq!(m.get("c").unwrap().value, 3.0);
}

#[test]
fn effect_lasts_duration_minus_one_ticks() {
    let mut m = EffectMap::new();
    m.apply("bug", eff(4, 10.0));
    for _ in 0..3 {
        m.tick();
        assert!(m.contains_key("bug"));
    }
    m.tick();
    assert!(!m.contains_key("bug"));
}

#[test]
fn tick_drops_non_positive_durations() {
    let mut m = EffectMap::new();
    m.apply("z", eff(0, 0.0));
    m.apply("n", eff(-3, 0.0));
    assert_eq!(m.tick(), 2);
    assert_eq!(m.len(), 0);
}

#[test]
fn remove_and_first_key() {
    let mut m = EffectMap::new();
    assert!(m.first_key().is_none());
    m.apply("x", eff(2, 1.0));
    m.apply("y", eff(2, 1.0));
    let k = m.first_key().unwrap();
    assert!(k == "x" || k == "y");
    m.remove("x");
    assert!(!m.contains_key("x"));
    assert!(m.contains_key("y"));
    m.remove("absent");
    assert_eq!(m.len(), 1);
    assert_eq!(m.entries().len(), 1);
    assert_eq!(m.entries()[0].0, "y");
}

#[test]
fn multi_stat_effect_keeps_its_changes() {
    let mut m = EffectMap::new();
    let e = StatusEffect {
        duration: 2,
        value: 0.0,
        stat: None,
        effects: vec![StatChange { stat: "ATK%".to_string(), value: 12.0 }],
    };
    m.apply("combo", e);
    m.tick();
    let got = m.get("combo").unwrap();
    assert_eq!(got.duration, 1);
    assert_eq!(got.effects.len(), 1);
    assert_eq!(got.effects[0].stat, "ATK%");
    assert_eq!(got.effects[0].value, 12.0);
}

#[test]
fn enemy_debuff_count_tracks_new_debuffs() {
    let mut e = enemy();
    apply_enemy_debuff(&mut e, "a", eff(2, 1.0));
    apply_enemy_debuff(&mut e, "a", eff(3, 1.0));
    apply_enemy_debuff(&mut e, "b", eff(1, 1.0));
    assert_eq!(e.debuff_count, 2);
    assert_eq!(e.active_debuffs.len(), 2);
    tick_enemy_debuffs(&mut e);
    assert_eq!(e.debuff_count, 1);
    assert_eq!(e.active_debuffs.len(), 1);
    assert_eq!(e.active_debuffs.get("a").unwrap().duration, 2);
}

#[test]
fn enemy_debuff_count_never_below_zero() {
    let mut e = enemy();
    e.active_debuffs.apply("a", eff(1, 1.0));
    e.active_debuffs.apply("b", eff(1, 1.0));
    e.debuff_count = 1;
    tick_enemy_debuffs(&mut e);
    assert_eq!(e.debuff_count, 0);
}

#[test]
fn try_apply_respects_landing() {
    let mut e = enemy();
    assert!(!try_apply_enemy_debuff(false, &mut e, "sw_bug_atk", eff(4, 10.0)));
    assert_eq!(e.debuff_count, 0);
    assert!(!e.active_debuffs.contains_key("sw_bug_atk"));
    assert!(try_apply_enemy_debuff(true, &mut e, "sw_bug_atk", eff(4, 10.0)));
    assert_eq!(e.debuff_count, 1);
    assert!(e.active_debuffs.contains_key("sw_bug_atk"));
}

#[test]
fn enemy_buffs_do_not_count_as_debuffs() {
    let mut e = enemy();
    apply_enemy_buff(&mut e, "vuln", eff(2, 15.0));
    assert_eq!(e.debuff_count, 0);
    assert!(e.active_buffs.contains_key("vuln"));
    assert!(!e.active_debuffs.contains_key("vuln"));
}

#[test]
fn member_buffs_and_debuffs_tick_separately() {
    let mut m = MemberEffects { active_buffs: EffectMap::new(), active_debuffs: EffectMap::new() };
    apply_member_buff(&mut m, "bailu_invigoration", eff(2, 1.0));
    m.active_debuffs.apply("burn", eff(1, 1.0));
    tick_buffs(&mut m);
    assert_eq!(m.active_buffs.get("bailu_invigoration").unwrap().duration, 1);
    assert!(m.active_debuffs.contains_key("burn"));
    tick_debuffs(&mut m);
    assert!(!m.active_debuffs.contains_key("burn"));
    assert!(m.active_buffs.contains_key("bailu_invigoration"));
}
