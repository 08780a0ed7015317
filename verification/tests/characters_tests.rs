use hsr_optimizer_engine::characters::anaxa::{add_wk_count, has_qd, implant_weakness, wk_key};
use hsr_optimizer_engine::characters::black_swan::{arcana_acc_key, arcana_key, epiphany_key};
use hsr_optimizer_engine::characters::bronya::{a4_rem_key, tech_rem_key, ult_rem_key};
use hsr_optimizer_engine::characters::cerydra::spd_rem_key;
use hsr_optimizer_engine::characters::cipher;
use hsr_optimizer_engine::characters::clara::mark_key;
use hsr_optimizer_engine::characters::dan_heng_il;
use hsr_optimizer_engine::characters::gallagher::besotted_key;
use hsr_optimizer_engine::characters::gepard::frozen_key;
use hsr_optimizer_engine::characters::guinaifen::{burn_boost_key, burn_key, fk_dur_key, fk_key};
use hsr_optimizer_engine::characters::hanya::{a2_key, talent_key, ult_key};
use hsr_optimizer_engine::characters::jiaoqiu::ashen_key;
use hsr_optimizer_engine::characters::silver_wolf::{bug_key_and_stat, sw_implant_weakness};
use hsr_optimizer_engine::characters::{ally_action_listeners, kit_from_id, Kit};
use hsr_optimizer_engine::enemies::{enemy_from_id, EnemyKit};
use hsr_optimizer_engine::ids;

const ALL_KITS: [Kit; 31] = [
    Kit::Acheron, Kit::BlackSwan, Kit::Jiaoqiu, Kit::Pela, Kit::SilverWolf, Kit::Aglaea, Kit::Argenti,
    Kit::Arlan, Kit::Ashveil, Kit::Asta, Kit::Aventurine, Kit::Bailu, Kit::Anaxa, Kit::Archer, Kit::Blade,
    Kit::Boothill, Kit::Bronya, Kit::Castorice, Kit::Cerydra, Kit::Cipher, Kit::Clara, Kit::DanHeng,
    Kit::DanHengIl, Kit::DanHengPt, Kit::DrRatio, Kit::Feixiao, Kit::Firefly, Kit::FuXuan, Kit::Gallagher,
    Kit::Gepard, Kit::Guinaifen,
];

#[test]
fn every_kit_is_found_by_its_own_id() {
    for k in ALL_KITS {
        assert_eq!(kit_from_id(k.id()), Some(k));
    }
    assert_eq!(kit_from_id(ids::ACHERON_ID), Some(Kit::Acheron));
    assert_eq!(kit_from_id(ids::GUINAIFEN_ID), Some(Kit::Guinaifen));
    assert_eq!(kit_from_id(ids::BRONYA_ID), Some(Kit::Bronya));
}

#[test]
fn unknown_ids_have_no_kit() {
    assert_eq!(kit_from_id(""), None);
    assert_eq!(kit_from_id(ids::ANTIBARYON_ID), None);
    assert_eq!(kit_from_id(ids::SOULDRAGON_ID), None);
}

#[test]
fn enemy_kits_by_id() {
    assert_eq!(enemy_from_id(ids::ANTIBARYON_ID), Some(EnemyKit::Antibaryon));
    assert_eq!(enemy_from_id(ids::BARYON_ID), Some(EnemyKit::Baryon));
    assert_eq!(enemy_from_id(ids::PELA_ID), None);
}

#[test]
fn only_three_kits_react_to_break() {
    let reacting: Vec<Kit> = ALL_KITS.iter().copied().filter(|k| k.reacts_to_break()).collect();
    assert_eq!(reacting, vec![Kit::SilverWolf, Kit::Boothill, Kit::Firefly]);
}

#[test]
fn ally_listeners_exclude_the_actor() {
    assert_eq!(ally_action_listeners(4, 1), vec![0, 2, 3]);
    assert_eq!(ally_action_listeners(4, 9), vec![0, 1, 2, 3]);
    assert_eq!(ally_action_listeners(1, 0), Vec::<usize>::new());
}

#[test]
fn counter_keys_have_expected_names() {
    assert_eq!(wk_key("enemy-7"), "anaxa_wk_enemy-7");
    assert_eq!(arcana_key(3), "bs_arcana_3");
    assert_eq!(arcana_acc_key(3), "bs_arcana_acc_3");
    assert_eq!(epiphany_key(0), "bs_epiphany_0");
    assert_eq!(a4_rem_key(12), "bronya_a4_12");
    assert_eq!(tech_rem_key(2), "bronya_tech_2");
    assert_eq!(ult_rem_key(1), "bronya_ult_1");
    assert_eq!(spd_rem_key(4), "cerydra_spd_rem_4");
    assert_eq!(mark_key(2), "clara_mark_2");
    assert_eq!(besotted_key(1), "gallagher_besotted_1");
    assert_eq!(frozen_key(0), "gepard_frozen_0");
    assert_eq!(burn_key(5), "guinaifen_burn_5");
    assert_eq!(burn_boost_key(5), "guinaifen_burn_boost_5");
    assert_eq!(fk_key(5), "guinaifen_fk_5");
    assert_eq!(fk_dur_key(5), "guinaifen_fk_dur_5");
    assert_eq!(talent_key(3), "hanya_talent_3");
    assert_eq!(a2_key(3), "hanya_a2_3");
    assert_eq!(ult_key(3), "hanya_ult_3");
    assert_eq!(ashen_key("e1"), "ashen_roast_e1");
}

#[test]
fn related_counter_keys_never_collide() {
    for a in 0..30usize {
        for b in 0..30usize {
            assert_ne!(arcana_key(a), arcana_acc_key(b));
            assert_ne!(burn_key(a), burn_boost_key(b));
            assert_ne!(fk_key(a), fk_dur_key(b));
            if a != b {
                assert_ne!(arcana_key(a), arcana_key(b));
            }
        }
    }
}

#[test]
fn bugs_take_turns() {
    assert_eq!(bug_key_and_stat(0), ("sw_bug_atk", "Bug"));
    assert_eq!(bug_key_and_stat(1), ("sw_bug_def", "DEF Reduction"));
    assert_eq!(bug_key_and_stat(2), ("sw_bug_spd", "Bug"));
    assert_eq!(bug_key_and_stat(3), ("sw_bug_atk", "Bug"));
    assert_eq!(bug_key_and_stat(u32::MAX), bug_key_and_stat(u32::MAX % 3));
}

#[test]
fn silver_wolf_swaps_implanted_weakness() {
    let mut ws = vec!["Ice".to_string()];
    let first = sw_implant_weakness(&mut ws, None, "Fire");
    assert_eq!(first, 1);
    assert_eq!(ws, vec!["Ice".to_string(), "Fire".to_string()]);
    let second = sw_implant_weakness(&mut ws, Some(first), "Quantum");
    assert_eq!(second, 5);
    assert_eq!(ws, vec!["Ice".to_string(), "Quantum".to_string()]);
    let third = sw_implant_weakness(&mut ws, Some(second), "Ice");
    assert_eq!(third, 2);
    assert_eq!(ws, vec!["Ice".to_string()]);
    let unknown = sw_implant_weakness(&mut ws, Some(99), "Void");
    assert_eq!(unknown, 99);
    assert_eq!(ws, vec!["Ice".to_string(), "Void".to_string()]);
}

#[test]
fn anaxa_counts_cap_at_seven() {
    assert_eq!(add_wk_count(0, 2), 2);
    assert_eq!(add_wk_count(5, 2), 7);
    assert_eq!(add_wk_count(6, 3), 7);
    assert!(!has_qd(4));
    assert!(has_qd(5));
}

#[test]
fn anaxa_implants_elements_in_order_without_repeats() {
    let mut ws = vec!["Fire".to_string()];
    implant_weakness(&mut ws, 0, 3);
    assert_eq!(ws, vec!["Fire".to_string(), "Physical".to_string(), "Ice".to_string()]);
    implant_weakness(&mut ws, 3, 9);
    assert_eq!(ws.len(), 7);
    assert_eq!(ws[6], "Imaginary");
    implant_weakness(&mut ws, 5, 2);
    assert_eq!(ws.len(), 7);
}

#[test]
fn adjacent_slots() {
    assert_eq!(cipher::adj_slots(3, 0), vec![1]);
    assert_eq!(cipher::adj_slots(3, 1), vec![0, 2]);
    assert_eq!(cipher::adj_slots(3, 2), vec![1]);
    assert_eq!(cipher::adj_slots(1, 0), Vec::<usize>::new());
    let enemies = vec![Some(1u8), None, Some(3u8), Some(4u8)];
    assert_eq!(dan_heng_il::adj_slots(2, &enemies), vec![3]);
    assert_eq!(dan_heng_il::adj_slots(3, &enemies), vec![2]);
    assert_eq!(dan_heng_il::adj_slots(0, &enemies), Vec::<usize>::new());
    assert_eq!(dan_heng_il::adj_slots(1, &enemies), vec![0, 2]);
}
