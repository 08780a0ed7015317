//! Along the Passing Shore: Mirage Fizzle bookkeeping and bonus stacking.

use vstd::prelude::*;
use crate::effects::{apply_enemy_debuff, applied, ticked, EnemyEffects, StatusEffect};
use crate::models::ActionType;

verus! {

/// Name of the debuff the passive leaves on its targets.
pub const MIRAGE_FIZZLE: &'static str = "mirage_fizzle";

/// Row of the passive's value tables for superimposition `si` (1–5; values
/// outside that range use the nearest row).
pub fn si_idx(si: i32) -> (r: usize)
    requires
        si > i32::MIN,
    ensures
        r == (if si - 1 < 0 { 0 } else if si - 1 > 4 { 4 } else { si - 1 }),
{
    let x = si - 1;
    if x < 0 {
        0
    } else if x > 4 {
        4
    } else {
        x as usize
    }
}

/// Actions that hit: the passive reacts to these only.
pub fn is_hitting_action(action_type: ActionType) -> (r: bool)
    ensures
        r == (action_type == ActionType::Basic || action_type == ActionType::Skill || action_type
            == ActionType::Ultimate || action_type == ActionType::FollowUp),
{
    match action_type {
        ActionType::Basic | ActionType::Skill | ActionType::Ultimate | ActionType::FollowUp => true,
        _ => false,
    }
}

/// How many times the DMG bonus row is added before an action: once against
/// a target already under Mirage Fizzle, twice for an Ultimate, never
/// otherwise.
pub fn fizzle_bonus_count(action_type: ActionType, target_has_fizzle: bool) -> (r: u32)
    ensures
        r == (if !is_hitting_action_spec(action_type) || !target_has_fizzle {
            0u32
        } else if action_type == ActionType::Ultimate {
            2u32
        } else {
            1u32
        }),
{
    if !is_hitting_action(action_type) || !target_has_fizzle {
        0
    } else if action_type == ActionType::Ultimate {
        2
    } else {
        1
    }
}

/// Actions that hit.
pub open spec fn is_hitting_action_spec(action_type: ActionType) -> bool {
    action_type == ActionType::Basic || action_type == ActionType::Skill || action_type == ActionType::Ultimate
        || action_type == ActionType::FollowUp
}

/// A one-turn Mirage Fizzle with the payload `blank` and no stat changes.
pub open spec fn is_fizzle<V>(e: StatusEffect<V>, blank: V) -> bool {
    &&& e.duration == 1
    &&& e.value == blank
    &&& e.stat is None
    &&& e.effects@.len() == 0
}

/// After a hitting action, the target receives (or refreshes) Mirage Fizzle
/// for one turn; `blank` is the effect's empty payload. Returns whether the
/// target was marked.
pub fn mark_target<V>(action_type: ActionType, target: &mut EnemyEffects<V>, blank: V) -> (marked: bool)
    requires
        old(target).active_debuffs.wf(),
        !old(target).active_debuffs@.contains_key(MIRAGE_FIZZLE@) ==> old(target).debuff_count < u32::MAX,
    ensures
        marked == is_hitting_action_spec(action_type),
        final(target).active_debuffs.wf(),
        final(target).active_buffs == old(target).active_buffs,
        !marked ==> final(target).active_debuffs == old(target).active_debuffs && final(target).debuff_count
            == old(target).debuff_count,
        marked ==> exists|e: StatusEffect<V>| #[trigger] is_fizzle(e, blank) && final(target).active_debuffs@
            == applied(old(target).active_debuffs@, MIRAGE_FIZZLE@, e),
        old(target).debuff_count == old(target).active_debuffs@.len() ==> final(target).debuff_count
            == final(target).active_debuffs@.len(),
{
    if !is_hitting_action(action_type) {
        return false;
    }
    let effect = StatusEffect { duration: 1, value: blank, stat: None, effects: Vec::new() };
    let ghost e = effect;
    apply_enemy_debuff(target, MIRAGE_FIZZLE, effect);
    assert(is_fizzle(e, blank));
    true
}

/// Mirage Fizzle lasts until the target's next turn: right after a mark the
/// target carries it, and one tick of the target's debuffs removes it (as long
/// as nothing gave it a longer Mirage Fizzle before).
pub proof fn fizzle_expires_next_turn<V>(debuffs: Map<Seq<char>, StatusEffect<V>>, blank: V, e: StatusEffect<V>)
    requires
        is_fizzle(e, blank),
        debuffs.contains_key(MIRAGE_FIZZLE@) ==> debuffs[MIRAGE_FIZZLE@].duration <= 1,
    ensures
        applied(debuffs, MIRAGE_FIZZLE@, e).contains_key(MIRAGE_FIZZLE@),
        !ticked(applied(debuffs, MIRAGE_FIZZLE@, e)).contains_key(MIRAGE_FIZZLE@),
{
}

} // verus!
