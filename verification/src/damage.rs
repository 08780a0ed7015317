//! The choices the damage formula makes before any arithmetic: which stat
//! bonus scales a hit and which action-specific DMG bonus applies.

use vstd::prelude::*;
use crate::ids::{CHAR_DEF_ID, CHAR_HP_ID};
use crate::models::ActionType;
use crate::text::str_eq;

verus! {

/// The percentage bonus that scales a hit's stat.
#[derive(Debug, Clone, Copy, PartialEq, Eq, Structural)]
pub enum ScalingBonus {
    /// DEF% (DEF-scaling kits).
    Def,
    /// HP% (HP-scaling kits).
    Hp,
    /// ATK% (everyone else).
    Atk,
}

/// DEF-scaling hits use DEF%, HP-scaling hits HP%, all others ATK%.
pub fn scaling_stat_percent(scaling_stat_id: &str) -> (r: ScalingBonus)
    ensures
        scaling_stat_id@ == CHAR_DEF_ID@ ==> r == ScalingBonus::Def,
        scaling_stat_id@ != CHAR_DEF_ID@ && scaling_stat_id@ == CHAR_HP_ID@ ==> r == ScalingBonus::Hp,
        scaling_stat_id@ != CHAR_DEF_ID@ && scaling_stat_id@ != CHAR_HP_ID@ ==> r == ScalingBonus::Atk,
{
    if str_eq(scaling_stat_id, CHAR_DEF_ID) {
        ScalingBonus::Def
    } else if str_eq(scaling_stat_id, CHAR_HP_ID) {
        ScalingBonus::Hp
    } else {
        ScalingBonus::Atk
    }
}

/// An action-specific DMG bonus.
#[derive(Debug, Clone, Copy, PartialEq, Eq, Structural)]
pub enum ActionBonus {
    BasicAtk,
    Skill,
    Ultimate,
    FollowUp,
}

/// The DMG bonus that applies only to this kind of action, if any.
pub fn action_type_dmg_boost(action_type: ActionType) -> (r: Option<ActionBonus>)
    ensures
        r == match action_type {
            ActionType::Basic => Some(ActionBonus::BasicAtk),
            ActionType::Skill => Some(ActionBonus::Skill),
            ActionType::Ultimate => Some(ActionBonus::Ultimate),
            ActionType::FollowUp => Some(ActionBonus::FollowUp),
            _ => None,
        },
{
    match action_type {
        ActionType::Basic => Some(ActionBonus::BasicAtk),
        ActionType::Skill => Some(ActionBonus::Skill),
        ActionType::Ultimate => Some(ActionBonus::Ultimate),
        ActionType::FollowUp => Some(ActionBonus::FollowUp),
        _ => None,
    }
}

} // verus!
