//! A Dream Scented in Wheat: which superimposition row applies, and which
//! actions its DMG bonus covers.

use vstd::prelude::*;
use crate::models::ActionType;

verus! {

/// Row of the passive's value tables for superimposition `si` (1–5; values
/// outside that range use the nearest row).
pub fn si_idx(si: i32) -> (r: usize)
    requires
        si > i32::MIN,
    ensures
        r == (if si - 1 < 0 { 0 } else if si - 1 > 4 { 4 } else { si - 1 }),
{
    let x = si - 1;
    if x < 0 {
        0
    } else if x > 4 {
        4
    } else {
        x as usize
    }
}

/// The Ultimate/Follow-up DMG bonus applies to this action.
pub fn boosts_action(action_type: ActionType) -> (r: bool)
    ensures
        r == (action_type == ActionType::Ultimate || action_type == ActionType::FollowUp),
{
    match action_type {
        ActionType::Ultimate | ActionType::FollowUp => true,
        _ => false,
    }
}

} // verus!
