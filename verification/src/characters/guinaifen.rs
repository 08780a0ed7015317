//! Guinaifen: names of the kit's counters.

use vstd::prelude::*;
use crate::characters::{family_prefix, StackKeyFamily};
use crate::text::{decimal, decimal_string, join};

verus! {

/// Remaining Burn turns on an enemy slot.
pub fn burn_key(s: usize) -> (r: String)
    ensures
        r@ == family_prefix(StackKeyFamily::GuinaifenBurn) + decimal(s as nat),
{
    join("guinaifen_burn_", decimal_string(s).as_str())
}

/// Burn boost flag of an enemy slot.
pub fn burn_boost_key(s: usize) -> (r: String)
    ensures
        r@ == family_prefix(StackKeyFamily::GuinaifenBurnBoost) + decimal(s as nat),
{
    join("guinaifen_burn_boost_", decimal_string(s).as_str())
}

/// Firekiss stacks on an enemy slot.
pub fn fk_key(s: usize) -> (r: String)
    ensures
        r@ == family_prefix(StackKeyFamily::GuinaifenFirekiss) + decimal(s as nat),
{
    join("guinaifen_fk_", decimal_string(s).as_str())
}

/// Remaining Firekiss turns on an enemy slot.
pub fn fk_dur_key(s: usize) -> (r: String)
    ensures
        r@ == family_prefix(StackKeyFamily::GuinaifenFirekissDur) + decimal(s as nat),
{
    join("guinaifen_fk_dur_", decimal_string(s).as_str())
}

} // verus!
