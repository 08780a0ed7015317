//! Black Swan: names of the kit's counters.

use vstd::prelude::*;
use crate::characters::{family_prefix, StackKeyFamily};
use crate::text::{decimal, decimal_string, join};

verus! {

/// Arcana stack count on an enemy slot.
pub fn arcana_key(s: usize) -> (r: String)
    ensures
        r@ == family_prefix(StackKeyFamily::BlackSwanArcana) + decimal(s as nat),
{
    join("bs_arcana_", decimal_string(s).as_str())
}

/// Shared Arcana accumulator of an enemy slot.
pub fn arcana_acc_key(s: usize) -> (r: String)
    ensures
        r@ == family_prefix(StackKeyFamily::BlackSwanArcanaAcc) + decimal(s as nat),
{
    join("bs_arcana_acc_", decimal_string(s).as_str())
}

/// Remaining Epiphany turns on an enemy slot.
pub fn epiphany_key(s: usize) -> (r: String)
    ensures
        r@ == family_prefix(StackKeyFamily::BlackSwanEpiphany) + decimal(s as nat),
{
    join("bs_epiphany_", decimal_string(s).as_str())
}

} // verus!
