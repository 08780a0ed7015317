//! Gepard: names of the kit's counters.

use vstd::prelude::*;
use crate::characters::{family_prefix, StackKeyFamily};
use crate::text::{decimal, decimal_string, join};

verus! {

/// Frozen turns on an enemy slot.
pub fn frozen_key(slot: usize) -> (r: String)
    ensures
        r@ == family_prefix(StackKeyFamily::GepardFrozen) + decimal(slot as nat),
{
    join("gepard_frozen_", decimal_string(slot).as_str())
}

} // verus!
