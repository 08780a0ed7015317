//! Gallagher: names of the kit's counters.

use vstd::prelude::*;
use crate::characters::{family_prefix, StackKeyFamily};
use crate::text::{decimal, decimal_string, join};

verus! {

/// Besotted turns on an enemy slot.
pub fn besotted_key(slot: usize) -> (r: String)
    ensures
        r@ == family_prefix(StackKeyFamily::GallagherBesotted) + decimal(slot as nat),
{
    join("gallagher_besotted_", decimal_string(slot).as_str())
}

} // verus!
