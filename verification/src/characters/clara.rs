//! Clara: names of the kit's counters.

use vstd::prelude::*;
use crate::characters::{family_prefix, StackKeyFamily};
use crate::text::{decimal, decimal_string, join};

verus! {

/// Counter mark on an enemy slot.
pub fn mark_key(slot: usize) -> (r: String)
    ensures
        r@ == family_prefix(StackKeyFamily::ClaraMark) + decimal(slot as nat),
{
    join("clara_mark_", decimal_string(slot).as_str())
}

} // verus!
