//! Cerydra: names of the kit's counters.

use vstd::prelude::*;
use crate::characters::{family_prefix, StackKeyFamily};
use crate::text::{decimal, decimal_string, join};

verus! {

/// Remaining turns of the SPD buff on ally `i`.
pub fn spd_rem_key(i: usize) -> (r: String)
    ensures
        r@ == family_prefix(StackKeyFamily::CerydraSpd) + decimal(i as nat),
{
    join("cerydra_spd_rem_", decimal_string(i).as_str())
}

} // verus!
