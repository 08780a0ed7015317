//! Hanya: names of the kit's counters.

use vstd::prelude::*;
use crate::characters::{family_prefix, StackKeyFamily};
use crate::text::{decimal, decimal_string, join};

verus! {

/// Remaining turns of the talent buff on ally `i`.
pub fn talent_key(i: usize) -> (r: String)
    ensures
        r@ == family_prefix(StackKeyFamily::HanyaTalent) + decimal(i as nat),
{
    join("hanya_talent_", decimal_string(i).as_str())
}

/// Remaining turns of the A2 ATK buff on ally `i`.
pub fn a2_key(i: usize) -> (r: String)
    ensures
        r@ == family_prefix(StackKeyFamily::HanyaA2) + decimal(i as nat),
{
    join("hanya_a2_", decimal_string(i).as_str())
}

/// Remaining turns of the ultimate buff on ally `i`.
pub fn ult_key(i: usize) -> (r: String)
    ensures
        r@ == family_prefix(StackKeyFamily::HanyaUlt) + decimal(i as nat),
{
    join("hanya_ult_", decimal_string(i).as_str())
}

} // verus!
