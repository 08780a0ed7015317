//! Bronya: names of the kit's counters.

use vstd::prelude::*;
use crate::characters::{family_prefix, StackKeyFamily};
use crate::text::{decimal, decimal_string, join};

verus! {

/// Remaining turns of the A4 buff on ally `i`.
pub fn a4_rem_key(i: usize) -> (r: String)
    ensures
        r@ == family_prefix(StackKeyFamily::BronyaA4) + decimal(i as nat),
{
    join("bronya_a4_", decimal_string(i).as_str())
}

/// Remaining turns of the technique buff on ally `i`.
pub fn tech_rem_key(i: usize) -> (r: String)
    ensures
        r@ == family_prefix(StackKeyFamily::BronyaTech) + decimal(i as nat),
{
    join("bronya_tech_", decimal_string(i).as_str())
}

/// Remaining turns of the ultimate buff on ally `i`.
pub fn ult_rem_key(i: usize) -> (r: String)
    ensures
        r@ == family_prefix(StackKeyFamily::BronyaUlt) + decimal(i as nat),
{
    join("bronya_ult_", decimal_string(i).as_str())
}

} // verus!
