//! Jiaoqiu: names of the kit's counters.

use vstd::prelude::*;
use crate::characters::{family_prefix, StackKeyFamily};
use crate::text::{decimal, decimal_string, join};

verus! {

/// Ashen Roast stacks of one enemy instance.
pub fn ashen_key(instance_id: &str) -> (r: String)
    ensures
        r@ == family_prefix(StackKeyFamily::JiaoqiuAshen) + instance_id@,
{
    join("ashen_roast_", instance_id)
}

} // verus!
