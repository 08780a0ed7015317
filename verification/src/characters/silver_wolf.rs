//! Silver Wolf: which Bug she plants, and the weakness she implants.

use vstd::prelude::*;
use crate::weakness::{add_weakness, element_at, element_index, element_order, names, remove_weakness, with_weakness};

verus! {

/// The Bug (debuff key, stat tag) planted on an enemy that already carries
/// `debuff_count` debuffs: the three Bugs take turns.
pub fn bug_key_and_stat(debuff_count: u32) -> (r: (&'static str, &'static str))
    ensures
        debuff_count % 3 == 0 ==> r.0@ == "sw_bug_atk"@ && r.1@ == "Bug"@,
        debuff_count % 3 == 1 ==> r.0@ == "sw_bug_def"@ && r.1@ == "DEF Reduction"@,
        debuff_count % 3 == 2 ==> r.0@ == "sw_bug_spd"@ && r.1@ == "Bug"@,
{
    match debuff_count % 3 {
        0 => ("sw_bug_atk", "Bug"),
        1 => ("sw_bug_def", "DEF Reduction"),
        _ => ("sw_bug_spd", "Bug"),
    }
}

/// Implants `element` as a weakness, first removing the one implanted before
/// (recorded by its position `previous` in the element order). Returns the
/// position to record for the next implant (99 when `element` is none of the
/// seven).
pub fn sw_implant_weakness(weaknesses: &mut Vec<String>, previous: Option<usize>, element: &str) -> (idx: usize)
    ensures
        idx < 7 ==> element_order()[idx as int] == element@,
        idx >= 7 ==> idx == 99 && !element_order().contains(element@),
        names(final(weaknesses)@) == with_weakness(
            match previous {
                Some(p) if p < 7 => names(old(weaknesses)@).filter(|w: Seq<char>| w != element_order()[p as int]),
                _ => names(old(weaknesses)@),
            },
            element@,
        ),
{
    match previous {
        Some(p) => {
            match element_at(p) {
                Some(old_element) => remove_weakness(weaknesses, old_element),
                None => {},
            }
        },
        None => {},
    }
    let idx = element_index(element);
    add_weakness(weaknesses, element);
    idx
}

} // verus!
