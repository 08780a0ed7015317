//! Anaxa: weakness implanting and its counter.

use vstd::prelude::*;
use crate::characters::{family_prefix, StackKeyFamily};
use crate::text::{decimal, decimal_string, join};
use crate::weakness::{add_weakness, element_at, element_order, names, with_weakness};

verus! {

/// Weakness-implant counter of one enemy instance.
pub fn wk_key(instance_id: &str) -> (r: String)
    ensures
        r@ == family_prefix(StackKeyFamily::AnaxaWeakness) + instance_id@,
{
    join("anaxa_wk_", instance_id)
}

/// Most weaknesses Anaxa can implant on one enemy.
pub const MAX_IMPLANTED: usize = 7;

/// Implanted count at which an enemy is under Qualitative Disclosure.
pub const QD_THRESHOLD: usize = 5;

/// The implant counter after adding `n` implants to `prev` (capped at seven).
pub fn add_wk_count(prev: usize, n: usize) -> (next: usize)
    requires
        prev + n <= usize::MAX,
    ensures
        next == if prev + n < MAX_IMPLANTED { prev + n } else { MAX_IMPLANTED as int },
{
    let s = prev + n;
    if s < MAX_IMPLANTED { s } else { MAX_IMPLANTED }
}

/// An enemy with `count` implants is under Qualitative Disclosure.
pub fn has_qd(count: usize) -> (r: bool)
    ensures
        r == (count >= QD_THRESHOLD),
{
    count >= QD_THRESHOLD
}

/// The weaknesses after implanting the elements at positions `lo..hi` of the
/// element order, each unless already present.
pub open spec fn implanted(ws: Seq<Seq<char>>, lo: nat, hi: nat) -> Seq<Seq<char>>
    decreases hi - lo,
{
    if lo >= hi {
        ws
    } else if lo >= 7 {
        ws
    } else {
        implanted(with_weakness(ws, element_order()[lo as int]), lo + 1, hi)
    }
}

/// Appends the concrete weaknesses for implant counts `prev..next`.
pub fn implant_weakness(weaknesses: &mut Vec<String>, prev: usize, next: usize)
    ensures
        names(final(weaknesses)@) == implanted(names(old(weaknesses)@), prev as nat, next as nat),
{
    let ghost orig = names(weaknesses@);
    let mut i: usize = prev;
    while i < next
        invariant
            prev <= i <= next || (i == prev && prev >= next),
            implanted(orig, prev as nat, next as nat) == implanted(names(weaknesses@), i as nat, next as nat),
        decreases next - i,
    {
        match element_at(i) {
            Some(e) => {
                add_weakness(weaknesses, e);
            },
            None => {
                proof {
                    assert(implanted(names(weaknesses@), i as nat, next as nat) == names(weaknesses@));
                    assert(implanted(names(weaknesses@), (i + 1) as nat, next as nat) == names(weaknesses@));
                }
            },
        }
        i = i + 1;
    }
}

/// The `k`-th implant (counting from zero) gives the `k`-th element of
/// Physical, Fire, Ice, Lightning, Wind, Quantum, Imaginary, unless the enemy
/// already has it; implants past the seventh give nothing.
pub proof fn implant_follows_element_order(ws: Seq<Seq<char>>, k: nat)
    ensures
        k == 0 ==> implanted(ws, k, k + 1) == with_weakness(ws, "Physical"@),
        k == 1 ==> implanted(ws, k, k + 1) == with_weakness(ws, "Fire"@),
        k == 2 ==> implanted(ws, k, k + 1) == with_weakness(ws, "Ice"@),
        k == 3 ==> implanted(ws, k, k + 1) == with_weakness(ws, "Lightning"@),
        k == 4 ==> implanted(ws, k, k + 1) == with_weakness(ws, "Wind"@),
        k == 5 ==> implanted(ws, k, k + 1) == with_weakness(ws, "Quantum"@),
        k == 6 ==> implanted(ws, k, k + 1) == with_weakness(ws, "Imaginary"@),
        k >= 7 ==> implanted(ws, k, k + 1) == ws,
{
    crate::weakness::element_order_is_canonical();
    if k < 7 {
        assert(implanted(with_weakness(ws, element_order()[k as int]), k + 1, k + 1)
            == with_weakness(ws, element_order()[k as int]));
    }
}

/// Implants `lo..hi` are the single implants one after another.
pub proof fn implant_in_steps(ws: Seq<Seq<char>>, lo: nat, hi: nat)
    requires
        lo < hi,
    ensures
        implanted(ws, lo, hi) == implanted(implanted(ws, lo, lo + 1), lo + 1, hi),
{
    if lo < 7 {
        assert(implanted(with_weakness(ws, element_order()[lo as int]), lo + 1, lo + 1)
            == with_weakness(ws, element_order()[lo as int]));
    } else {
        assert(implanted(ws, lo, lo + 1) == ws);
        implanted_past_seven(ws, lo + 1, hi);
    }
}

proof fn implanted_past_seven(ws: Seq<Seq<char>>, lo: nat, hi: nat)
    requires
        lo >= 7,
    ensures
        implanted(ws, lo, hi) == ws,
{
}

/// Implanting keeps the weakness list free of repeats.
pub proof fn implant_keeps_unique(ws: Seq<Seq<char>>, lo: nat, hi: nat)
    requires
        ws.no_duplicates(),
    ensures
        implanted(ws, lo, hi).no_duplicates(),
    decreases hi - lo,
{
    if lo < hi && lo < 7 {
        crate::weakness::add_keeps_unique(ws, element_order()[lo as int]);
        implant_keeps_unique(with_weakness(ws, element_order()[lo as int]), lo + 1, hi);
    }
}

} // verus!
