//! Cipher: the slots her blast hits besides the main target.

use vstd::prelude::*;

verus! {

/// The slots next to slot `t` in a row of `enemy_count` slots, left first.
pub fn adj_slots(enemy_count: usize, t: usize) -> (r: Vec<usize>)
    requires
        t < usize::MAX,
    ensures
        r@ == (if t > 0 { seq![(t - 1) as usize] } else { Seq::<usize>::empty() }) + (if t + 1 < enemy_count {
            seq![(t + 1) as usize]
        } else {
            Seq::<usize>::empty()
        }),
{
    let mut v: Vec<usize> = Vec::new();
    if t > 0 {
        v.push(t - 1);
    }
    if t + 1 < enemy_count {
        v.push(t + 1);
    }
    proof {
        assert(v@ =~= (if t > 0 { seq![(t - 1) as usize] } else { Seq::<usize>::empty() }) + (if t + 1 < enemy_count {
            seq![(t + 1) as usize]
        } else {
            Seq::<usize>::empty()
        }));
    }
    v
}

} // verus!
