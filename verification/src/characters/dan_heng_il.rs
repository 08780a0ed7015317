//! Dan Heng • Imbibitor Lunae: the living neighbours his blast reaches.

use vstd::prelude::*;

verus! {

/// The occupied slots next to `target`, left first.
pub fn adj_slots<T>(target: usize, enemies: &Vec<Option<T>>) -> (r: Vec<usize>)
    requires
        target <= enemies@.len(),
        target < usize::MAX,
    ensures
        r@ == (if target > 0 && enemies@[target - 1] is Some { seq![(target - 1) as usize] } else {
            Seq::<usize>::empty()
        }) + (if target + 1 < enemies@.len() && enemies@[target + 1] is Some {
            seq![(target + 1) as usize]
        } else {
            Seq::<usize>::empty()
        }),
{
    let mut v: Vec<usize> = Vec::new();
    if target > 0 && enemies[target - 1].is_some() {
        v.push(target - 1);
    }
    if target + 1 < enemies.len() && enemies[target + 1].is_some() {
        v.push(target + 1);
    }
    proof {
        assert(v@ =~= (if target > 0 && enemies@[target - 1] is Some { seq![(target - 1) as usize] } else {
            Seq::<usize>::empty()
        }) + (if target + 1 < enemies@.len() && enemies@[target + 1] is Some {
            seq![(target + 1) as usize]
        } else {
            Seq::<usize>::empty()
        }));
    }
    v
}

} // verus!
