//! Enemy kits: which kit handles an enemy.

use vstd::prelude::*;
use crate::ids::{
    ANTIBARYON_ID,
    BARYON_ID,
};
use crate::text::str_eq;

verus! {

/// The enemy kit whose hooks the engine knows.
#[derive(Debug, Clone, Copy, PartialEq, Eq, Structural)]
pub enum EnemyKit {
    Antibaryon,
    Baryon,
}

/// The identifier of each enemy kit.
pub open spec fn enemy_id_spec(k: EnemyKit) -> Seq<char> {
    match k {
        EnemyKit::Antibaryon => ANTIBARYON_ID@,
        EnemyKit::Baryon => BARYON_ID@,
    }
}

impl EnemyKit {
    /// The identifier of this enemy kit.
    pub fn id(self) -> (r: &'static str)
        ensures
            r@ == enemy_id_spec(self),
    {
        match self {
            EnemyKit::Antibaryon => ANTIBARYON_ID,
            EnemyKit::Baryon => BARYON_ID,
        }
    }
}

/// The enemy kit with identifier `id`, trying them in dispatch order.
pub fn enemy_from_id(id: &str) -> (r: Option<EnemyKit>)
    ensures
        r matches Some(k) ==> id@ == enemy_id_spec(k),
        r is None ==> forall|k: EnemyKit| id@ != #[trigger] enemy_id_spec(k),
{
    if str_eq(id, ANTIBARYON_ID) {
        return Some(EnemyKit::Antibaryon);
    }
    if str_eq(id, BARYON_ID) {
        return Some(EnemyKit::Baryon);
    }
    proof {
        assert forall|k: EnemyKit| id@ != #[trigger] enemy_id_spec(k) by {
            match k {
                EnemyKit::Antibaryon => {},
                EnemyKit::Baryon => {},
            }
        }
    }
    None
}

spec fn enemy_id_spec_sig(k: EnemyKit) -> (char,) {
    match k {
        EnemyKit::Antibaryon => ('5',),
        EnemyKit::Baryon => ('9',),
    }
}

proof fn lemma_enemy_id_spec_sig(k: EnemyKit)
    ensures
        (enemy_id_spec(k)[0],) == enemy_id_spec_sig(k),
{
    match k {
        EnemyKit::Antibaryon => {
            reveal_strlit("50cf7b6b-c373-4ee8-ace8-13bf101e0f0f");
        },
        EnemyKit::Baryon => {
            reveal_strlit("962d69dc-fbff-47b4-bfa0-cd4b0358d80b");
        },
    }
}

/// Each enemy kit answers to its own entry of the identifier table.
pub proof fn enemy_ids_follow_the_table()
    ensures
        enemy_id_spec(EnemyKit::Antibaryon) == ANTIBARYON_ID@,
        enemy_id_spec(EnemyKit::Baryon) == BARYON_ID@,
{
}

/// Distinct enemy kits have distinct identifiers.
pub proof fn enemy_ids_distinct(a: EnemyKit, b: EnemyKit)
    ensures
        enemy_id_spec(a) == enemy_id_spec(b) ==> a == b,
{
    lemma_enemy_id_spec_sig(a);
    lemma_enemy_id_spec_sig(b);
}

} // verus!
