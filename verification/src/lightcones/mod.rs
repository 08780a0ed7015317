//! Lightcone passives: which passive a lightcone carries.

pub mod dream_scented_wheat;
pub mod passing_shore;

use vstd::prelude::*;
use crate::ids::{
    LC_ALONG_THE_PASSING_SHORE_ID,
    LC_DREAM_SCENTED_WHEAT_ID,
};
use crate::text::str_eq;

verus! {

/// The lightcone passive whose hooks the engine knows.
#[derive(Debug, Clone, Copy, PartialEq, Eq, Structural)]
pub enum LightconeKit {
    DreamScentedWheat,
    AlongThePassingShore,
}

/// The identifier of each lightcone passive.
pub open spec fn lightcone_id_spec(k: LightconeKit) -> Seq<char> {
    match k {
        LightconeKit::DreamScentedWheat => LC_DREAM_SCENTED_WHEAT_ID@,
        LightconeKit::AlongThePassingShore => LC_ALONG_THE_PASSING_SHORE_ID@,
    }
}

impl LightconeKit {
    /// The identifier of this lightcone passive.
    pub fn id(self) -> (r: &'static str)
        ensures
            r@ == lightcone_id_spec(self),
    {
        match self {
            LightconeKit::DreamScentedWheat => LC_DREAM_SCENTED_WHEAT_ID,
            LightconeKit::AlongThePassingShore => LC_ALONG_THE_PASSING_SHORE_ID,
        }
    }
}

/// The lightcone passive with identifier `id`, trying them in dispatch order.
pub fn lightcone_from_id(id: &str) -> (r: Option<LightconeKit>)
    ensures
        r matches Some(k) ==> id@ == lightcone_id_spec(k),
        r is None ==> forall|k: LightconeKit| id@ != #[trigger] lightcone_id_spec(k),
{
    if str_eq(id, LC_DREAM_SCENTED_WHEAT_ID) {
        return Some(LightconeKit::DreamScentedWheat);
    }
    if str_eq(id, LC_ALONG_THE_PASSING_SHORE_ID) {
        return Some(LightconeKit::AlongThePassingShore);
    }
    proof {
        assert forall|k: LightconeKit| id@ != #[trigger] lightcone_id_spec(k) by {
            match k {
                LightconeKit::DreamScentedWheat => {},
                LightconeKit::AlongThePassingShore => {},
            }
        }
    }
    None
}

spec fn lightcone_id_spec_sig(k: LightconeKit) -> (char,) {
    match k {
        LightconeKit::DreamScentedWheat => ('d',),
        LightconeKit::AlongThePassingShore => ('8',),
    }
}

proof fn lemma_lightcone_id_spec_sig(k: LightconeKit)
    ensures
        (lightcone_id_spec(k)[0],) == lightcone_id_spec_sig(k),
{
    match k {
        LightconeKit::DreamScentedWheat => {
            reveal_strlit("df8260b3-e438-4f9e-b942-2e746bb256f4");
        },
        LightconeKit::AlongThePassingShore => {
            reveal_strlit("8a6a5884-8ec4-4d7b-8aa1-7444844c5734");
        },
    }
}

/// Each lightcone passive answers to its own entry of the identifier table.
pub proof fn lightcone_ids_follow_the_table()
    ensures
        lightcone_id_spec(LightconeKit::DreamScentedWheat) == LC_DREAM_SCENTED_WHEAT_ID@,
        lightcone_id_spec(LightconeKit::AlongThePassingShore) == LC_ALONG_THE_PASSING_SHORE_ID@,
{
}

/// Distinct lightcone passives have distinct identifiers.
pub proof fn lightcone_ids_distinct(a: LightconeKit, b: LightconeKit)
    ensures
        lightcone_id_spec(a) == lightcone_id_spec(b) ==> a == b,
{
    lemma_lightcone_id_spec_sig(a);
    lemma_lightcone_id_spec_sig(b);
}

} // verus!
