//! Character kits: which kit handles a team member, and the per-kit logic
//! that does not depend on combat numbers.

pub mod anaxa;
pub mod black_swan;
pub mod bronya;
pub mod cerydra;
pub mod cipher;
pub mod clara;
pub mod dan_heng_il;
pub mod gallagher;
pub mod gepard;
pub mod guinaifen;
pub mod hanya;
pub mod jiaoqiu;
pub mod silver_wolf;

use vstd::prelude::*;
use crate::ids::{
    ACHERON_ID,
    AGLAEA_ID,
    ANAXA_ID,
    ARCHER_ID,
    ARGENTI_ID,
    ARLAN_ID,
    ASHVEIL_ID,
    ASTA_ID,
    AVENTURINE_ID,
    BAILU_ID,
    BLACK_SWAN_ID,
    BLADE_ID,
    BOOTHILL_ID,
    BRONYA_ID,
    CASTORICE_ID,
    CERYDRA_ID,
    CIPHER_ID,
    CLARA_ID,
    DAN_HENG_ID,
    DAN_HENG_IL_ID,
    DAN_HENG_PT_ID,
    DR_RATIO_ID,
    FEIXIAO_ID,
    FIREFLY_ID,
    FU_XUAN_ID,
    GALLAGHER_ID,
    GEPARD_ID,
    GUINAIFEN_ID,
    JIAOQIU_ID,
    PELA_ID,
    SILVER_WOLF_ID,
};
use crate::text::{decimal, is_digit, lemma_numbered_keys_apart, prefixes_apart, str_eq};

verus! {

/// The character kit whose hooks the engine knows.
#[derive(Debug, Clone, Copy, PartialEq, Eq, Structural)]
pub enum Kit {
    Acheron,
    BlackSwan,
    Jiaoqiu,
    Pela,
    SilverWolf,
    Aglaea,
    Argenti,
    Arlan,
    Ashveil,
    Asta,
    Aventurine,
    Bailu,
    Anaxa,
    Archer,
    Blade,
    Boothill,
    Bronya,
    Castorice,
    Cerydra,
    Cipher,
    Clara,
    DanHeng,
    DanHengIl,
    DanHengPt,
    DrRatio,
    Feixiao,
    Firefly,
    FuXuan,
    Gallagher,
    Gepard,
    Guinaifen,
}

/// The identifier of each character kit.
pub open spec fn kit_id_spec(k: Kit) -> Seq<char> {
    match k {
        Kit::Acheron => ACHERON_ID@,
        Kit::BlackSwan => BLACK_SWAN_ID@,
        Kit::Jiaoqiu => JIAOQIU_ID@,
        Kit::Pela => PELA_ID@,
        Kit::SilverWolf => SILVER_WOLF_ID@,
        Kit::Aglaea => AGLAEA_ID@,
        Kit::Argenti => ARGENTI_ID@,
        Kit::Arlan => ARLAN_ID@,
        Kit::Ashveil => ASHVEIL_ID@,
        Kit::Asta => ASTA_ID@,
        Kit::Aventurine => AVENTURINE_ID@,
        Kit::Bailu => BAILU_ID@,
        Kit::Anaxa => ANAXA_ID@,
        Kit::Archer => ARCHER_ID@,
        Kit::Blade => BLADE_ID@,
        Kit::Boothill => BOOTHILL_ID@,
        Kit::Bronya => BRONYA_ID@,
        Kit::Castorice => CASTORICE_ID@,
        Kit::Cerydra => CERYDRA_ID@,
        Kit::Cipher => CIPHER_ID@,
        Kit::Clara => CLARA_ID@,
        Kit::DanHeng => DAN_HENG_ID@,
        Kit::DanHengIl => DAN_HENG_IL_ID@,
        Kit::DanHengPt => DAN_HENG_PT_ID@,
        Kit::DrRatio => DR_RATIO_ID@,
        Kit::Feixiao => FEIXIAO_ID@,
        Kit::Firefly => FIREFLY_ID@,
        Kit::FuXuan => FU_XUAN_ID@,
        Kit::Gallagher => GALLAGHER_ID@,
        Kit::Gepard => GEPARD_ID@,
        Kit::Guinaifen => GUINAIFEN_ID@,
    }
}

impl Kit {
    /// The identifier of this character kit.
    pub fn id(self) -> (r: &'static str)
        ensures
            r@ == kit_id_spec(self),
    {
        match self {
            Kit::Acheron => ACHERON_ID,
            Kit::BlackSwan => BLACK_SWAN_ID,
            Kit::Jiaoqiu => JIAOQIU_ID,
            Kit::Pela => PELA_ID,
            Kit::SilverWolf => SILVER_WOLF_ID,
            Kit::Aglaea => AGLAEA_ID,
            Kit::Argenti => ARGENTI_ID,
            Kit::Arlan => ARLAN_ID,
            Kit::Ashveil => ASHVEIL_ID,
            Kit::Asta => ASTA_ID,
            Kit::Aventurine => AVENTURINE_ID,
            Kit::Bailu => BAILU_ID,
            Kit::Anaxa => ANAXA_ID,
            Kit::Archer => ARCHER_ID,
            Kit::Blade => BLADE_ID,
            Kit::Boothill => BOOTHILL_ID,
            Kit::Bronya => BRONYA_ID,
            Kit::Castorice => CASTORICE_ID,
            Kit::Cerydra => CERYDRA_ID,
            Kit::Cipher => CIPHER_ID,
            Kit::Clara => CLARA_ID,
            Kit::DanHeng => DAN_HENG_ID,
            Kit::DanHengIl => DAN_HENG_IL_ID,
            Kit::DanHengPt => DAN_HENG_PT_ID,
            Kit::DrRatio => DR_RATIO_ID,
            Kit::Feixiao => FEIXIAO_ID,
            Kit::Firefly => FIREFLY_ID,
            Kit::FuXuan => FU_XUAN_ID,
            Kit::Gallagher => GALLAGHER_ID,
            Kit::Gepard => GEPARD_ID,
            Kit::Guinaifen => GUINAIFEN_ID,
        }
    }
}

/// The character kit with identifier `id`: the kit whose table entry it is,
/// or none.
pub fn kit_from_id(id: &str) -> (r: Option<Kit>)
    ensures
        r matches Some(k) ==> id@ == kit_id_spec(k),
        r is None ==> forall|k: Kit| id@ != #[trigger] kit_id_spec(k),
        forall|k: Kit| id@ == #[trigger] kit_id_spec(k) ==> r == Some(k),
{
    let r = kit_lookup(id);
    proof {
        if let Some(k0) = r {
            assert forall|k: Kit| id@ == #[trigger] kit_id_spec(k) implies r == Some(k) by {
                kit_ids_distinct(k, k0);
            }
        }
    }
    r
}

/// The identifiers tried in dispatch order.
fn kit_lookup(id: &str) -> (r: Option<Kit>)
    ensures
        r matches Some(k) ==> id@ == kit_id_spec(k),
        r is None ==> forall|k: Kit| id@ != #[trigger] kit_id_spec(k),
{
    if str_eq(id, ACHERON_ID) {
        return Some(Kit::Acheron);
    }
    if str_eq(id, BLACK_SWAN_ID) {
        return Some(Kit::BlackSwan);
    }
    if str_eq(id, JIAOQIU_ID) {
        return Some(Kit::Jiaoqiu);
    }
    if str_eq(id, PELA_ID) {
        return Some(Kit::Pela);
    }
    if str_eq(id, SILVER_WOLF_ID) {
        return Some(Kit::SilverWolf);
    }
    if str_eq(id, AGLAEA_ID) {
        return Some(Kit::Aglaea);
    }
    if str_eq(id, ARGENTI_ID) {
        return Some(Kit::Argenti);
    }
    if str_eq(id, ARLAN_ID) {
        return Some(Kit::Arlan);
    }
    if str_eq(id, ASHVEIL_ID) {
        return Some(Kit::Ashveil);
    }
    if str_eq(id, ASTA_ID) {
        return Some(Kit::Asta);
    }
    if str_eq(id, AVENTURINE_ID) {
        return Some(Kit::Aventurine);
    }
    if str_eq(id, BAILU_ID) {
        return Some(Kit::Bailu);
    }
    if str_eq(id, ANAXA_ID) {
        return Some(Kit::Anaxa);
    }
    if str_eq(id, ARCHER_ID) {
        return Some(Kit::Archer);
    }
    if str_eq(id, BLADE_ID) {
        return Some(Kit::Blade);
    }
    if str_eq(id, BOOTHILL_ID) {
        return Some(Kit::Boothill);
    }
    if str_eq(id, BRONYA_ID) {
        return Some(Kit::Bronya);
    }
    if str_eq(id, CASTORICE_ID) {
        return Some(Kit::Castorice);
    }
    if str_eq(id, CERYDRA_ID) {
        return Some(Kit::Cerydra);
    }
    if str_eq(id, CIPHER_ID) {
        return Some(Kit::Cipher);
    }
    if str_eq(id, CLARA_ID) {
        return Some(Kit::Clara);
    }
    if str_eq(id, DAN_HENG_ID) {
        return Some(Kit::DanHeng);
    }
    if str_eq(id, DAN_HENG_IL_ID) {
        return Some(Kit::DanHengIl);
    }
    if str_eq(id, DAN_HENG_PT_ID) {
        return Some(Kit::DanHengPt);
    }
    if str_eq(id, DR_RATIO_ID) {
        return Some(Kit::DrRatio);
    }
    if str_eq(id, FEIXIAO_ID) {
        return Some(Kit::Feixiao);
    }
    if str_eq(id, FIREFLY_ID) {
        return Some(Kit::Firefly);
    }
    if str_eq(id, FU_XUAN_ID) {
        return Some(Kit::FuXuan);
    }
    if str_eq(id, GALLAGHER_ID) {
        return Some(Kit::Gallagher);
    }
    if str_eq(id, GEPARD_ID) {
        return Some(Kit::Gepard);
    }
    if str_eq(id, GUINAIFEN_ID) {
        return Some(Kit::Guinaifen);
    }
    proof {
        assert forall|k: Kit| id@ != #[trigger] kit_id_spec(k) by {
            match k {
                Kit::Acheron => {},
                Kit::BlackSwan => {},
                Kit::Jiaoqiu => {},
                Kit::Pela => {},
                Kit::SilverWolf => {},
                Kit::Aglaea => {},
                Kit::Argenti => {},
                Kit::Arlan => {},
                Kit::Ashveil => {},
                Kit::Asta => {},
                Kit::Aventurine => {},
                Kit::Bailu => {},
                Kit::Anaxa => {},
                Kit::Archer => {},
                Kit::Blade => {},
                Kit::Boothill => {},
                Kit::Bronya => {},
                Kit::Castorice => {},
                Kit::Cerydra => {},
                Kit::Cipher => {},
                Kit::Clara => {},
                Kit::DanHeng => {},
                Kit::DanHengIl => {},
                Kit::DanHengPt => {},
                Kit::DrRatio => {},
                Kit::Feixiao => {},
                Kit::Firefly => {},
                Kit::FuXuan => {},
                Kit::Gallagher => {},
                Kit::Gepard => {},
                Kit::Guinaifen => {},
            }
        }
    }
    None
}

spec fn kit_id_spec_sig(k: Kit) -> (char, char, char) {
    match k {
        Kit::Acheron => ('f', '6', '2'),
        Kit::BlackSwan => ('a', '0', '9'),
        Kit::Jiaoqiu => ('f', '6', '3'),
        Kit::Pela => ('a', '3', '4'),
        Kit::SilverWolf => ('2', '7', 'e'),
        Kit::Aglaea => ('e', 'd', '1'),
        Kit::Argenti => ('e', 'b', 'c'),
        Kit::Arlan => ('d', 'c', 'd'),
        Kit::Ashveil => ('f', '0', 'd'),
        Kit::Asta => ('a', '9', '7'),
        Kit::Aventurine => ('c', '1', '8'),
        Kit::Bailu => ('d', '2', '9'),
        Kit::Anaxa => ('7', 'a', 'b'),
        Kit::Archer => ('e', '9', '6'),
        Kit::Blade => ('e', '1', '8'),
        Kit::Boothill => ('f', '2', '9'),
        Kit::Bronya => ('a', 'b', '0'),
        Kit::Castorice => ('b', 'c', '2'),
        Kit::Cerydra => ('d', 'e', '5'),
        Kit::Cipher => ('e', 'f', '6'),
        Kit::Clara => ('a', '6', '5'),
        Kit::DanHeng => ('9', 'f', '8'),
        Kit::DanHengIl => ('d', '1', '0'),
        Kit::DanHengPt => ('e', '3', '2'),
        Kit::DrRatio => ('a', '7', '6'),
        Kit::Feixiao => ('b', '8', '7'),
        Kit::Firefly => ('c', '6', '5'),
        Kit::FuXuan => ('d', '7', '6'),
        Kit::Gallagher => ('e', '8', '7'),
        Kit::Gepard => ('f', '0', '9'),
        Kit::Guinaifen => ('a', '1', '0'),
    }
}

proof fn lemma_kit_id_spec_sig(k: Kit)
    ensures
        (kit_id_spec(k)[0], kit_id_spec(k)[20], kit_id_spec(k)[35]) == kit_id_spec_sig(k),
{
    match k {
        Kit::Acheron => {
            reveal_strlit("f06222e4-d23d-4ac2-86ff-3a6cc389b812");
        },
        Kit::BlackSwan => {
            reveal_strlit("a0b1c2d3-e4f5-6789-a0b1-c2d3e4f56789");
        },
        Kit::Jiaoqiu => {
            reveal_strlit("f06222e4-d23d-4ac2-86ff-3a6cc389b813");
        },
        Kit::Pela => {
            reveal_strlit("a8a4d435-bcd4-4105-83ab-72650f296844");
        },
        Kit::SilverWolf => {
            reveal_strlit("2f2432f3-4736-4210-870a-c48d0c6bc3ee");
        },
        Kit::Aglaea => {
            reveal_strlit("e1e8adcb-ba8f-4c38-adec-cc5c9bfe09e1");
        },
        Kit::Argenti => {
            reveal_strlit("e1a2b3c4-d5e6-4f7a-8b9c-0d1e2f3a4b5c");
        },
        Kit::Arlan => {
            reveal_strlit("d2c3b4a5-e6f7-4a8b-9c0d-1e2f3a4b5c6d");
        },
        Kit::Ashveil => {
            reveal_strlit("f1e2d3c4-b5a6-4789-a0bc-de1f2a3b4c5d");
        },
        Kit::Asta => {
            reveal_strlit("a8b9c0d1-e2f3-4567-89ab-cdef01234567");
        },
        Kit::Aventurine => {
            reveal_strlit("c2d3e4f5-a6b7-4890-c1d2-e3f4a5b6c7d8");
        },
        Kit::Bailu => {
            reveal_strlit("d3e4f5a6-b7c8-4901-d2e3-f4a5b6c7d8e9");
        },
        Kit::Anaxa => {
            reveal_strlit("7e8f9a0b-1c2d-3e4f-5a6b-7c8d9e0f1a2b");
        },
        Kit::Archer => {
            reveal_strlit("e1f2a3b4-c5d6-e7f8-a9b0-c1d2e3f4a5b6");
        },
        Kit::Blade => {
            reveal_strlit("e4f5a6b7-c8d9-4e0f-a1b2-c3d4e5f6a7b8");
        },
        Kit::Boothill => {
            reveal_strlit("f5a6b7c8-d9e0-4f1a-b2c3-d4e5f6a7b8c9");
        },
        Kit::Bronya => {
            reveal_strlit("a1b2c3d4-e5f6-7890-abcd-ef1234567890");
        },
        Kit::Castorice => {
            reveal_strlit("b2c3d4e5-f6a7-8901-bcde-f23456789012");
        },
        Kit::Cerydra => {
            reveal_strlit("d4e5f6a7-b8c9-0123-def0-456789012345");
        },
        Kit::Cipher => {
            reveal_strlit("e5f6a7b8-c9d0-1234-ef01-567890123456");
        },
        Kit::Clara => {
            reveal_strlit("a6b7c8d9-e0f1-2345-a6b7-c8d9e0f12345");
        },
        Kit::DanHeng => {
            reveal_strlit("9f8e7d6c-5b4a-3928-9f8e-7d6c5b4a3928");
        },
        Kit::DanHengIl => {
            reveal_strlit("d1e2f3a4-b5c6-7890-d1e2-f3a4b5c67890");
        },
        Kit::DanHengPt => {
            reveal_strlit("e3f4a5b6-c7d8-9012-e3f4-a5b6c7d89012");
        },
        Kit::DrRatio => {
            reveal_strlit("a7b8c9d0-e1f2-3456-a7b8-c9d0e1f23456");
        },
        Kit::Feixiao => {
            reveal_strlit("b8c9d0e1-f2a3-4567-b8c9-d0e1f2a34567");
        },
        Kit::Firefly => {
            reveal_strlit("c6d7e8f9-a0b1-2345-c6d7-e8f9a0b12345");
        },
        Kit::FuXuan => {
            reveal_strlit("d7e8f9a0-b1c2-3456-d7e8-f9a0b1c23456");
        },
        Kit::Gallagher => {
            reveal_strlit("e8f9a0b1-c2d3-4567-e8f9-a0b1c2d34567");
        },
        Kit::Gepard => {
            reveal_strlit("f0a1b2c3-d4e5-6789-f0a1-b2c3d4e56789");
        },
        Kit::Guinaifen => {
            reveal_strlit("a1b2c3d4-e5f6-7890-a1b2-c3d4e5f67890");
        },
    }
}

/// Each kit answers to its own entry of the identifier table: Acheron's hooks
/// run for `ACHERON_ID`, Pela's for `PELA_ID`, and so on for every kit.
pub proof fn kit_ids_follow_the_table()
    ensures
        kit_id_spec(Kit::Acheron) == ACHERON_ID@,
        kit_id_spec(Kit::BlackSwan) == BLACK_SWAN_ID@,
        kit_id_spec(Kit::Jiaoqiu) == JIAOQIU_ID@,
        kit_id_spec(Kit::Pela) == PELA_ID@,
        kit_id_spec(Kit::SilverWolf) == SILVER_WOLF_ID@,
        kit_id_spec(Kit::Aglaea) == AGLAEA_ID@,
        kit_id_spec(Kit::Argenti) == ARGENTI_ID@,
        kit_id_spec(Kit::Arlan) == ARLAN_ID@,
        kit_id_spec(Kit::Ashveil) == ASHVEIL_ID@,
        kit_id_spec(Kit::Asta) == ASTA_ID@,
        kit_id_spec(Kit::Aventurine) == AVENTURINE_ID@,
        kit_id_spec(Kit::Bailu) == BAILU_ID@,
        kit_id_spec(Kit::Anaxa) == ANAXA_ID@,
        kit_id_spec(Kit::Archer) == ARCHER_ID@,
        kit_id_spec(Kit::Blade) == BLADE_ID@,
        kit_id_spec(Kit::Boothill) == BOOTHILL_ID@,
        kit_id_spec(Kit::Bronya) == BRONYA_ID@,
        kit_id_spec(Kit::Castorice) == CASTORICE_ID@,
        kit_id_spec(Kit::Cerydra) == CERYDRA_ID@,
        kit_id_spec(Kit::Cipher) == CIPHER_ID@,
        kit_id_spec(Kit::Clara) == CLARA_ID@,
        kit_id_spec(Kit::DanHeng) == DAN_HENG_ID@,
        kit_id_spec(Kit::DanHengIl) == DAN_HENG_IL_ID@,
        kit_id_spec(Kit::DanHengPt) == DAN_HENG_PT_ID@,
        kit_id_spec(Kit::DrRatio) == DR_RATIO_ID@,
        kit_id_spec(Kit::Feixiao) == FEIXIAO_ID@,
        kit_id_spec(Kit::Firefly) == FIREFLY_ID@,
        kit_id_spec(Kit::FuXuan) == FU_XUAN_ID@,
        kit_id_spec(Kit::Gallagher) == GALLAGHER_ID@,
        kit_id_spec(Kit::Gepard) == GEPARD_ID@,
        kit_id_spec(Kit::Guinaifen) == GUINAIFEN_ID@,
{
}

/// Distinct character kits have distinct identifiers, so the lookup finds every kit by its own identifier.
pub proof fn kit_ids_distinct(a: Kit, b: Kit)
    ensures
        kit_id_spec(a) == kit_id_spec(b) ==> a == b,
{
    lemma_kit_id_spec_sig(a);
    lemma_kit_id_spec_sig(b);
}

impl Kit {
    /// Whether the kit reacts when an enemy's weakness is broken.
    pub fn reacts_to_break(self) -> (r: bool)
        ensures
            r == (self == Kit::SilverWolf || self == Kit::Boothill || self == Kit::Firefly),
    {
        match self {
            Kit::SilverWolf | Kit::Boothill | Kit::Firefly => true,
            _ => false,
        }
    }
}

/// The team members notified after member `source` acts: everyone else, in
/// team order.
pub fn ally_action_listeners(team_len: usize, source: usize) -> (r: Vec<usize>)
    ensures
        r@ == Seq::new(team_len as nat, |i: int| i as usize).filter(|i: usize| i != source),
{
    let mut r: Vec<usize> = Vec::new();
    let mut i: usize = 0;
    while i < team_len
        invariant
            i <= team_len,
            r@ == Seq::new(i as nat, |j: int| j as usize).filter(|j: usize| j != source),
        decreases team_len - i,
    {
        proof {
            let s = Seq::new(i as nat, |j: int| j as usize);
            let t = Seq::new((i + 1) as nat, |j: int| j as usize);
            assert(t =~= s.push(i));
            s.lemma_filter_push(i, |j: usize| j != source);
        }
        if i != source {
            r.push(i);
        }
        i = i + 1;
    }
    r
}


// ── Counters in the shared stack map ───────────────────────────────────────

/// The families of per-slot and per-enemy counters that kits keep in the
/// shared stack map.
#[derive(Debug, Clone, Copy, PartialEq, Eq, Structural)]
pub enum StackKeyFamily {
    AnaxaWeakness,
    BlackSwanArcana,
    BlackSwanArcanaAcc,
    BlackSwanEpiphany,
    BronyaA4,
    BronyaTech,
    BronyaUlt,
    CerydraSpd,
    ClaraMark,
    GallagherBesotted,
    GepardFrozen,
    GuinaifenBurn,
    GuinaifenBurnBoost,
    GuinaifenFirekiss,
    GuinaifenFirekissDur,
    HanyaTalent,
    HanyaA2,
    HanyaUlt,
    JiaoqiuAshen,
}

/// The fixed start of every key of a family.
pub open spec fn family_prefix(f: StackKeyFamily) -> Seq<char> {
    match f {
        StackKeyFamily::AnaxaWeakness => "anaxa_wk_"@,
        StackKeyFamily::BlackSwanArcana => "bs_arcana_"@,
        StackKeyFamily::BlackSwanArcanaAcc => "bs_arcana_acc_"@,
        StackKeyFamily::BlackSwanEpiphany => "bs_epiphany_"@,
        StackKeyFamily::BronyaA4 => "bronya_a4_"@,
        StackKeyFamily::BronyaTech => "bronya_tech_"@,
        StackKeyFamily::BronyaUlt => "bronya_ult_"@,
        StackKeyFamily::CerydraSpd => "cerydra_spd_rem_"@,
        StackKeyFamily::ClaraMark => "clara_mark_"@,
        StackKeyFamily::GallagherBesotted => "gallagher_besotted_"@,
        StackKeyFamily::GepardFrozen => "gepard_frozen_"@,
        StackKeyFamily::GuinaifenBurn => "guinaifen_burn_"@,
        StackKeyFamily::GuinaifenBurnBoost => "guinaifen_burn_boost_"@,
        StackKeyFamily::GuinaifenFirekiss => "guinaifen_fk_"@,
        StackKeyFamily::GuinaifenFirekissDur => "guinaifen_fk_dur_"@,
        StackKeyFamily::HanyaTalent => "hanya_talent_"@,
        StackKeyFamily::HanyaA2 => "hanya_a2_"@,
        StackKeyFamily::HanyaUlt => "hanya_ult_"@,
        StackKeyFamily::JiaoqiuAshen => "ashen_roast_"@,
    }
}

/// Families whose keys end in a slot or team index (the others end in an
/// enemy instance id).
pub open spec fn family_is_numbered(f: StackKeyFamily) -> bool {
    match f {
        StackKeyFamily::AnaxaWeakness => false,
        StackKeyFamily::JiaoqiuAshen => false,
        _ => true,
    }
}

/// A suffix that a family's key can end in: a decimal index for numbered families.
pub open spec fn suffix_admissible(f: StackKeyFamily, suffix: Seq<char>) -> bool {
    family_is_numbered(f) ==> exists|n: nat| suffix == #[trigger] decimal(n)
}

proof fn lemma_apart_from_anaxa_weakness(g: StackKeyFamily)
    requires
        g != StackKeyFamily::AnaxaWeakness,
    ensures
        prefixes_apart(family_prefix(StackKeyFamily::AnaxaWeakness), family_prefix(g)),
        (family_is_numbered(StackKeyFamily::AnaxaWeakness) && family_is_numbered(g)) || exists|k: int| 0 <= k < family_prefix(StackKeyFamily::AnaxaWeakness).len() && k < family_prefix(g).len() && family_prefix(StackKeyFamily::AnaxaWeakness)[k] != family_prefix(g)[k],
{
    reveal_strlit("anaxa_wk_");
    match g {
        StackKeyFamily::BlackSwanArcana => {
            reveal_strlit("bs_arcana_");
            assert(family_prefix(StackKeyFamily::AnaxaWeakness)[0] != family_prefix(g)[0]);
        },
        StackKeyFamily::BlackSwanArcanaAcc => {
            reveal_strlit("bs_arcana_acc_");
            assert(family_prefix(StackKeyFamily::AnaxaWeakness)[0] != family_prefix(g)[0]);
        },
        StackKeyFamily::BlackSwanEpiphany => {
            reveal_strlit("bs_epiphany_");
            assert(family_prefix(StackKeyFamily::AnaxaWeakness)[0] != family_prefix(g)[0]);
        },
        StackKeyFamily::BronyaA4 => {
            reveal_strlit("bronya_a4_");
            assert(family_prefix(StackKeyFamily::AnaxaWeakness)[0] != family_prefix(g)[0]);
        },
        StackKeyFamily::BronyaTech => {
            reveal_strlit("bronya_tech_");
            assert(family_prefix(StackKeyFamily::AnaxaWeakness)[0] != family_prefix(g)[0]);
        },
        StackKeyFamily::BronyaUlt => {
            reveal_strlit("bronya_ult_");
            assert(family_prefix(StackKeyFamily::AnaxaWeakness)[0] != family_prefix(g)[0]);
        },
        StackKeyFamily::CerydraSpd => {
            reveal_strlit("cerydra_spd_rem_");
            assert(family_prefix(StackKeyFamily::AnaxaWeakness)[0] != family_prefix(g)[0]);
        },
        StackKeyFamily::ClaraMark => {
            reveal_strlit("clara_mark_");
            assert(family_prefix(StackKeyFamily::AnaxaWeakness)[0] != family_prefix(g)[0]);
        },
        StackKeyFamily::GallagherBesotted => {
            reveal_strlit("gallagher_besotted_");
            assert(family_prefix(StackKeyFamily::AnaxaWeakness)[0] != family_prefix(g)[0]);
        },
        StackKeyFamily::GepardFrozen => {
            reveal_strlit("gepard_frozen_");
            assert(family_prefix(StackKeyFamily::AnaxaWeakness)[0] != family_prefix(g)[0]);
        },
        StackKeyFamily::GuinaifenBurn => {
            reveal_strlit("guinaifen_burn_");
            assert(family_prefix(StackKeyFamily::AnaxaWeakness)[0] != family_prefix(g)[0]);
        },
        StackKeyFamily::GuinaifenBurnBoost => {
            reveal_strlit("guinaifen_burn_boost_");
            assert(family_prefix(StackKeyFamily::AnaxaWeakness)[0] != family_prefix(g)[0]);
        },
        StackKeyFamily::GuinaifenFirekiss => {
            reveal_strlit("guinaifen_fk_");
            assert(family_prefix(StackKeyFamily::AnaxaWeakness)[0] != family_prefix(g)[0]);
        },
        StackKeyFamily::GuinaifenFirekissDur => {
            reveal_strlit("guinaifen_fk_dur_");
            assert(family_prefix(StackKeyFamily::AnaxaWeakness)[0] != family_prefix(g)[0]);
        },
        StackKeyFamily::HanyaTalent => {
            reveal_strlit("hanya_talent_");
            assert(family_prefix(StackKeyFamily::AnaxaWeakness)[0] != family_prefix(g)[0]);
        },
        StackKeyFamily::HanyaA2 => {
            reveal_strlit("hanya_a2_");
            assert(family_prefix(StackKeyFamily::AnaxaWeakness)[0] != family_prefix(g)[0]);
        },
        StackKeyFamily::HanyaUlt => {
            reveal_strlit("hanya_ult_");
            assert(family_prefix(StackKeyFamily::AnaxaWeakness)[0] != family_prefix(g)[0]);
        },
        StackKeyFamily::JiaoqiuAshen => {
            reveal_strlit("ashen_roast_");
            assert(family_prefix(StackKeyFamily::AnaxaWeakness)[1] != family_prefix(g)[1]);
        },
        _ => {},
    }
}

proof fn lemma_apart_from_black_swan_arcana(g: StackKeyFamily)
    requires
        g != StackKeyFamily::BlackSwanArcana,
    ensures
        prefixes_apart(family_prefix(StackKeyFamily::BlackSwanArcana), family_prefix(g)),
        (family_is_numbered(StackKeyFamily::BlackSwanArcana) && family_is_numbered(g)) || exists|k: int| 0 <= k < family_prefix(StackKeyFamily::BlackSwanArcana).len() && k < family_prefix(g).len() && family_prefix(StackKeyFamily::BlackSwanArcana)[k] != family_prefix(g)[k],
{
    reveal_strlit("bs_arcana_");
    match g {
        StackKeyFamily::AnaxaWeakness => {
            reveal_strlit("anaxa_wk_");
            assert(family_prefix(StackKeyFamily::BlackSwanArcana)[0] != family_prefix(g)[0]);
        },
        StackKeyFamily::BlackSwanArcanaAcc => {
            reveal_strlit("bs_arcana_acc_");
            assert(family_prefix(g).subrange(0, 10) =~= family_prefix(StackKeyFamily::BlackSwanArcana));
            assert(!is_digit(family_prefix(g)[10]));
        },
        StackKeyFamily::BlackSwanEpiphany => {
            reveal_strlit("bs_epiphany_");
            assert(family_prefix(StackKeyFamily::BlackSwanArcana)[3] != family_prefix(g)[3]);
        },
        StackKeyFamily::BronyaA4 => {
            reveal_strlit("bronya_a4_");
            assert(family_prefix(StackKeyFamily::BlackSwanArcana)[1] != family_prefix(g)[1]);
        },
        StackKeyFamily::BronyaTech => {
            reveal_strlit("bronya_tech_");
            assert(family_prefix(StackKeyFamily::BlackSwanArcana)[1] != family_prefix(g)[1]);
        },
        StackKeyFamily::BronyaUlt => {
            reveal_strlit("bronya_ult_");
            assert(family_prefix(StackKeyFamily::BlackSwanArcana)[1] != family_prefix(g)[1]);
        },
        StackKeyFamily::CerydraSpd => {
            reveal_strlit("cerydra_spd_rem_");
            assert(family_prefix(StackKeyFamily::BlackSwanArcana)[0] != family_prefix(g)[0]);
        },
        StackKeyFamily::ClaraMark => {
            reveal_strlit("clara_mark_");
            assert(family_prefix(StackKeyFamily::BlackSwanArcana)[0] != family_prefix(g)[0]);
        },
        StackKeyFamily::GallagherBesotted => {
            reveal_strlit("gallagher_besotted_");
            assert(family_prefix(StackKeyFamily::BlackSwanArcana)[0] != family_prefix(g)[0]);
        },
        StackKeyFamily::GepardFrozen => {
            reveal_strlit("gepard_frozen_");
            assert(family_prefix(StackKeyFamily::BlackSwanArcana)[0] != family_prefix(g)[0]);
        },
        StackKeyFamily::GuinaifenBurn => {
            reveal_strlit("guinaifen_burn_");
            assert(family_prefix(StackKeyFamily::BlackSwanArcana)[0] != family_prefix(g)[0]);
        },
        StackKeyFamily::GuinaifenBurnBoost => {
            reveal_strlit("guinaifen_burn_boost_");
            assert(family_prefix(StackKeyFamily::BlackSwanArcana)[0] != family_prefix(g)[0]);
        },
        StackKeyFamily::GuinaifenFirekiss => {
            reveal_strlit("guinaifen_fk_");
            assert(family_prefix(StackKeyFamily::BlackSwanArcana)[0] != family_prefix(g)[0]);
        },
        StackKeyFamily::GuinaifenFirekissDur => {
            reveal_strlit("guinaifen_fk_dur_");
            assert(family_prefix(StackKeyFamily::BlackSwanArcana)[0] != family_prefix(g)[0]);
        },
        StackKeyFamily::HanyaTalent => {
            reveal_strlit("hanya_talent_");
            assert(family_prefix(StackKeyFamily::BlackSwanArcana)[0] != family_prefix(g)[0]);
        },
        StackKeyFamily::HanyaA2 => {
            reveal_strlit("hanya_a2_");
            assert(family_prefix(StackKeyFamily::BlackSwanArcana)[0] != family_prefix(g)[0]);
        },
        StackKeyFamily::HanyaUlt => {
            reveal_strlit("hanya_ult_");
            assert(family_prefix(StackKeyFamily::BlackSwanArcana)[0] != family_prefix(g)[0]);
        },
        StackKeyFamily::JiaoqiuAshen => {
            reveal_strlit("ashen_roast_");
            assert(family_prefix(StackKeyFamily::BlackSwanArcana)[0] != family_prefix(g)[0]);
        },
        _ => {},
    }
}

proof fn lemma_apart_from_black_swan_arcana_acc(g: StackKeyFamily)
    requires
        g != StackKeyFamily::BlackSwanArcanaAcc,
    ensures
        prefixes_apart(family_prefix(StackKeyFamily::BlackSwanArcanaAcc), family_prefix(g)),
        (family_is_numbered(StackKeyFamily::BlackSwanArcanaAcc) && family_is_numbered(g)) || exists|k: int| 0 <= k < family_prefix(StackKeyFamily::BlackSwanArcanaAcc).len() && k < family_prefix(g).len() && family_prefix(StackKeyFamily::BlackSwanArcanaAcc)[k] != family_prefix(g)[k],
{
    reveal_strlit("bs_arcana_acc_");
    match g {
        StackKeyFamily::AnaxaWeakness => {
            reveal_strlit("anaxa_wk_");
            assert(family_prefix(StackKeyFamily::BlackSwanArcanaAcc)[0] != family_prefix(g)[0]);
        },
        StackKeyFamily::BlackSwanArcana => {
            reveal_strlit("bs_arcana_");
            assert(family_prefix(StackKeyFamily::BlackSwanArcanaAcc).subrange(0, 10) =~= family_prefix(g));
            assert(!is_digit(family_prefix(StackKeyFamily::BlackSwanArcanaAcc)[10]));
        },
        StackKeyFamily::BlackSwanEpiphany => {
            reveal_strlit("bs_epiphany_");
            assert(family_prefix(StackKeyFamily::BlackSwanArcanaAcc)[3] != family_prefix(g)[3]);
        },
        StackKeyFamily::BronyaA4 => {
            reveal_strlit("bronya_a4_");
            assert(family_prefix(StackKeyFamily::BlackSwanArcanaAcc)[1] != family_prefix(g)[1]);
        },
        StackKeyFamily::BronyaTech => {
            reveal_strlit("bronya_tech_");
            assert(family_prefix(StackKeyFamily::BlackSwanArcanaAcc)[1] != family_prefix(g)[1]);
        },
        StackKeyFamily::BronyaUlt => {
            reveal_strlit("bronya_ult_");
            assert(family_prefix(StackKeyFamily::BlackSwanArcanaAcc)[1] != family_prefix(g)[1]);
        },
        StackKeyFamily::CerydraSpd => {
            reveal_strlit("cerydra_spd_rem_");
            assert(family_prefix(StackKeyFamily::BlackSwanArcanaAcc)[0] != family_prefix(g)[0]);
        },
        StackKeyFamily::ClaraMark => {
            reveal_strlit("clara_mark_");
            assert(family_prefix(StackKeyFamily::BlackSwanArcanaAcc)[0] != family_prefix(g)[0]);
        },
        StackKeyFamily::GallagherBesotted => {
            reveal_strlit("gallagher_besotted_");
            assert(family_prefix(StackKeyFamily::BlackSwanArcanaAcc)[0] != family_prefix(g)[0]);
        },
        StackKeyFamily::GepardFrozen => {
            reveal_strlit("gepard_frozen_");
            assert(family_prefix(StackKeyFamily::BlackSwanArcanaAcc)[0] != family_prefix(g)[0]);
        },
        StackKeyFamily::GuinaifenBurn => {
            reveal_strlit("guinaifen_burn_");
            assert(family_prefix(StackKeyFamily::BlackSwanArcanaAcc)[0] != family_prefix(g)[0]);
        },
        StackKeyFamily::GuinaifenBurnBoost => {
            reveal_strlit("guinaifen_burn_boost_");
            assert(family_prefix(StackKeyFamily::BlackSwanArcanaAcc)[0] != family_prefix(g)[0]);
        },
        StackKeyFamily::GuinaifenFirekiss => {
            reveal_strlit("guinaifen_fk_");
            assert(family_prefix(StackKeyFamily::BlackSwanArcanaAcc)[0] != family_prefix(g)[0]);
        },
        StackKeyFamily::GuinaifenFirekissDur => {
            reveal_strlit("guinaifen_fk_dur_");
            assert(family_prefix(StackKeyFamily::BlackSwanArcanaAcc)[0] != family_prefix(g)[0]);
        },
        StackKeyFamily::HanyaTalent => {
            reveal_strlit("hanya_talent_");
            assert(family_prefix(StackKeyFamily::BlackSwanArcanaAcc)[0] != family_prefix(g)[0]);
        },
        StackKeyFamily::HanyaA2 => {
            reveal_strlit("hanya_a2_");
            assert(family_prefix(StackKeyFamily::BlackSwanArcanaAcc)[0] != family_prefix(g)[0]);
        },
        StackKeyFamily::HanyaUlt => {
            reveal_strlit("hanya_ult_");
            assert(family_prefix(StackKeyFamily::BlackSwanArcanaAcc)[0] != family_prefix(g)[0]);
        },
        StackKeyFamily::JiaoqiuAshen => {
            reveal_strlit("ashen_roast_");
            assert(family_prefix(StackKeyFamily::BlackSwanArcanaAcc)[0] != family_prefix(g)[0]);
        },
        _ => {},
    }
}

proof fn lemma_apart_from_black_swan_epiphany(g: StackKeyFamily)
    requires
        g != StackKeyFamily::BlackSwanEpiphany,
    ensures
        prefixes_apart(family_prefix(StackKeyFamily::BlackSwanEpiphany), family_prefix(g)),
        (family_is_numbered(StackKeyFamily::BlackSwanEpiphany) && family_is_numbered(g)) || exists|k: int| 0 <= k < family_prefix(StackKeyFamily::BlackSwanEpiphany).len() && k < family_prefix(g).len() && family_prefix(StackKeyFamily::BlackSwanEpiphany)[k] != family_prefix(g)[k],
{
    reveal_strlit("bs_epiphany_");
    match g {
        StackKeyFamily::AnaxaWeakness => {
            reveal_strlit("anaxa_wk_");
            assert(family_prefix(StackKeyFamily::BlackSwanEpiphany)[0] != family_prefix(g)[0]);
        },
        StackKeyFamily::BlackSwanArcana => {
            reveal_strlit("bs_arcana_");
            assert(family_prefix(StackKeyFamily::BlackSwanEpiphany)[3] != family_prefix(g)[3]);
        },
        StackKeyFamily::BlackSwanArcanaAcc => {
            reveal_strlit("bs_arcana_acc_");
            assert(family_prefix(StackKeyFamily::BlackSwanEpiphany)[3] != family_prefix(g)[3]);
        },
        StackKeyFamily::BronyaA4 => {
            reveal_strlit("bronya_a4_");
            assert(family_prefix(StackKeyFamily::BlackSwanEpiphany)[1] != family_prefix(g)[1]);
        },
        StackKeyFamily::BronyaTech => {
            reveal_strlit("bronya_tech_");
            assert(family_prefix(StackKeyFamily::BlackSwanEpiphany)[1] != family_prefix(g)[1]);
        },
        StackKeyFamily::BronyaUlt => {
            reveal_strlit("bronya_ult_");
            assert(family_prefix(StackKeyFamily::BlackSwanEpiphany)[1] != family_prefix(g)[1]);
        },
        StackKeyFamily::CerydraSpd => {
            reveal_strlit("cerydra_spd_rem_");
            assert(family_prefix(StackKeyFamily::BlackSwanEpiphany)[0] != family_prefix(g)[0]);
        },
        StackKeyFamily::ClaraMark => {
            reveal_strlit("clara_mark_");
            assert(family_prefix(StackKeyFamily::BlackSwanEpiphany)[0] != family_prefix(g)[0]);
        },
        StackKeyFamily::GallagherBesotted => {
            reveal_strlit("gallagher_besotted_");
            assert(family_prefix(StackKeyFamily::BlackSwanEpiphany)[0] != family_prefix(g)[0]);
        },
        StackKeyFamily::GepardFrozen => {
            reveal_strlit("gepard_frozen_");
            assert(family_prefix(StackKeyFamily::BlackSwanEpiphany)[0] != family_prefix(g)[0]);
        },
        StackKeyFamily::GuinaifenBurn => {
            reveal_strlit("guinaifen_burn_");
            assert(family_prefix(StackKeyFamily::BlackSwanEpiphany)[0] != family_prefix(g)[0]);
        },
        StackKeyFamily::GuinaifenBurnBoost => {
            reveal_strlit("guinaifen_burn_boost_");
            assert(family_prefix(StackKeyFamily::BlackSwanEpiphany)[0] != family_prefix(g)[0]);
        },
        StackKeyFamily::GuinaifenFirekiss => {
            reveal_strlit("guinaifen_fk_");
            assert(family_prefix(StackKeyFamily::BlackSwanEpiphany)[0] != family_prefix(g)[0]);
        },
        StackKeyFamily::GuinaifenFirekissDur => {
            reveal_strlit("guinaifen_fk_dur_");
            assert(family_prefix(StackKeyFamily::BlackSwanEpiphany)[0] != family_prefix(g)[0]);
        },
        StackKeyFamily::HanyaTalent => {
            reveal_strlit("hanya_talent_");
            assert(family_prefix(StackKeyFamily::BlackSwanEpiphany)[0] != family_prefix(g)[0]);
        },
        StackKeyFamily::HanyaA2 => {
            reveal_strlit("hanya_a2_");
            assert(family_prefix(StackKeyFamily::BlackSwanEpiphany)[0] != family_prefix(g)[0]);
        },
        StackKeyFamily::HanyaUlt => {
            reveal_strlit("hanya_ult_");
            assert(family_prefix(StackKeyFamily::BlackSwanEpiphany)[0] != family_prefix(g)[0]);
        },
        StackKeyFamily::JiaoqiuAshen => {
            reveal_strlit("ashen_roast_");
            assert(family_prefix(StackKeyFamily::BlackSwanEpiphany)[0] != family_prefix(g)[0]);
        },
        _ => {},
    }
}

proof fn lemma_apart_from_bronya_a4(g: StackKeyFamily)
    requires
        g != StackKeyFamily::BronyaA4,
    ensures
        prefixes_apart(family_prefix(StackKeyFamily::BronyaA4), family_prefix(g)),
        (family_is_numbered(StackKeyFamily::BronyaA4) && family_is_numbered(g)) || exists|k: int| 0 <= k < family_prefix(StackKeyFamily::BronyaA4).len() && k < family_prefix(g).len() && family_prefix(StackKeyFamily::BronyaA4)[k] != family_prefix(g)[k],
{
    reveal_strlit("bronya_a4_");
    match g {
        StackKeyFamily::AnaxaWeakness => {
            reveal_strlit("anaxa_wk_");
            assert(family_prefix(StackKeyFamily::BronyaA4)[0] != family_prefix(g)[0]);
        },
        StackKeyFamily::BlackSwanArcana => {
            reveal_strlit("bs_arcana_");
            assert(family_prefix(StackKeyFamily::BronyaA4)[1] != family_prefix(g)[1]);
        },
        StackKeyFamily::BlackSwanArcanaAcc => {
            reveal_strlit("bs_arcana_acc_");
            assert(family_prefix(StackKeyFamily::BronyaA4)[1] != family_prefix(g)[1]);
        },
        StackKeyFamily::BlackSwanEpiphany => {
            reveal_strlit("bs_epiphany_");
            assert(family_prefix(StackKeyFamily::BronyaA4)[1] != family_prefix(g)[1]);
        },
        StackKeyFamily::BronyaTech => {
            reveal_strlit("bronya_tech_");
            assert(family_prefix(StackKeyFamily::BronyaA4)[7] != family_prefix(g)[7]);
        },
        StackKeyFamily::BronyaUlt => {
            reveal_strlit("bronya_ult_");
            assert(family_prefix(StackKeyFamily::BronyaA4)[7] != family_prefix(g)[7]);
        },
        StackKeyFamily::CerydraSpd => {
            reveal_strlit("cerydra_spd_rem_");
            assert(family_prefix(StackKeyFamily::BronyaA4)[0] != family_prefix(g)[0]);
        },
        StackKeyFamily::ClaraMark => {
            reveal_strlit("clara_mark_");
            assert(family_prefix(StackKeyFamily::BronyaA4)[0] != family_prefix(g)[0]);
        },
        StackKeyFamily::GallagherBesotted => {
            reveal_strlit("gallagher_besotted_");
            assert(family_prefix(StackKeyFamily::BronyaA4)[0] != family_prefix(g)[0]);
        },
        StackKeyFamily::GepardFrozen => {
            reveal_strlit("gepard_frozen_");
            assert(family_prefix(StackKeyFamily::BronyaA4)[0] != family_prefix(g)[0]);
        },
        StackKeyFamily::GuinaifenBurn => {
            reveal_strlit("guinaifen_burn_");
            assert(family_prefix(StackKeyFamily::BronyaA4)[0] != family_prefix(g)[0]);
        },
        StackKeyFamily::GuinaifenBurnBoost => {
            reveal_strlit("guinaifen_burn_boost_");
            assert(family_prefix(StackKeyFamily::BronyaA4)[0] != family_prefix(g)[0]);
        },
        StackKeyFamily::GuinaifenFirekiss => {
            reveal_strlit("guinaifen_fk_");
            assert(family_prefix(StackKeyFamily::BronyaA4)[0] != family_prefix(g)[0]);
        },
        StackKeyFamily::GuinaifenFirekissDur => {
            reveal_strlit("guinaifen_fk_dur_");
            assert(family_prefix(StackKeyFamily::BronyaA4)[0] != family_prefix(g)[0]);
        },
        StackKeyFamily::HanyaTalent => {
            reveal_strlit("hanya_talent_");
            assert(family_prefix(StackKeyFamily::BronyaA4)[0] != family_prefix(g)[0]);
        },
        StackKeyFamily::HanyaA2 => {
            reveal_strlit("hanya_a2_");
            assert(family_prefix(StackKeyFamily::BronyaA4)[0] != family_prefix(g)[0]);
        },
        StackKeyFamily::HanyaUlt => {
            reveal_strlit("hanya_ult_");
            assert(family_prefix(StackKeyFamily::BronyaA4)[0] != family_prefix(g)[0]);
        },
        StackKeyFamily::JiaoqiuAshen => {
            reveal_strlit("ashen_roast_");
            assert(family_prefix(StackKeyFamily::BronyaA4)[0] != family_prefix(g)[0]);
        },
        _ => {},
    }
}

proof fn lemma_apart_from_bronya_tech(g: StackKeyFamily)
    requires
        g != StackKeyFamily::BronyaTech,
    ensures
        prefixes_apart(family_prefix(StackKeyFamily::BronyaTech), family_prefix(g)),
        (family_is_numbered(StackKeyFamily::BronyaTech) && family_is_numbered(g)) || exists|k: int| 0 <= k < family_prefix(StackKeyFamily::BronyaTech).len() && k < family_prefix(g).len() && family_prefix(StackKeyFamily::BronyaTech)[k] != family_prefix(g)[k],
{
    reveal_strlit("bronya_tech_");
    match g {
        StackKeyFamily::AnaxaWeakness => {
            reveal_strlit("anaxa_wk_");
            assert(family_prefix(StackKeyFamily::BronyaTech)[0] != family_prefix(g)[0]);
        },
        StackKeyFamily::BlackSwanArcana => {
            reveal_strlit("bs_arcana_");
            assert(family_prefix(StackKeyFamily::BronyaTech)[1] != family_prefix(g)[1]);
        },
        StackKeyFamily::BlackSwanArcanaAcc => {
            reveal_strlit("bs_arcana_acc_");
            assert(family_prefix(StackKeyFamily::BronyaTech)[1] != family_prefix(g)[1]);
        },
        StackKeyFamily::BlackSwanEpiphany => {
            reveal_strlit("bs_epiphany_");
            assert(family_prefix(StackKeyFamily::BronyaTech)[1] != family_prefix(g)[1]);
        },
        StackKeyFamily::BronyaA4 => {
            reveal_strlit("bronya_a4_");
            assert(family_prefix(StackKeyFamily::BronyaTech)[7] != family_prefix(g)[7]);
        },
        StackKeyFamily::BronyaUlt => {
            reveal_strlit("bronya_ult_");
            assert(family_prefix(StackKeyFamily::BronyaTech)[7] != family_prefix(g)[7]);
        },
        StackKeyFamily::CerydraSpd => {
            reveal_strlit("cerydra_spd_rem_");
            assert(family_prefix(StackKeyFamily::BronyaTech)[0] != family_prefix(g)[0]);
        },
        StackKeyFamily::ClaraMark => {
            reveal_strlit("clara_mark_");
            assert(family_prefix(StackKeyFamily::BronyaTech)[0] != family_prefix(g)[0]);
        },
        StackKeyFamily::GallagherBesotted => {
            reveal_strlit("gallagher_besotted_");
            assert(family_prefix(StackKeyFamily::BronyaTech)[0] != family_prefix(g)[0]);
        },
        StackKeyFamily::GepardFrozen => {
            reveal_strlit("gepard_frozen_");
            assert(family_prefix(StackKeyFamily::BronyaTech)[0] != family_prefix(g)[0]);
        },
        StackKeyFamily::GuinaifenBurn => {
            reveal_strlit("guinaifen_burn_");
            assert(family_prefix(StackKeyFamily::BronyaTech)[0] != family_prefix(g)[0]);
        },
        StackKeyFamily::GuinaifenBurnBoost => {
            reveal_strlit("guinaifen_burn_boost_");
            assert(family_prefix(StackKeyFamily::BronyaTech)[0] != family_prefix(g)[0]);
        },
        StackKeyFamily::GuinaifenFirekiss => {
            reveal_strlit("guinaifen_fk_");
            assert(family_prefix(StackKeyFamily::BronyaTech)[0] != family_prefix(g)[0]);
        },
        StackKeyFamily::GuinaifenFirekissDur => {
            reveal_strlit("guinaifen_fk_dur_");
            assert(family_prefix(StackKeyFamily::BronyaTech)[0] != family_prefix(g)[0]);
        },
        StackKeyFamily::HanyaTalent => {
            reveal_strlit("hanya_talent_");
            assert(family_prefix(StackKeyFamily::BronyaTech)[0] != family_prefix(g)[0]);
        },
        StackKeyFamily::HanyaA2 => {
            reveal_strlit("hanya_a2_");
            assert(family_prefix(StackKeyFamily::BronyaTech)[0] != family_prefix(g)[0]);
        },
        StackKeyFamily::HanyaUlt => {
            reveal_strlit("hanya_ult_");
            assert(family_prefix(StackKeyFamily::BronyaTech)[0] != family_prefix(g)[0]);
        },
        StackKeyFamily::JiaoqiuAshen => {
            reveal_strlit("ashen_roast_");
            assert(family_prefix(StackKeyFamily::BronyaTech)[0] != family_prefix(g)[0]);
        },
        _ => {},
    }
}

proof fn lemma_apart_from_bronya_ult(g: StackKeyFamily)
    requires
        g != StackKeyFamily::BronyaUlt,
    ensures
        prefixes_apart(family_prefix(StackKeyFamily::BronyaUlt), family_prefix(g)),
        (family_is_numbered(StackKeyFamily::BronyaUlt) && family_is_numbered(g)) || exists|k: int| 0 <= k < family_prefix(StackKeyFamily::BronyaUlt).len() && k < family_prefix(g).len() && family_prefix(StackKeyFamily::BronyaUlt)[k] != family_prefix(g)[k],
{
    reveal_strlit("bronya_ult_");
    match g {
        StackKeyFamily::AnaxaWeakness => {
            reveal_strlit("anaxa_wk_");
            assert(family_prefix(StackKeyFamily::BronyaUlt)[0] != family_prefix(g)[0]);
        },
        StackKeyFamily::BlackSwanArcana => {
            reveal_strlit("bs_arcana_");
            assert(family_prefix(StackKeyFamily::BronyaUlt)[1] != family_prefix(g)[1]);
        },
        StackKeyFamily::BlackSwanArcanaAcc => {
            reveal_strlit("bs_arcana_acc_");
            assert(family_prefix(StackKeyFamily::BronyaUlt)[1] != family_prefix(g)[1]);
        },
        StackKeyFamily::BlackSwanEpiphany => {
            reveal_strlit("bs_epiphany_");
            assert(family_prefix(StackKeyFamily::BronyaUlt)[1] != family_prefix(g)[1]);
        },
        StackKeyFamily::BronyaA4 => {
            reveal_strlit("bronya_a4_");
            assert(family_prefix(StackKeyFamily::BronyaUlt)[7] != family_prefix(g)[7]);
        },
        StackKeyFamily::BronyaTech => {
            reveal_strlit("bronya_tech_");
            assert(family_prefix(StackKeyFamily::BronyaUlt)[7] != family_prefix(g)[7]);
        },
        StackKeyFamily::CerydraSpd => {
            reveal_strlit("cerydra_spd_rem_");
            assert(family_prefix(StackKeyFamily::BronyaUlt)[0] != family_prefix(g)[0]);
        },
        StackKeyFamily::ClaraMark => {
            reveal_strlit("clara_mark_");
            assert(family_prefix(StackKeyFamily::BronyaUlt)[0] != family_prefix(g)[0]);
        },
        StackKeyFamily::GallagherBesotted => {
            reveal_strlit("gallagher_besotted_");
            assert(family_prefix(StackKeyFamily::BronyaUlt)[0] != family_prefix(g)[0]);
        },
        StackKeyFamily::GepardFrozen => {
            reveal_strlit("gepard_frozen_");
            assert(family_prefix(StackKeyFamily::BronyaUlt)[0] != family_prefix(g)[0]);
        },
        StackKeyFamily::GuinaifenBurn => {
            reveal_strlit("guinaifen_burn_");
            assert(family_prefix(StackKeyFamily::BronyaUlt)[0] != family_prefix(g)[0]);
        },
        StackKeyFamily::GuinaifenBurnBoost => {
            reveal_strlit("guinaifen_burn_boost_");
            assert(family_prefix(StackKeyFamily::BronyaUlt)[0] != family_prefix(g)[0]);
        },
        StackKeyFamily::GuinaifenFirekiss => {
            reveal_strlit("guinaifen_fk_");
            assert(family_prefix(StackKeyFamily::BronyaUlt)[0] != family_prefix(g)[0]);
        },
        StackKeyFamily::GuinaifenFirekissDur => {
            reveal_strlit("guinaifen_fk_dur_");
            assert(family_prefix(StackKeyFamily::BronyaUlt)[0] != family_prefix(g)[0]);
        },
        StackKeyFamily::HanyaTalent => {
            reveal_strlit("hanya_talent_");
            assert(family_prefix(StackKeyFamily::BronyaUlt)[0] != family_prefix(g)[0]);
        },
        StackKeyFamily::HanyaA2 => {
            reveal_strlit("hanya_a2_");
            assert(family_prefix(StackKeyFamily::BronyaUlt)[0] != family_prefix(g)[0]);
        },
        StackKeyFamily::HanyaUlt => {
            reveal_strlit("hanya_ult_");
            assert(family_prefix(StackKeyFamily::BronyaUlt)[0] != family_prefix(g)[0]);
        },
        StackKeyFamily::JiaoqiuAshen => {
            reveal_strlit("ashen_roast_");
            assert(family_prefix(StackKeyFamily::BronyaUlt)[0] != family_prefix(g)[0]);
        },
        _ => {},
    }
}

proof fn lemma_apart_from_cerydra_spd(g: StackKeyFamily)
    requires
        g != StackKeyFamily::CerydraSpd,
    ensures
        prefixes_apart(family_prefix(StackKeyFamily::CerydraSpd), family_prefix(g)),
        (family_is_numbered(StackKeyFamily::CerydraSpd) && family_is_numbered(g)) || exists|k: int| 0 <= k < family_prefix(StackKeyFamily::CerydraSpd).len() && k < family_prefix(g).len() && family_prefix(StackKeyFamily::CerydraSpd)[k] != family_prefix(g)[k],
{
    reveal_strlit("cerydra_spd_rem_");
    match g {
        StackKeyFamily::AnaxaWeakness => {
            reveal_strlit("anaxa_wk_");
            assert(family_prefix(StackKeyFamily::CerydraSpd)[0] != family_prefix(g)[0]);
        },
        StackKeyFamily::BlackSwanArcana => {
            reveal_strlit("bs_arcana_");
            assert(family_prefix(StackKeyFamily::CerydraSpd)[0] != family_prefix(g)[0]);
        },
        StackKeyFamily::BlackSwanArcanaAcc => {
            reveal_strlit("bs_arcana_acc_");
            assert(family_prefix(StackKeyFamily::CerydraSpd)[0] != family_prefix(g)[0]);
        },
        StackKeyFamily::BlackSwanEpiphany => {
            reveal_strlit("bs_epiphany_");
            assert(family_prefix(StackKeyFamily::CerydraSpd)[0] != family_prefix(g)[0]);
        },
        StackKeyFamily::BronyaA4 => {
            reveal_strlit("bronya_a4_");
            assert(family_prefix(StackKeyFamily::CerydraSpd)[0] != family_prefix(g)[0]);
        },
        StackKeyFamily::BronyaTech => {
            reveal_strlit("bronya_tech_");
            assert(family_prefix(StackKeyFamily::CerydraSpd)[0] != family_prefix(g)[0]);
        },
        StackKeyFamily::BronyaUlt => {
            reveal_strlit("bronya_ult_");
            assert(family_prefix(StackKeyFamily::CerydraSpd)[0] != family_prefix(g)[0]);
        },
        StackKeyFamily::ClaraMark => {
            reveal_strlit("clara_mark_");
            assert(family_prefix(StackKeyFamily::CerydraSpd)[1] != family_prefix(g)[1]);
        },
        StackKeyFamily::GallagherBesotted => {
            reveal_strlit("gallagher_besotted_");
            assert(family_prefix(StackKeyFamily::CerydraSpd)[0] != family_prefix(g)[0]);
        },
        StackKeyFamily::GepardFrozen => {
            reveal_strlit("gepard_frozen_");
            assert(family_prefix(StackKeyFamily::CerydraSpd)[0] != family_prefix(g)[0]);
        },
        StackKeyFamily::GuinaifenBurn => {
            reveal_strlit("guinaifen_burn_");
            assert(family_prefix(StackKeyFamily::CerydraSpd)[0] != family_prefix(g)[0]);
        },
        StackKeyFamily::GuinaifenBurnBoost => {
            reveal_strlit("guinaifen_burn_boost_");
            assert(family_prefix(StackKeyFamily::CerydraSpd)[0] != family_prefix(g)[0]);
        },
        StackKeyFamily::GuinaifenFirekiss => {
            reveal_strlit("guinaifen_fk_");
            assert(family_prefix(StackKeyFamily::CerydraSpd)[0] != family_prefix(g)[0]);
        },
        StackKeyFamily::GuinaifenFirekissDur => {
            reveal_strlit("guinaifen_fk_dur_");
            assert(family_prefix(StackKeyFamily::CerydraSpd)[0] != family_prefix(g)[0]);
        },
        StackKeyFamily::HanyaTalent => {
            reveal_strlit("hanya_talent_");
            assert(family_prefix(StackKeyFamily::CerydraSpd)[0] != family_prefix(g)[0]);
        },
        StackKeyFamily::HanyaA2 => {
            reveal_strlit("hanya_a2_");
            assert(family_prefix(StackKeyFamily::CerydraSpd)[0] != family_prefix(g)[0]);
        },
        StackKeyFamily::HanyaUlt => {
            reveal_strlit("hanya_ult_");
            assert(family_prefix(StackKeyFamily::CerydraSpd)[0] != family_prefix(g)[0]);
        },
        StackKeyFamily::JiaoqiuAshen => {
            reveal_strlit("ashen_roast_");
            assert(family_prefix(StackKeyFamily::CerydraSpd)[0] != family_prefix(g)[0]);
        },
        _ => {},
    }
}

proof fn lemma_apart_from_clara_mark(g: StackKeyFamily)
    requires
        g != StackKeyFamily::ClaraMark,
    ensures
        prefixes_apart(family_prefix(StackKeyFamily::ClaraMark), family_prefix(g)),
        (family_is_numbered(StackKeyFamily::ClaraMark) && family_is_numbered(g)) || exists|k: int| 0 <= k < family_prefix(StackKeyFamily::ClaraMark).len() && k < family_prefix(g).len() && family_prefix(StackKeyFamily::ClaraMark)[k] != family_prefix(g)[k],
{
    reveal_strlit("clara_mark_");
    match g {
        StackKeyFamily::AnaxaWeakness => {
            reveal_strlit("anaxa_wk_");
            assert(family_prefix(StackKeyFamily::ClaraMark)[0] != family_prefix(g)[0]);
        },
        StackKeyFamily::BlackSwanArcana => {
            reveal_strlit("bs_arcana_");
            assert(family_prefix(StackKeyFamily::ClaraMark)[0] != family_prefix(g)[0]);
        },
        StackKeyFamily::BlackSwanArcanaAcc => {
            reveal_strlit("bs_arcana_acc_");
            assert(family_prefix(StackKeyFamily::ClaraMark)[0] != family_prefix(g)[0]);
        },
        StackKeyFamily::BlackSwanEpiphany => {
            reveal_strlit("bs_epiphany_");
            assert(family_prefix(StackKeyFamily::ClaraMark)[0] != family_prefix(g)[0]);
        },
        StackKeyFamily::BronyaA4 => {
            reveal_strlit("bronya_a4_");
            assert(family_prefix(StackKeyFamily::ClaraMark)[0] != family_prefix(g)[0]);
        },
        StackKeyFamily::BronyaTech => {
            reveal_strlit("bronya_tech_");
            assert(family_prefix(StackKeyFamily::ClaraMark)[0] != family_prefix(g)[0]);
        },
        StackKeyFamily::BronyaUlt => {
            reveal_strlit("bronya_ult_");
            assert(family_prefix(StackKeyFamily::ClaraMark)[0] != family_prefix(g)[0]);
        },
        StackKeyFamily::CerydraSpd => {
            reveal_strlit("cerydra_spd_rem_");
            assert(family_prefix(StackKeyFamily::ClaraMark)[1] != family_prefix(g)[1]);
        },
        StackKeyFamily::GallagherBesotted => {
            reveal_strlit("gallagher_besotted_");
            assert(family_prefix(StackKeyFamily::ClaraMark)[0] != family_prefix(g)[0]);
        },
        StackKeyFamily::GepardFrozen => {
            reveal_strlit("gepard_frozen_");
            assert(family_prefix(StackKeyFamily::ClaraMark)[0] != family_prefix(g)[0]);
        },
        StackKeyFamily::GuinaifenBurn => {
            reveal_strlit("guinaifen_burn_");
            assert(family_prefix(StackKeyFamily::ClaraMark)[0] != family_prefix(g)[0]);
        },
        StackKeyFamily::GuinaifenBurnBoost => {
            reveal_strlit("guinaifen_burn_boost_");
            assert(family_prefix(StackKeyFamily::ClaraMark)[0] != family_prefix(g)[0]);
        },
        StackKeyFamily::GuinaifenFirekiss => {
            reveal_strlit("guinaifen_fk_");
            assert(family_prefix(StackKeyFamily::ClaraMark)[0] != family_prefix(g)[0]);
        },
        StackKeyFamily::GuinaifenFirekissDur => {
            reveal_strlit("guinaifen_fk_dur_");
            assert(family_prefix(StackKeyFamily::ClaraMark)[0] != family_prefix(g)[0]);
        },
        StackKeyFamily::HanyaTalent => {
            reveal_strlit("hanya_talent_");
            assert(family_prefix(StackKeyFamily::ClaraMark)[0] != family_prefix(g)[0]);
        },
        StackKeyFamily::HanyaA2 => {
            reveal_strlit("hanya_a2_");
            assert(family_prefix(StackKeyFamily::ClaraMark)[0] != family_prefix(g)[0]);
        },
        StackKeyFamily::HanyaUlt => {
            reveal_strlit("hanya_ult_");
            assert(family_prefix(StackKeyFamily::ClaraMark)[0] != family_prefix(g)[0]);
        },
        StackKeyFamily::JiaoqiuAshen => {
            reveal_strlit("ashen_roast_");
            assert(family_prefix(StackKeyFamily::ClaraMark)[0] != family_prefix(g)[0]);
        },
        _ => {},
    }
}

proof fn lemma_apart_from_gallagher_besotted(g: StackKeyFamily)
    requires
        g != StackKeyFamily::GallagherBesotted,
    ensures
        prefixes_apart(family_prefix(StackKeyFamily::GallagherBesotted), family_prefix(g)),
        (family_is_numbered(StackKeyFamily::GallagherBesotted) && family_is_numbered(g)) || exists|k: int| 0 <= k < family_prefix(StackKeyFamily::GallagherBesotted).len() && k < family_prefix(g).len() && family_prefix(StackKeyFamily::GallagherBesotted)[k] != family_prefix(g)[k],
{
    reveal_strlit("gallagher_besotted_");
    match g {
        StackKeyFamily::AnaxaWeakness => {
            reveal_strlit("anaxa_wk_");
            assert(family_prefix(StackKeyFamily::GallagherBesotted)[0] != family_prefix(g)[0]);
        },
        StackKeyFamily::BlackSwanArcana => {
            reveal_strlit("bs_arcana_");
            assert(family_prefix(StackKeyFamily::GallagherBesotted)[0] != family_prefix(g)[0]);
        },
        StackKeyFamily::BlackSwanArcanaAcc => {
            reveal_strlit("bs_arcana_acc_");
            assert(family_prefix(StackKeyFamily::GallagherBesotted)[0] != family_prefix(g)[0]);
        },
        StackKeyFamily::BlackSwanEpiphany => {
            reveal_strlit("bs_epiphany_");
            assert(family_prefix(StackKeyFamily::GallagherBesotted)[0] != family_prefix(g)[0]);
        },
        StackKeyFamily::BronyaA4 => {
            reveal_strlit("bronya_a4_");
            assert(family_prefix(StackKeyFamily::GallagherBesotted)[0] != family_prefix(g)[0]);
        },
        StackKeyFamily::BronyaTech => {
            reveal_strlit("bronya_tech_");
            assert(family_prefix(StackKeyFamily::GallagherBesotted)[0] != family_prefix(g)[0]);
        },
        StackKeyFamily::BronyaUlt => {
            reveal_strlit("bronya_ult_");
            assert(family_prefix(StackKeyFamily::GallagherBesotted)[0] != family_prefix(g)[0]);
        },
        StackKeyFamily::CerydraSpd => {
            reveal_strlit("cerydra_spd_rem_");
            assert(family_prefix(StackKeyFamily::GallagherBesotted)[0] != family_prefix(g)[0]);
        },
        StackKeyFamily::ClaraMark => {
            reveal_strlit("clara_mark_");
            assert(family_prefix(StackKeyFamily::GallagherBesotted)[0] != family_prefix(g)[0]);
        },
        StackKeyFamily::GepardFrozen => {
            reveal_strlit("gepard_frozen_");
            assert(family_prefix(StackKeyFamily::GallagherBesotted)[1] != family_prefix(g)[1]);
        },
        StackKeyFamily::GuinaifenBurn => {
            reveal_strlit("guinaifen_burn_");
            assert(family_prefix(StackKeyFamily::GallagherBesotted)[1] != family_prefix(g)[1]);
        },
        StackKeyFamily::GuinaifenBurnBoost => {
            reveal_strlit("guinaifen_burn_boost_");
            assert(family_prefix(StackKeyFamily::GallagherBesotted)[1] != family_prefix(g)[1]);
        },
        StackKeyFamily::GuinaifenFirekiss => {
            reveal_strlit("guinaifen_fk_");
            assert(family_prefix(StackKeyFamily::GallagherBesotted)[1] != family_prefix(g)[1]);
        },
        StackKeyFamily::GuinaifenFirekissDur => {
            reveal_strlit("guinaifen_fk_dur_");
            assert(family_prefix(StackKeyFamily::GallagherBesotted)[1] != family_prefix(g)[1]);
        },
        StackKeyFamily::HanyaTalent => {
            reveal_strlit("hanya_talent_");
            assert(family_prefix(StackKeyFamily::GallagherBesotted)[0] != family_prefix(g)[0]);
        },
        StackKeyFamily::HanyaA2 => {
            reveal_strlit("hanya_a2_");
            assert(family_prefix(StackKeyFamily::GallagherBesotted)[0] != family_prefix(g)[0]);
        },
        StackKeyFamily::HanyaUlt => {
            reveal_strlit("hanya_ult_");
            assert(family_prefix(StackKeyFamily::GallagherBesotted)[0] != family_prefix(g)[0]);
        },
        StackKeyFamily::JiaoqiuAshen => {
            reveal_strlit("ashen_roast_");
            assert(family_prefix(StackKeyFamily::GallagherBesotted)[0] != family_prefix(g)[0]);
        },
        _ => {},
    }
}

proof fn lemma_apart_from_gepard_frozen(g: StackKeyFamily)
    requires
        g != StackKeyFamily::GepardFrozen,
    ensures
        prefixes_apart(family_prefix(StackKeyFamily::GepardFrozen), family_prefix(g)),
        (family_is_numbered(StackKeyFamily::GepardFrozen) && family_is_numbered(g)) || exists|k: int| 0 <= k < family_prefix(StackKeyFamily::GepardFrozen).len() && k < family_prefix(g).len() && family_prefix(StackKeyFamily::GepardFrozen)[k] != family_prefix(g)[k],
{
    reveal_strlit("gepard_frozen_");
    match g {
        StackKeyFamily::AnaxaWeakness => {
            reveal_strlit("anaxa_wk_");
            assert(family_prefix(StackKeyFamily::GepardFrozen)[0] != family_prefix(g)[0]);
        },
        StackKeyFamily::BlackSwanArcana => {
            reveal_strlit("bs_arcana_");
            assert(family_prefix(StackKeyFamily::GepardFrozen)[0] != family_prefix(g)[0]);
        },
        StackKeyFamily::BlackSwanArcanaAcc => {
            reveal_strlit("bs_arcana_acc_");
            assert(family_prefix(StackKeyFamily::GepardFrozen)[0] != family_prefix(g)[0]);
        },
        StackKeyFamily::BlackSwanEpiphany => {
            reveal_strlit("bs_epiphany_");
            assert(family_prefix(StackKeyFamily::GepardFrozen)[0] != family_prefix(g)[0]);
        },
        StackKeyFamily::BronyaA4 => {
            reveal_strlit("bronya_a4_");
            assert(family_prefix(StackKeyFamily::GepardFrozen)[0] != family_prefix(g)[0]);
        },
        StackKeyFamily::BronyaTech => {
            reveal_strlit("bronya_tech_");
            assert(family_prefix(StackKeyFamily::GepardFrozen)[0] != family_prefix(g)[0]);
        },
        StackKeyFamily::BronyaUlt => {
            reveal_strlit("bronya_ult_");
            assert(family_prefix(StackKeyFamily::GepardFrozen)[0] != family_prefix(g)[0]);
        },
        StackKeyFamily::CerydraSpd => {
            reveal_strlit("cerydra_spd_rem_");
            assert(family_prefix(StackKeyFamily::GepardFrozen)[0] != family_prefix(g)[0]);
        },
        StackKeyFamily::ClaraMark => {
            reveal_strlit("clara_mark_");
            assert(family_prefix(StackKeyFamily::GepardFrozen)[0] != family_prefix(g)[0]);
        },
        StackKeyFamily::GallagherBesotted => {
            reveal_strlit("gallagher_besotted_");
            assert(family_prefix(StackKeyFamily::GepardFrozen)[1] != family_prefix(g)[1]);
        },
        StackKeyFamily::GuinaifenBurn => {
            reveal_strlit("guinaifen_burn_");
            assert(family_prefix(StackKeyFamily::GepardFrozen)[1] != family_prefix(g)[1]);
        },
        StackKeyFamily::GuinaifenBurnBoost => {
            reveal_strlit("guinaifen_burn_boost_");
            assert(family_prefix(StackKeyFamily::GepardFrozen)[1] != family_prefix(g)[1]);
        },
        StackKeyFamily::GuinaifenFirekiss => {
            reveal_strlit("guinaifen_fk_");
            assert(family_prefix(StackKeyFamily::GepardFrozen)[1] != family_prefix(g)[1]);
        },
        StackKeyFamily::GuinaifenFirekissDur => {
            reveal_strlit("guinaifen_fk_dur_");
            assert(family_prefix(StackKeyFamily::GepardFrozen)[1] != family_prefix(g)[1]);
        },
        StackKeyFamily::HanyaTalent => {
            reveal_strlit("hanya_talent_");
            assert(family_prefix(StackKeyFamily::GepardFrozen)[0] != family_prefix(g)[0]);
        },
        StackKeyFamily::HanyaA2 => {
            reveal_strlit("hanya_a2_");
            assert(family_prefix(StackKeyFamily::GepardFrozen)[0] != family_prefix(g)[0]);
        },
        StackKeyFamily::HanyaUlt => {
            reveal_strlit("hanya_ult_");
            assert(family_prefix(StackKeyFamily::GepardFrozen)[0] != family_prefix(g)[0]);
        },
        StackKeyFamily::JiaoqiuAshen => {
            reveal_strlit("ashen_roast_");
            assert(family_prefix(StackKeyFamily::GepardFrozen)[0] != family_prefix(g)[0]);
        },
        _ => {},
    }
}

proof fn lemma_apart_from_guinaifen_burn(g: StackKeyFamily)
    requires
        g != StackKeyFamily::GuinaifenBurn,
    ensures
        prefixes_apart(family_prefix(StackKeyFamily::GuinaifenBurn), family_prefix(g)),
        (family_is_numbered(StackKeyFamily::GuinaifenBurn) && family_is_numbered(g)) || exists|k: int| 0 <= k < family_prefix(StackKeyFamily::GuinaifenBurn).len() && k < family_prefix(g).len() && family_prefix(StackKeyFamily::GuinaifenBurn)[k] != family_prefix(g)[k],
{
    reveal_strlit("guinaifen_burn_");
    match g {
        StackKeyFamily::AnaxaWeakness => {
            reveal_strlit("anaxa_wk_");
            assert(family_prefix(StackKeyFamily::GuinaifenBurn)[0] != family_prefix(g)[0]);
        },
        StackKeyFamily::BlackSwanArcana => {
            reveal_strlit("bs_arcana_");
            assert(family_prefix(StackKeyFamily::GuinaifenBurn)[0] != family_prefix(g)[0]);
        },
        StackKeyFamily::BlackSwanArcanaAcc => {
            reveal_strlit("bs_arcana_acc_");
            assert(family_prefix(StackKeyFamily::GuinaifenBurn)[0] != family_prefix(g)[0]);
        },
        StackKeyFamily::BlackSwanEpiphany => {
            reveal_strlit("bs_epiphany_");
            assert(family_prefix(StackKeyFamily::GuinaifenBurn)[0] != family_prefix(g)[0]);
        },
        StackKeyFamily::BronyaA4 => {
            reveal_strlit("bronya_a4_");
            assert(family_prefix(StackKeyFamily::GuinaifenBurn)[0] != family_prefix(g)[0]);
        },
        StackKeyFamily::BronyaTech => {
            reveal_strlit("bronya_tech_");
            assert(family_prefix(StackKeyFamily::GuinaifenBurn)[0] != family_prefix(g)[0]);
        },
        StackKeyFamily::BronyaUlt => {
            reveal_strlit("bronya_ult_");
            assert(family_prefix(StackKeyFamily::GuinaifenBurn)[0] != family_prefix(g)[0]);
        },
        StackKeyFamily::CerydraSpd => {
            reveal_strlit("cerydra_spd_rem_");
            assert(family_prefix(StackKeyFamily::GuinaifenBurn)[0] != family_prefix(g)[0]);
        },
        StackKeyFamily::ClaraMark => {
            reveal_strlit("clara_mark_");
            assert(family_prefix(StackKeyFamily::GuinaifenBurn)[0] != family_prefix(g)[0]);
        },
        StackKeyFamily::GallagherBesotted => {
            reveal_strlit("gallagher_besotted_");
            assert(family_prefix(StackKeyFamily::GuinaifenBurn)[1] != family_prefix(g)[1]);
        },
        StackKeyFamily::GepardFrozen => {
            reveal_strlit("gepard_frozen_");
            assert(family_prefix(StackKeyFamily::GuinaifenBurn)[1] != family_prefix(g)[1]);
        },
        StackKeyFamily::GuinaifenBurnBoost => {
            reveal_strlit("guinaifen_burn_boost_");
            assert(family_prefix(g).subrange(0, 15) =~= family_prefix(StackKeyFamily::GuinaifenBurn));
            assert(!is_digit(family_prefix(g)[15]));
        },
        StackKeyFamily::GuinaifenFirekiss => {
            reveal_strlit("guinaifen_fk_");
            assert(family_prefix(StackKeyFamily::GuinaifenBurn)[10] != family_prefix(g)[10]);
        },
        StackKeyFamily::GuinaifenFirekissDur => {
            reveal_strlit("guinaifen_fk_dur_");
            assert(family_prefix(StackKeyFamily::GuinaifenBurn)[10] != family_prefix(g)[10]);
        },
        StackKeyFamily::HanyaTalent => {
            reveal_strlit("hanya_talent_");
            assert(family_prefix(StackKeyFamily::GuinaifenBurn)[0] != family_prefix(g)[0]);
        },
        StackKeyFamily::HanyaA2 => {
            reveal_strlit("hanya_a2_");
            assert(family_prefix(StackKeyFamily::GuinaifenBurn)[0] != family_prefix(g)[0]);
        },
        StackKeyFamily::HanyaUlt => {
            reveal_strlit("hanya_ult_");
            assert(family_prefix(StackKeyFamily::GuinaifenBurn)[0] != family_prefix(g)[0]);
        },
        StackKeyFamily::JiaoqiuAshen => {
            reveal_strlit("ashen_roast_");
            assert(family_prefix(StackKeyFamily::GuinaifenBurn)[0] != family_prefix(g)[0]);
        },
        _ => {},
    }
}

proof fn lemma_apart_from_guinaifen_burn_boost(g: StackKeyFamily)
    requires
        g != StackKeyFamily::GuinaifenBurnBoost,
    ensures
        prefixes_apart(family_prefix(StackKeyFamily::GuinaifenBurnBoost), family_prefix(g)),
        (family_is_numbered(StackKeyFamily::GuinaifenBurnBoost) && family_is_numbered(g)) || exists|k: int| 0 <= k < family_prefix(StackKeyFamily::GuinaifenBurnBoost).len() && k < family_prefix(g).len() && family_prefix(StackKeyFamily::GuinaifenBurnBoost)[k] != family_prefix(g)[k],
{
    reveal_strlit("guinaifen_burn_boost_");
    match g {
        StackKeyFamily::AnaxaWeakness => {
            reveal_strlit("anaxa_wk_");
            assert(family_prefix(StackKeyFamily::GuinaifenBurnBoost)[0] != family_prefix(g)[0]);
        },
        StackKeyFamily::BlackSwanArcana => {
            reveal_strlit("bs_arcana_");
            assert(family_prefix(StackKeyFamily::GuinaifenBurnBoost)[0] != family_prefix(g)[0]);
        },
        StackKeyFamily::BlackSwanArcanaAcc => {
            reveal_strlit("bs_arcana_acc_");
            assert(family_prefix(StackKeyFamily::GuinaifenBurnBoost)[0] != family_prefix(g)[0]);
        },
        StackKeyFamily::BlackSwanEpiphany => {
            reveal_strlit("bs_epiphany_");
            assert(family_prefix(StackKeyFamily::GuinaifenBurnBoost)[0] != family_prefix(g)[0]);
        },
        StackKeyFamily::BronyaA4 => {
            reveal_strlit("bronya_a4_");
            assert(family_prefix(StackKeyFamily::GuinaifenBurnBoost)[0] != family_prefix(g)[0]);
        },
        StackKeyFamily::BronyaTech => {
            reveal_strlit("bronya_tech_");
            assert(family_prefix(StackKeyFamily::GuinaifenBurnBoost)[0] != family_prefix(g)[0]);
        },
        StackKeyFamily::BronyaUlt => {
            reveal_strlit("bronya_ult_");
            assert(family_prefix(StackKeyFamily::GuinaifenBurnBoost)[0] != family_prefix(g)[0]);
        },
        StackKeyFamily::CerydraSpd => {
            reveal_strlit("cerydra_spd_rem_");
            assert(family_prefix(StackKeyFamily::GuinaifenBurnBoost)[0] != family_prefix(g)[0]);
        },
        StackKeyFamily::ClaraMark => {
            reveal_strlit("clara_mark_");
            assert(family_prefix(StackKeyFamily::GuinaifenBurnBoost)[0] != family_prefix(g)[0]);
        },
        StackKeyFamily::GallagherBesotted => {
            reveal_strlit("gallagher_besotted_");
            assert(family_prefix(StackKeyFamily::GuinaifenBurnBoost)[1] != family_prefix(g)[1]);
        },
        StackKeyFamily::GepardFrozen => {
            reveal_strlit("gepard_frozen_");
            assert(family_prefix(StackKeyFamily::GuinaifenBurnBoost)[1] != family_prefix(g)[1]);
        },
        StackKeyFamily::GuinaifenBurn => {
            reveal_strlit("guinaifen_burn_");
            assert(family_prefix(StackKeyFamily::GuinaifenBurnBoost).subrange(0, 15) =~= family_prefix(g));
            assert(!is_digit(family_prefix(StackKeyFamily::GuinaifenBurnBoost)[15]));
        },
        StackKeyFamily::GuinaifenFirekiss => {
            reveal_strlit("guinaifen_fk_");
            assert(family_prefix(StackKeyFamily::GuinaifenBurnBoost)[10] != family_prefix(g)[10]);
        },
        StackKeyFamily::GuinaifenFirekissDur => {
            reveal_strlit("guinaifen_fk_dur_");
            assert(family_prefix(StackKeyFamily::GuinaifenBurnBoost)[10] != family_prefix(g)[10]);
        },
        StackKeyFamily::HanyaTalent => {
            reveal_strlit("hanya_talent_");
            assert(family_prefix(StackKeyFamily::GuinaifenBurnBoost)[0] != family_prefix(g)[0]);
        },
        StackKeyFamily::HanyaA2 => {
            reveal_strlit("hanya_a2_");
            assert(family_prefix(StackKeyFamily::GuinaifenBurnBoost)[0] != family_prefix(g)[0]);
        },
        StackKeyFamily::HanyaUlt => {
            reveal_strlit("hanya_ult_");
            assert(family_prefix(StackKeyFamily::GuinaifenBurnBoost)[0] != family_prefix(g)[0]);
        },
        StackKeyFamily::JiaoqiuAshen => {
            reveal_strlit("ashen_roast_");
            assert(family_prefix(StackKeyFamily::GuinaifenBurnBoost)[0] != family_prefix(g)[0]);
        },
        _ => {},
    }
}

proof fn lemma_apart_from_guinaifen_firekiss(g: StackKeyFamily)
    requires
        g != StackKeyFamily::GuinaifenFirekiss,
    ensures
        prefixes_apart(family_prefix(StackKeyFamily::GuinaifenFirekiss), family_prefix(g)),
        (family_is_numbered(StackKeyFamily::GuinaifenFirekiss) && family_is_numbered(g)) || exists|k: int| 0 <= k < family_prefix(StackKeyFamily::GuinaifenFirekiss).len() && k < family_prefix(g).len() && family_prefix(StackKeyFamily::GuinaifenFirekiss)[k] != family_prefix(g)[k],
{
    reveal_strlit("guinaifen_fk_");
    match g {
        StackKeyFamily::AnaxaWeakness => {
            reveal_strlit("anaxa_wk_");
            assert(family_prefix(StackKeyFamily::GuinaifenFirekiss)[0] != family_prefix(g)[0]);
        },
        StackKeyFamily::BlackSwanArcana => {
            reveal_strlit("bs_arcana_");
            assert(family_prefix(StackKeyFamily::GuinaifenFirekiss)[0] != family_prefix(g)[0]);
        },
        StackKeyFamily::BlackSwanArcanaAcc => {
            reveal_strlit("bs_arcana_acc_");
            assert(family_prefix(StackKeyFamily::GuinaifenFirekiss)[0] != family_prefix(g)[0]);
        },
        StackKeyFamily::BlackSwanEpiphany => {
            reveal_strlit("bs_epiphany_");
            assert(family_prefix(StackKeyFamily::GuinaifenFirekiss)[0] != family_prefix(g)[0]);
        },
        StackKeyFamily::BronyaA4 => {
            reveal_strlit("bronya_a4_");
            assert(family_prefix(StackKeyFamily::GuinaifenFirekiss)[0] != family_prefix(g)[0]);
        },
        StackKeyFamily::BronyaTech => {
            reveal_strlit("bronya_tech_");
            assert(family_prefix(StackKeyFamily::GuinaifenFirekiss)[0] != family_prefix(g)[0]);
        },
        StackKeyFamily::BronyaUlt => {
            reveal_strlit("bronya_ult_");
            assert(family_prefix(StackKeyFamily::GuinaifenFirekiss)[0] != family_prefix(g)[0]);
        },
        StackKeyFamily::CerydraSpd => {
            reveal_strlit("cerydra_spd_rem_");
            assert(family_prefix(StackKeyFamily::GuinaifenFirekiss)[0] != family_prefix(g)[0]);
        },
        StackKeyFamily::ClaraMark => {
            reveal_strlit("clara_mark_");
            assert(family_prefix(StackKeyFamily::GuinaifenFirekiss)[0] != family_prefix(g)[0]);
        },
        StackKeyFamily::GallagherBesotted => {
            reveal_strlit("gallagher_besotted_");
            assert(family_prefix(StackKeyFamily::GuinaifenFirekiss)[1] != family_prefix(g)[1]);
        },
        StackKeyFamily::GepardFrozen => {
            reveal_strlit("gepard_frozen_");
            assert(family_prefix(StackKeyFamily::GuinaifenFirekiss)[1] != family_prefix(g)[1]);
        },
        StackKeyFamily::GuinaifenBurn => {
            reveal_strlit("guinaifen_burn_");
            assert(family_prefix(StackKeyFamily::GuinaifenFirekiss)[10] != family_prefix(g)[10]);
        },
        StackKeyFamily::GuinaifenBurnBoost => {
            reveal_strlit("guinaifen_burn_boost_");
            assert(family_prefix(StackKeyFamily::GuinaifenFirekiss)[10] != family_prefix(g)[10]);
        },
        StackKeyFamily::GuinaifenFirekissDur => {
            reveal_strlit("guinaifen_fk_dur_");
            assert(family_prefix(g).subrange(0, 13) =~= family_prefix(StackKeyFamily::GuinaifenFirekiss));
            assert(!is_digit(family_prefix(g)[13]));
        },
        StackKeyFamily::HanyaTalent => {
            reveal_strlit("hanya_talent_");
            assert(family_prefix(StackKeyFamily::GuinaifenFirekiss)[0] != family_prefix(g)[0]);
        },
        StackKeyFamily::HanyaA2 => {
            reveal_strlit("hanya_a2_");
            assert(family_prefix(StackKeyFamily::GuinaifenFirekiss)[0] != family_prefix(g)[0]);
        },
        StackKeyFamily::HanyaUlt => {
            reveal_strlit("hanya_ult_");
            assert(family_prefix(StackKeyFamily::GuinaifenFirekiss)[0] != family_prefix(g)[0]);
        },
        StackKeyFamily::JiaoqiuAshen => {
            reveal_strlit("ashen_roast_");
            assert(family_prefix(StackKeyFamily::GuinaifenFirekiss)[0] != family_prefix(g)[0]);
        },
        _ => {},
    }
}

proof fn lemma_apart_from_guinaifen_firekiss_dur(g: StackKeyFamily)
    requires
        g != StackKeyFamily::GuinaifenFirekissDur,
    ensures
        prefixes_apart(family_prefix(StackKeyFamily::GuinaifenFirekissDur), family_prefix(g)),
        (family_is_numbered(StackKeyFamily::GuinaifenFirekissDur) && family_is_numbered(g)) || exists|k: int| 0 <= k < family_prefix(StackKeyFamily::GuinaifenFirekissDur).len() && k < family_prefix(g).len() && family_prefix(StackKeyFamily::GuinaifenFirekissDur)[k] != family_prefix(g)[k],
{
    reveal_strlit("guinaifen_fk_dur_");
    match g {
        StackKeyFamily::AnaxaWeakness => {
            reveal_strlit("anaxa_wk_");
            assert(family_prefix(StackKeyFamily::GuinaifenFirekissDur)[0] != family_prefix(g)[0]);
        },
        StackKeyFamily::BlackSwanArcana => {
            reveal_strlit("bs_arcana_");
            assert(family_prefix(StackKeyFamily::GuinaifenFirekissDur)[0] != family_prefix(g)[0]);
        },
        StackKeyFamily::BlackSwanArcanaAcc => {
            reveal_strlit("bs_arcana_acc_");
            assert(family_prefix(StackKeyFamily::GuinaifenFirekissDur)[0] != family_prefix(g)[0]);
        },
        StackKeyFamily::BlackSwanEpiphany => {
            reveal_strlit("bs_epiphany_");
            assert(family_prefix(StackKeyFamily::GuinaifenFirekissDur)[0] != family_prefix(g)[0]);
        },
        StackKeyFamily::BronyaA4 => {
            reveal_strlit("bronya_a4_");
            assert(family_prefix(StackKeyFamily::GuinaifenFirekissDur)[0] != family_prefix(g)[0]);
        },
        StackKeyFamily::BronyaTech => {
            reveal_strlit("bronya_tech_");
            assert(family_prefix(StackKeyFamily::GuinaifenFirekissDur)[0] != family_prefix(g)[0]);
        },
        StackKeyFamily::BronyaUlt => {
            reveal_strlit("bronya_ult_");
            assert(family_prefix(StackKeyFamily::GuinaifenFirekissDur)[0] != family_prefix(g)[0]);
        },
        StackKeyFamily::CerydraSpd => {
            reveal_strlit("cerydra_spd_rem_");
            assert(family_prefix(StackKeyFamily::GuinaifenFirekissDur)[0] != family_prefix(g)[0]);
        },
        StackKeyFamily::ClaraMark => {
            reveal_strlit("clara_mark_");
            assert(family_prefix(StackKeyFamily::GuinaifenFirekissDur)[0] != family_prefix(g)[0]);
        },
        StackKeyFamily::GallagherBesotted => {
            reveal_strlit("gallagher_besotted_");
            assert(family_prefix(StackKeyFamily::GuinaifenFirekissDur)[1] != family_prefix(g)[1]);
        },
        StackKeyFamily::GepardFrozen => {
            reveal_strlit("gepard_frozen_");
            assert(family_prefix(StackKeyFamily::GuinaifenFirekissDur)[1] != family_prefix(g)[1]);
        },
        StackKeyFamily::GuinaifenBurn => {
            reveal_strlit("guinaifen_burn_");
            assert(family_prefix(StackKeyFamily::GuinaifenFirekissDur)[10] != family_prefix(g)[10]);
        },
        StackKeyFamily::GuinaifenBurnBoost => {
            reveal_strlit("guinaifen_burn_boost_");
            assert(family_prefix(StackKeyFamily::GuinaifenFirekissDur)[10] != family_prefix(g)[10]);
        },
        StackKeyFamily::GuinaifenFirekiss => {
            reveal_strlit("guinaifen_fk_");
            assert(family_prefix(StackKeyFamily::GuinaifenFirekissDur).subrange(0, 13) =~= family_prefix(g));
            assert(!is_digit(family_prefix(StackKeyFamily::GuinaifenFirekissDur)[13]));
        },
        StackKeyFamily::HanyaTalent => {
            reveal_strlit("hanya_talent_");
            assert(family_prefix(StackKeyFamily::GuinaifenFirekissDur)[0] != family_prefix(g)[0]);
        },
        StackKeyFamily::HanyaA2 => {
            reveal_strlit("hanya_a2_");
            assert(family_prefix(StackKeyFamily::GuinaifenFirekissDur)[0] != family_prefix(g)[0]);
        },
        StackKeyFamily::HanyaUlt => {
            reveal_strlit("hanya_ult_");
            assert(family_prefix(StackKeyFamily::GuinaifenFirekissDur)[0] != family_prefix(g)[0]);
        },
        StackKeyFamily::JiaoqiuAshen => {
            reveal_strlit("ashen_roast_");
            assert(family_prefix(StackKeyFamily::GuinaifenFirekissDur)[0] != family_prefix(g)[0]);
        },
        _ => {},
    }
}

proof fn lemma_apart_from_hanya_talent(g: StackKeyFamily)
    requires
        g != StackKeyFamily::HanyaTalent,
    ensures
        prefixes_apart(family_prefix(StackKeyFamily::HanyaTalent), family_prefix(g)),
        (family_is_numbered(StackKeyFamily::HanyaTalent) && family_is_numbered(g)) || exists|k: int| 0 <= k < family_prefix(StackKeyFamily::HanyaTalent).len() && k < family_prefix(g).len() && family_prefix(StackKeyFamily::HanyaTalent)[k] != family_prefix(g)[k],
{
    reveal_strlit("hanya_talent_");
    match g {
        StackKeyFamily::AnaxaWeakness => {
            reveal_strlit("anaxa_wk_");
            assert(family_prefix(StackKeyFamily::HanyaTalent)[0] != family_prefix(g)[0]);
        },
        StackKeyFamily::BlackSwanArcana => {
            reveal_strlit("bs_arcana_");
            assert(family_prefix(StackKeyFamily::HanyaTalent)[0] != family_prefix(g)[0]);
        },
        StackKeyFamily::BlackSwanArcanaAcc => {
            reveal_strlit("bs_arcana_acc_");
            assert(family_prefix(StackKeyFamily::HanyaTalent)[0] != family_prefix(g)[0]);
        },
        StackKeyFamily::BlackSwanEpiphany => {
            reveal_strlit("bs_epiphany_");
            assert(family_prefix(StackKeyFamily::HanyaTalent)[0] != family_prefix(g)[0]);
        },
        StackKeyFamily::BronyaA4 => {
            reveal_strlit("bronya_a4_");
            assert(family_prefix(StackKeyFamily::HanyaTalent)[0] != family_prefix(g)[0]);
        },
        StackKeyFamily::BronyaTech => {
            reveal_strlit("bronya_tech_");
            assert(family_prefix(StackKeyFamily::HanyaTalent)[0] != family_prefix(g)[0]);
        },
        StackKeyFamily::BronyaUlt => {
            reveal_strlit("bronya_ult_");
            assert(family_prefix(StackKeyFamily::HanyaTalent)[0] != family_prefix(g)[0]);
        },
        StackKeyFamily::CerydraSpd => {
            reveal_strlit("cerydra_spd_rem_");
            assert(family_prefix(StackKeyFamily::HanyaTalent)[0] != family_prefix(g)[0]);
        },
        StackKeyFamily::ClaraMark => {
            reveal_strlit("clara_mark_");
            assert(family_prefix(StackKeyFamily::HanyaTalent)[0] != family_prefix(g)[0]);
        },
        StackKeyFamily::GallagherBesotted => {
            reveal_strlit("gallagher_besotted_");
            assert(family_prefix(StackKeyFamily::HanyaTalent)[0] != family_prefix(g)[0]);
        },
        StackKeyFamily::GepardFrozen => {
            reveal_strlit("gepard_frozen_");
            assert(family_prefix(StackKeyFamily::HanyaTalent)[0] != family_prefix(g)[0]);
        },
        StackKeyFamily::GuinaifenBurn => {
            reveal_strlit("guinaifen_burn_");
            assert(family_prefix(StackKeyFamily::HanyaTalent)[0] != family_prefix(g)[0]);
        },
        StackKeyFamily::GuinaifenBurnBoost => {
            reveal_strlit("guinaifen_burn_boost_");
            assert(family_prefix(StackKeyFamily::HanyaTalent)[0] != family_prefix(g)[0]);
        },
        StackKeyFamily::GuinaifenFirekiss => {
            reveal_strlit("guinaifen_fk_");
            assert(family_prefix(StackKeyFamily::HanyaTalent)[0] != family_prefix(g)[0]);
        },
        StackKeyFamily::GuinaifenFirekissDur => {
            reveal_strlit("guinaifen_fk_dur_");
            assert(family_prefix(StackKeyFamily::HanyaTalent)[0] != family_prefix(g)[0]);
        },
        StackKeyFamily::HanyaA2 => {
            reveal_strlit("hanya_a2_");
            assert(family_prefix(StackKeyFamily::HanyaTalent)[6] != family_prefix(g)[6]);
        },
        StackKeyFamily::HanyaUlt => {
            reveal_strlit("hanya_ult_");
            assert(family_prefix(StackKeyFamily::HanyaTalent)[6] != family_prefix(g)[6]);
        },
        StackKeyFamily::JiaoqiuAshen => {
            reveal_strlit("ashen_roast_");
            assert(family_prefix(StackKeyFamily::HanyaTalent)[0] != family_prefix(g)[0]);
        },
        _ => {},
    }
}

proof fn lemma_apart_from_hanya_a2(g: StackKeyFamily)
    requires
        g != StackKeyFamily::HanyaA2,
    ensures
        prefixes_apart(family_prefix(StackKeyFamily::HanyaA2), family_prefix(g)),
        (family_is_numbered(StackKeyFamily::HanyaA2) && family_is_numbered(g)) || exists|k: int| 0 <= k < family_prefix(StackKeyFamily::HanyaA2).len() && k < family_prefix(g).len() && family_prefix(StackKeyFamily::HanyaA2)[k] != family_prefix(g)[k],
{
    reveal_strlit("hanya_a2_");
    match g {
        StackKeyFamily::AnaxaWeakness => {
            reveal_strlit("anaxa_wk_");
            assert(family_prefix(StackKeyFamily::HanyaA2)[0] != family_prefix(g)[0]);
        },
        StackKeyFamily::BlackSwanArcana => {
            reveal_strlit("bs_arcana_");
            assert(family_prefix(StackKeyFamily::HanyaA2)[0] != family_prefix(g)[0]);
        },
        StackKeyFamily::BlackSwanArcanaAcc => {
            reveal_strlit("bs_arcana_acc_");
            assert(family_prefix(StackKeyFamily::HanyaA2)[0] != family_prefix(g)[0]);
        },
        StackKeyFamily::BlackSwanEpiphany => {
            reveal_strlit("bs_epiphany_");
            assert(family_prefix(StackKeyFamily::HanyaA2)[0] != family_prefix(g)[0]);
        },
        StackKeyFamily::BronyaA4 => {
            reveal_strlit("bronya_a4_");
            assert(family_prefix(StackKeyFamily::HanyaA2)[0] != family_prefix(g)[0]);
        },
        StackKeyFamily::BronyaTech => {
            reveal_strlit("bronya_tech_");
            assert(family_prefix(StackKeyFamily::HanyaA2)[0] != family_prefix(g)[0]);
        },
        StackKeyFamily::BronyaUlt => {
            reveal_strlit("bronya_ult_");
            assert(family_prefix(StackKeyFamily::HanyaA2)[0] != family_prefix(g)[0]);
        },
        StackKeyFamily::CerydraSpd => {
            reveal_strlit("cerydra_spd_rem_");
            assert(family_prefix(StackKeyFamily::HanyaA2)[0] != family_prefix(g)[0]);
        },
        StackKeyFamily::ClaraMark => {
            reveal_strlit("clara_mark_");
            assert(family_prefix(StackKeyFamily::HanyaA2)[0] != family_prefix(g)[0]);
        },
        StackKeyFamily::GallagherBesotted => {
            reveal_strlit("gallagher_besotted_");
            assert(family_prefix(StackKeyFamily::HanyaA2)[0] != family_prefix(g)[0]);
        },
        StackKeyFamily::GepardFrozen => {
            reveal_strlit("gepard_frozen_");
            assert(family_prefix(StackKeyFamily::HanyaA2)[0] != family_prefix(g)[0]);
        },
        StackKeyFamily::GuinaifenBurn => {
            reveal_strlit("guinaifen_burn_");
            assert(family_prefix(StackKeyFamily::HanyaA2)[0] != family_prefix(g)[0]);
        },
        StackKeyFamily::GuinaifenBurnBoost => {
            reveal_strlit("guinaifen_burn_boost_");
            assert(family_prefix(StackKeyFamily::HanyaA2)[0] != family_prefix(g)[0]);
        },
        StackKeyFamily::GuinaifenFirekiss => {
            reveal_strlit("guinaifen_fk_");
            assert(family_prefix(StackKeyFamily::HanyaA2)[0] != family_prefix(g)[0]);
        },
        StackKeyFamily::GuinaifenFirekissDur => {
            reveal_strlit("guinaifen_fk_dur_");
            assert(family_prefix(StackKeyFamily::HanyaA2)[0] != family_prefix(g)[0]);
        },
        StackKeyFamily::HanyaTalent => {
            reveal_strlit("hanya_talent_");
            assert(family_prefix(StackKeyFamily::HanyaA2)[6] != family_prefix(g)[6]);
        },
        StackKeyFamily::HanyaUlt => {
            reveal_strlit("hanya_ult_");
            assert(family_prefix(StackKeyFamily::HanyaA2)[6] != family_prefix(g)[6]);
        },
        StackKeyFamily::JiaoqiuAshen => {
            reveal_strlit("ashen_roast_");
            assert(family_prefix(StackKeyFamily::HanyaA2)[0] != family_prefix(g)[0]);
        },
        _ => {},
    }
}

proof fn lemma_apart_from_hanya_ult(g: StackKeyFamily)
    requires
        g != StackKeyFamily::HanyaUlt,
    ensures
        prefixes_apart(family_prefix(StackKeyFamily::HanyaUlt), family_prefix(g)),
        (family_is_numbered(StackKeyFamily::HanyaUlt) && family_is_numbered(g)) || exists|k: int| 0 <= k < family_prefix(StackKeyFamily::HanyaUlt).len() && k < family_prefix(g).len() && family_prefix(StackKeyFamily::HanyaUlt)[k] != family_prefix(g)[k],
{
    reveal_strlit("hanya_ult_");
    match g {
        StackKeyFamily::AnaxaWeakness => {
            reveal_strlit("anaxa_wk_");
            assert(family_prefix(StackKeyFamily::HanyaUlt)[0] != family_prefix(g)[0]);
        },
        StackKeyFamily::BlackSwanArcana => {
            reveal_strlit("bs_arcana_");
            assert(family_prefix(StackKeyFamily::HanyaUlt)[0] != family_prefix(g)[0]);
        },
        StackKeyFamily::BlackSwanArcanaAcc => {
            reveal_strlit("bs_arcana_acc_");
            assert(family_prefix(StackKeyFamily::HanyaUlt)[0] != family_prefix(g)[0]);
        },
        StackKeyFamily::BlackSwanEpiphany => {
            reveal_strlit("bs_epiphany_");
            assert(family_prefix(StackKeyFamily::HanyaUlt)[0] != family_prefix(g)[0]);
        },
        StackKeyFamily::BronyaA4 => {
            reveal_strlit("bronya_a4_");
            assert(family_prefix(StackKeyFamily::HanyaUlt)[0] != family_prefix(g)[0]);
        },
        StackKeyFamily::BronyaTech => {
            reveal_strlit("bronya_tech_");
            assert(family_prefix(StackKeyFamily::HanyaUlt)[0] != family_prefix(g)[0]);
        },
        StackKeyFamily::BronyaUlt => {
            reveal_strlit("bronya_ult_");
            assert(family_prefix(StackKeyFamily::HanyaUlt)[0] != family_prefix(g)[0]);
        },
        StackKeyFamily::CerydraSpd => {
            reveal_strlit("cerydra_spd_rem_");
            assert(family_prefix(StackKeyFamily::HanyaUlt)[0] != family_prefix(g)[0]);
        },
        StackKeyFamily::ClaraMark => {
            reveal_strlit("clara_mark_");
            assert(family_prefix(StackKeyFamily::HanyaUlt)[0] != family_prefix(g)[0]);
        },
        StackKeyFamily::GallagherBesotted => {
            reveal_strlit("gallagher_besotted_");
            assert(family_prefix(StackKeyFamily::HanyaUlt)[0] != family_prefix(g)[0]);
        },
        StackKeyFamily::GepardFrozen => {
            reveal_strlit("gepard_frozen_");
            assert(family_prefix(StackKeyFamily::HanyaUlt)[0] != family_prefix(g)[0]);
        },
        StackKeyFamily::GuinaifenBurn => {
            reveal_strlit("guinaifen_burn_");
            assert(family_prefix(StackKeyFamily::HanyaUlt)[0] != family_prefix(g)[0]);
        },
        StackKeyFamily::GuinaifenBurnBoost => {
            reveal_strlit("guinaifen_burn_boost_");
            assert(family_prefix(StackKeyFamily::HanyaUlt)[0] != family_prefix(g)[0]);
        },
        StackKeyFamily::GuinaifenFirekiss => {
            reveal_strlit("guinaifen_fk_");
            assert(family_prefix(StackKeyFamily::HanyaUlt)[0] != family_prefix(g)[0]);
        },
        StackKeyFamily::GuinaifenFirekissDur => {
            reveal_strlit("guinaifen_fk_dur_");
            assert(family_prefix(StackKeyFamily::HanyaUlt)[0] != family_prefix(g)[0]);
        },
        StackKeyFamily::HanyaTalent => {
            reveal_strlit("hanya_talent_");
            assert(family_prefix(StackKeyFamily::HanyaUlt)[6] != family_prefix(g)[6]);
        },
        StackKeyFamily::HanyaA2 => {
            reveal_strlit("hanya_a2_");
            assert(family_prefix(StackKeyFamily::HanyaUlt)[6] != family_prefix(g)[6]);
        },
        StackKeyFamily::JiaoqiuAshen => {
            reveal_strlit("ashen_roast_");
            assert(family_prefix(StackKeyFamily::HanyaUlt)[0] != family_prefix(g)[0]);
        },
        _ => {},
    }
}

proof fn lemma_apart_from_jiaoqiu_ashen(g: StackKeyFamily)
    requires
        g != StackKeyFamily::JiaoqiuAshen,
    ensures
        prefixes_apart(family_prefix(StackKeyFamily::JiaoqiuAshen), family_prefix(g)),
        (family_is_numbered(StackKeyFamily::JiaoqiuAshen) && family_is_numbered(g)) || exists|k: int| 0 <= k < family_prefix(StackKeyFamily::JiaoqiuAshen).len() && k < family_prefix(g).len() && family_prefix(StackKeyFamily::JiaoqiuAshen)[k] != family_prefix(g)[k],
{
    reveal_strlit("ashen_roast_");
    match g {
        StackKeyFamily::AnaxaWeakness => {
            reveal_strlit("anaxa_wk_");
            assert(family_prefix(StackKeyFamily::JiaoqiuAshen)[1] != family_prefix(g)[1]);
        },
        StackKeyFamily::BlackSwanArcana => {
            reveal_strlit("bs_arcana_");
            assert(family_prefix(StackKeyFamily::JiaoqiuAshen)[0] != family_prefix(g)[0]);
        },
        StackKeyFamily::BlackSwanArcanaAcc => {
            reveal_strlit("bs_arcana_acc_");
            assert(family_prefix(StackKeyFamily::JiaoqiuAshen)[0] != family_prefix(g)[0]);
        },
        StackKeyFamily::BlackSwanEpiphany => {
            reveal_strlit("bs_epiphany_");
            assert(family_prefix(StackKeyFamily::JiaoqiuAshen)[0] != family_prefix(g)[0]);
        },
        StackKeyFamily::BronyaA4 => {
            reveal_strlit("bronya_a4_");
            assert(family_prefix(StackKeyFamily::JiaoqiuAshen)[0] != family_prefix(g)[0]);
        },
        StackKeyFamily::BronyaTech => {
            reveal_strlit("bronya_tech_");
            assert(family_prefix(StackKeyFamily::JiaoqiuAshen)[0] != family_prefix(g)[0]);
        },
        StackKeyFamily::BronyaUlt => {
            reveal_strlit("bronya_ult_");
            assert(family_prefix(StackKeyFamily::JiaoqiuAshen)[0] != family_prefix(g)[0]);
        },
        StackKeyFamily::CerydraSpd => {
            reveal_strlit("cerydra_spd_rem_");
            assert(family_prefix(StackKeyFamily::JiaoqiuAshen)[0] != family_prefix(g)[0]);
        },
        StackKeyFamily::ClaraMark => {
            reveal_strlit("clara_mark_");
            assert(family_prefix(StackKeyFamily::JiaoqiuAshen)[0] != family_prefix(g)[0]);
        },
        StackKeyFamily::GallagherBesotted => {
            reveal_strlit("gallagher_besotted_");
            assert(family_prefix(StackKeyFamily::JiaoqiuAshen)[0] != family_prefix(g)[0]);
        },
        StackKeyFamily::GepardFrozen => {
            reveal_strlit("gepard_frozen_");
            assert(family_prefix(StackKeyFamily::JiaoqiuAshen)[0] != family_prefix(g)[0]);
        },
        StackKeyFamily::GuinaifenBurn => {
            reveal_strlit("guinaifen_burn_");
            assert(family_prefix(StackKeyFamily::JiaoqiuAshen)[0] != family_prefix(g)[0]);
        },
        StackKeyFamily::GuinaifenBurnBoost => {
            reveal_strlit("guinaifen_burn_boost_");
            assert(family_prefix(StackKeyFamily::JiaoqiuAshen)[0] != family_prefix(g)[0]);
        },
        StackKeyFamily::GuinaifenFirekiss => {
            reveal_strlit("guinaifen_fk_");
            assert(family_prefix(StackKeyFamily::JiaoqiuAshen)[0] != family_prefix(g)[0]);
        },
        StackKeyFamily::GuinaifenFirekissDur => {
            reveal_strlit("guinaifen_fk_dur_");
            assert(family_prefix(StackKeyFamily::JiaoqiuAshen)[0] != family_prefix(g)[0]);
        },
        StackKeyFamily::HanyaTalent => {
            reveal_strlit("hanya_talent_");
            assert(family_prefix(StackKeyFamily::JiaoqiuAshen)[0] != family_prefix(g)[0]);
        },
        StackKeyFamily::HanyaA2 => {
            reveal_strlit("hanya_a2_");
            assert(family_prefix(StackKeyFamily::JiaoqiuAshen)[0] != family_prefix(g)[0]);
        },
        StackKeyFamily::HanyaUlt => {
            reveal_strlit("hanya_ult_");
            assert(family_prefix(StackKeyFamily::JiaoqiuAshen)[0] != family_prefix(g)[0]);
        },
        _ => {},
    }
}

proof fn lemma_families_apart(f: StackKeyFamily, g: StackKeyFamily)
    requires
        f != g,
    ensures
        prefixes_apart(family_prefix(f), family_prefix(g)),
        (family_is_numbered(f) && family_is_numbered(g)) || exists|k: int| 0 <= k < family_prefix(f).len() && k < family_prefix(g).len() && family_prefix(f)[k] != family_prefix(g)[k],
{
    match f {
        StackKeyFamily::AnaxaWeakness => lemma_apart_from_anaxa_weakness(g),
        StackKeyFamily::BlackSwanArcana => lemma_apart_from_black_swan_arcana(g),
        StackKeyFamily::BlackSwanArcanaAcc => lemma_apart_from_black_swan_arcana_acc(g),
        StackKeyFamily::BlackSwanEpiphany => lemma_apart_from_black_swan_epiphany(g),
        StackKeyFamily::BronyaA4 => lemma_apart_from_bronya_a4(g),
        StackKeyFamily::BronyaTech => lemma_apart_from_bronya_tech(g),
        StackKeyFamily::BronyaUlt => lemma_apart_from_bronya_ult(g),
        StackKeyFamily::CerydraSpd => lemma_apart_from_cerydra_spd(g),
        StackKeyFamily::ClaraMark => lemma_apart_from_clara_mark(g),
        StackKeyFamily::GallagherBesotted => lemma_apart_from_gallagher_besotted(g),
        StackKeyFamily::GepardFrozen => lemma_apart_from_gepard_frozen(g),
        StackKeyFamily::GuinaifenBurn => lemma_apart_from_guinaifen_burn(g),
        StackKeyFamily::GuinaifenBurnBoost => lemma_apart_from_guinaifen_burn_boost(g),
        StackKeyFamily::GuinaifenFirekiss => lemma_apart_from_guinaifen_firekiss(g),
        StackKeyFamily::GuinaifenFirekissDur => lemma_apart_from_guinaifen_firekiss_dur(g),
        StackKeyFamily::HanyaTalent => lemma_apart_from_hanya_talent(g),
        StackKeyFamily::HanyaA2 => lemma_apart_from_hanya_a2(g),
        StackKeyFamily::HanyaUlt => lemma_apart_from_hanya_ult(g),
        StackKeyFamily::JiaoqiuAshen => lemma_apart_from_jiaoqiu_ashen(g),
    }
}

/// Counters of different kits, or of different slots or enemies, never share
/// a key in the shared stack map: a key determines its family and its suffix.
pub proof fn stack_keys_never_collide(f: StackKeyFamily, s: Seq<char>, g: StackKeyFamily, t: Seq<char>)
    requires
        suffix_admissible(f, s),
        suffix_admissible(g, t),
        family_prefix(f) + s == family_prefix(g) + t,
    ensures
        f == g,
        s == t,
{
    if f != g {
        lemma_families_apart(f, g);
        if family_is_numbered(f) && family_is_numbered(g) {
            let a = choose|n: nat| s == #[trigger] decimal(n);
            let b = choose|n: nat| t == #[trigger] decimal(n);
            lemma_numbered_keys_apart(family_prefix(f), family_prefix(g), a, b);
        } else {
            let k = choose|k: int| 0 <= k < family_prefix(f).len() && k < family_prefix(g).len() && family_prefix(f)[k] != family_prefix(g)[k];
            assert((family_prefix(f) + s)[k] == family_prefix(f)[k]);
            assert((family_prefix(g) + t)[k] == family_prefix(g)[k]);
        }
    } else {
        let p = family_prefix(f);
        assert(s =~= (p + s).subrange(p.len() as int, (p + s).len() as int));
        assert(t =~= (p + t).subrange(p.len() as int, (p + t).len() as int));
    }
}


} // verus!
