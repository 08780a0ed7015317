//! Decisions of the team/relic optimizer that do not depend on simulated
//! damage: starting relics, how candidate outcomes rank, how the search is
//! sized, and how a search state moves to a neighbouring one.

use vstd::prelude::*;
use rand::rngs::SmallRng;
use rand::seq::SliceRandom;
use rand::Rng;
use crate::models::{RelicConfig, Settings};
use crate::search::{binom, n_combinations, n_combinations_fits};
use crate::text::str_eq;

verus! {

/// At or below this many candidate teams the search is exhaustive.
pub const EXHAUSTIVE_THRESHOLD: usize = 15_000;

/// Independent annealing chains.
pub const SA_JOINT_RESTARTS: usize = 10;

/// Steps per annealing chain.
pub const SA_JOINT_ITERATIONS: usize = 4_000;

/// Cycle limit when the request sets none.
pub const DEFAULT_MAX_CYCLES: i32 = 5;

/// Largest team.
pub const MAX_TEAM_SIZE: usize = 4;

// ── Default relics ──────────────────────────────────────────────────────────

/// The damage-boost sphere that matches an element (ATK% otherwise).
pub open spec fn sphere_for(element: Seq<char>) -> Seq<char> {
    if element == "Physical"@ {
        "physical_dmg"@
    } else if element == "Fire"@ {
        "fire_dmg"@
    } else if element == "Ice"@ {
        "ice_dmg"@
    } else if element == "Lightning"@ {
        "lightning_dmg"@
    } else if element == "Wind"@ {
        "wind_dmg"@
    } else if element == "Quantum"@ {
        "quantum_dmg"@
    } else if element == "Imaginary"@ {
        "imaginary_dmg"@
    } else {
        "atk_percent"@
    }
}

/// The default relic configuration for a character of `element`.
pub open spec fn default_config_spec(element: Seq<char>, c: RelicConfig) -> bool {
    &&& c.relic_set@ == "Pioneer 4p"@
    &&& c.ornament_set@ == "broken_keel_2p"@
    &&& c.body_main@ == "crit_dmg"@
    &&& c.feet_main@ == "speed"@
    &&& c.sphere_main@ == sphere_for(element)
    &&& c.rope_main@ == "atk_percent"@
}

/// A sensible starting relic configuration for any character:
/// Pioneer 4p + Broken Keel 2p, crit_dmg body, speed feet,
/// element-matching sphere, atk% rope.
pub fn default_relic_config(element: &str) -> (r: RelicConfig)
    ensures
        default_config_spec(element@, r),
{
    let sphere: &str = if str_eq(element, "Physical") {
        "physical_dmg"
    } else if str_eq(element, "Fire") {
        "fire_dmg"
    } else if str_eq(element, "Ice") {
        "ice_dmg"
    } else if str_eq(element, "Lightning") {
        "lightning_dmg"
    } else if str_eq(element, "Wind") {
        "wind_dmg"
    } else if str_eq(element, "Quantum") {
        "quantum_dmg"
    } else if str_eq(element, "Imaginary") {
        "imaginary_dmg"
    } else {
        "atk_percent"
    };
    RelicConfig {
        relic_set: String::from_str("Pioneer 4p"),
        ornament_set: String::from_str("broken_keel_2p"),
        body_main: String::from_str("crit_dmg"),
        feet_main: String::from_str("speed"),
        sphere_main: String::from_str(sphere),
        rope_main: String::from_str("atk_percent"),
    }
}

impl RelicConfig {
    /// An identical copy.
    pub fn duplicate(&self) -> (r: RelicConfig)
        ensures
            r == *self,
    {
        RelicConfig {
            relic_set: self.relic_set.clone(),
            ornament_set: self.ornament_set.clone(),
            body_main: self.body_main.clone(),
            feet_main: self.feet_main.clone(),
            sphere_main: self.sphere_main.clone(),
            rope_main: self.rope_main.clone(),
        }
    }
}

// ── Ranking outcomes ────────────────────────────────────────────────────────

/// What the ranking reads of a simulation report besides its damage.
#[derive(Debug, Clone, Copy, PartialEq, Eq, Structural)]
pub struct Outcome {
    pub is_defeated: bool,
    pub cycles_taken: i32,
}

/// How a challenger's outcome compares with the incumbent's.
#[derive(Debug, Clone, Copy, PartialEq, Eq, Structural)]
pub enum Verdict {
    ChallengerBetter,
    IncumbentBetter,
    /// Same survival and cycles: the higher damage decides.
    Tie,
}

/// An outcome's rank: surviving comes first, then fewer cycles.
pub open spec fn outcome_rank(o: Outcome) -> (int, int) {
    (if o.is_defeated { 1int } else { 0int }, o.cycles_taken as int)
}

/// Lexicographic "strictly better" on ranks.
pub open spec fn rank_better(a: (int, int), b: (int, int)) -> bool {
    a.0 < b.0 || (a.0 == b.0 && a.1 < b.1)
}

/// Lexicographic comparison: not-defeated > fewer-cycles; equal on both is a
/// tie, which the damage dealt decides.
pub fn compare_outcomes(incumbent: &Outcome, challenger: &Outcome) -> (v: Verdict)
    ensures
        v == Verdict::ChallengerBetter <==> rank_better(outcome_rank(*challenger), outcome_rank(*incumbent)),
        v == Verdict::IncumbentBetter <==> rank_better(outcome_rank(*incumbent), outcome_rank(*challenger)),
        v == Verdict::Tie <==> outcome_rank(*incumbent) == outcome_rank(*challenger),
        incumbent.is_defeated != challenger.is_defeated ==> v == (if challenger.is_defeated {
            Verdict::IncumbentBetter
        } else {
            Verdict::ChallengerBetter
        }),
        incumbent.is_defeated == challenger.is_defeated && challenger.cycles_taken < incumbent.cycles_taken
            ==> v == Verdict::ChallengerBetter,
        incumbent.is_defeated == challenger.is_defeated && challenger.cycles_taken > incumbent.cycles_taken
            ==> v == Verdict::IncumbentBetter,
        v == Verdict::Tie <==> (incumbent.is_defeated == challenger.is_defeated
            && incumbent.cycles_taken == challenger.cycles_taken),
{
    if incumbent.is_defeated != challenger.is_defeated {
        return if !challenger.is_defeated { Verdict::ChallengerBetter } else { Verdict::IncumbentBetter };
    }
    if challenger.cycles_taken != incumbent.cycles_taken {
        return if challenger.cycles_taken < incumbent.cycles_taken {
            Verdict::ChallengerBetter
        } else {
            Verdict::IncumbentBetter
        };
    }
    Verdict::Tie
}

/// The ranking is a strict order: never both ways, and transitive.
pub proof fn outcome_ranking_is_strict_order(a: Outcome, b: Outcome, c: Outcome)
    ensures
        !(rank_better(outcome_rank(a), outcome_rank(b)) && rank_better(outcome_rank(b), outcome_rank(a))),
        rank_better(outcome_rank(a), outcome_rank(b)) && rank_better(outcome_rank(b), outcome_rank(c))
            ==> rank_better(outcome_rank(a), outcome_rank(c)),
        rank_better(outcome_rank(a), outcome_rank(b)) || rank_better(outcome_rank(b), outcome_rank(a))
            || outcome_rank(a) == outcome_rank(b),
        !a.is_defeated && b.is_defeated ==> rank_better(outcome_rank(a), outcome_rank(b)),
{
}

/// Surviving beats being defeated; between outcomes of the same survival the
/// one with strictly fewer cycles ranks strictly higher; and two outcomes rank
/// equal exactly when survival and cycle count are both the same.
pub proof fn survival_then_fewer_cycles(a: Outcome, b: Outcome)
    ensures
        !a.is_defeated && b.is_defeated ==> rank_better(outcome_rank(a), outcome_rank(b)),
        a.is_defeated == b.is_defeated && a.cycles_taken < b.cycles_taken
            ==> rank_better(outcome_rank(a), outcome_rank(b)),
        a.is_defeated == b.is_defeated && a.cycles_taken > b.cycles_taken
            ==> rank_better(outcome_rank(b), outcome_rank(a)),
        outcome_rank(a) == outcome_rank(b) <==> (a.is_defeated == b.is_defeated
            && a.cycles_taken == b.cycles_taken),
{
}

// ── Sizing the search ───────────────────────────────────────────────────────

/// The cycle limit a request asks for.
pub fn effective_max_cycles(settings: &Option<Settings>) -> (r: i32)
    ensures
        r == match settings {
            Some(s) => match s.max_cycles {
                Some(m) => m,
                None => DEFAULT_MAX_CYCLES,
            },
            None => DEFAULT_MAX_CYCLES,
        },
        r == match settings {
            Some(s) => match s.max_cycles {
                Some(m) => m,
                None => 5,
            },
            None => 5,
        },
{
    match settings {
        Some(s) => match s.max_cycles {
            Some(m) => m,
            None => DEFAULT_MAX_CYCLES,
        },
        None => DEFAULT_MAX_CYCLES,
    }
}

/// How a request is searched.
#[derive(Debug, Clone, Copy, PartialEq, Eq, Structural)]
pub struct SearchPlan {
    pub team_size: usize,
    pub total_combos: usize,
    pub exhaustive: bool,
}

/// The team size for a pool of `n_chars`: four, or the whole pool if smaller.
pub open spec fn team_size_for(n_chars: nat) -> nat {
    if n_chars < MAX_TEAM_SIZE { n_chars } else { MAX_TEAM_SIZE as nat }
}

/// A team has four members, or the whole pool when it has fewer than four.
pub proof fn team_size_is_four_or_whole_pool(n_chars: nat)
    ensures
        n_chars >= 4 ==> team_size_for(n_chars) == 4,
        n_chars < 4 ==> team_size_for(n_chars) == n_chars,
{
}

/// Team size, number of candidate teams, and whether to sweep them all.
pub fn plan_search(n_chars: usize) -> (p: SearchPlan)
    requires
        n_combinations_fits(n_chars as nat, team_size_for(n_chars as nat)),
    ensures
        p.team_size == team_size_for(n_chars as nat),
        n_chars >= 4 ==> p.team_size == 4,
        n_chars < 4 ==> p.team_size == n_chars,
        p.total_combos == binom(n_chars as nat, p.team_size as nat),
        p.exhaustive == (p.total_combos <= EXHAUSTIVE_THRESHOLD),
        p.exhaustive == (p.total_combos <= 15_000),
{
    let team_size = if n_chars < MAX_TEAM_SIZE { n_chars } else { MAX_TEAM_SIZE };
    let total_combos = n_combinations(n_chars, team_size);
    SearchPlan { team_size, total_combos, exhaustive: total_combos <= EXHAUSTIVE_THRESHOLD }
}

/// Whether `simulations_count` stays in the machine range for these inputs
/// (callers outside the library test this first).
pub fn simulations_count_fits(plan: &SearchPlan, team_len: usize, sims_per_char: usize) -> (r: bool)
    ensures
        r == (if plan.exhaustive {
            team_len * 2 <= usize::MAX && plan.total_combos + team_len * 2 * sims_per_char <= usize::MAX
        } else {
            SA_JOINT_RESTARTS * SA_JOINT_ITERATIONS + team_len * sims_per_char <= usize::MAX
        }),
{
    if plan.exhaustive {
        match team_len.checked_mul(2) {
            None => false,
            Some(d) => match d.checked_mul(sims_per_char) {
                None => false,
                Some(m) => plan.total_combos.checked_add(m).is_some(),
            },
        }
    } else {
        match team_len.checked_mul(sims_per_char) {
            None => false,
            Some(m) => (SA_JOINT_RESTARTS * SA_JOINT_ITERATIONS).checked_add(m).is_some(),
        }
    }
}

/// The number of simulations a search runs: for the exhaustive sweep, every
/// team plus two relic-polish rounds; otherwise all annealing steps plus one
/// polish round. `sims_per_char` is the relic candidates tried per character
/// per round.
pub fn simulations_count(plan: &SearchPlan, team_len: usize, sims_per_char: usize) -> (r: usize)
    requires
        plan.exhaustive ==> team_len * 2 <= usize::MAX,
        plan.exhaustive ==> plan.total_combos + team_len * 2 * sims_per_char <= usize::MAX,
        !plan.exhaustive ==> SA_JOINT_RESTARTS * SA_JOINT_ITERATIONS + team_len * sims_per_char
            <= usize::MAX,
    ensures
        plan.exhaustive ==> r == plan.total_combos + team_len * 2 * sims_per_char,
        !plan.exhaustive ==> r == SA_JOINT_RESTARTS * SA_JOINT_ITERATIONS + team_len * sims_per_char,
        !plan.exhaustive ==> r == 40_000 + team_len * sims_per_char,
{
    if plan.exhaustive {
        plan.total_combos + team_len * 2 * sims_per_char
    } else {
        SA_JOINT_RESTARTS * SA_JOINT_ITERATIONS + team_len * sims_per_char
    }
}


// ── Annealing moves ─────────────────────────────────────────────────────────

/// The random number generator the annealing chains draw from.
#[verifier::external_type_specification]
#[verifier::external_body]
pub struct ExSmallRng(SmallRng);

/// A (relic set, ornament set) pair that the relic search may try.
#[derive(Debug, Clone)]
pub struct SetCombo {
    pub relic_set: String,
    pub ornament_set: String,
}

/// A (body, feet, sphere, rope) main-stat choice that the relic search may try.
#[derive(Debug, Clone)]
pub struct MainStatCombo {
    pub body_main: String,
    pub feet_main: String,
    pub sphere_main: String,
    pub rope_main: String,
}

/// A search state: the team (indices into the character pool) and each
/// member's relics.
#[derive(Debug, Clone)]
pub struct JointGenome {
    pub char_idxs: Vec<usize>,
    pub relic_configs: Vec<RelicConfig>,
}

/// The three kinds of annealing step.
#[derive(Debug, Clone, Copy, PartialEq, Eq, Structural)]
pub enum MoveKind {
    /// Swap one member for a character outside the team; that slot's relics
    /// go back to the default for the newcomer's element.
    SwapCharacter,
    /// Give one member another (relic set, ornament set) pair.
    ChangeSets,
    /// Give one member other main stats.
    ChangeMains,
}

/// A character's element as read for default relics (Physical when missing).
pub open spec fn element_of(attribute: Option<String>) -> Seq<char> {
    match attribute {
        Some(s) => s@,
        None => "Physical"@,
    }
}

/// A team over a pool of `n` characters: no one twice, everyone in the pool,
/// one relic configuration per member.
pub open spec fn genome_wf(g: JointGenome, n: nat) -> bool {
    &&& g.char_idxs@.len() == g.relic_configs@.len()
    &&& g.char_idxs@.no_duplicates()
    &&& forall|i: int| 0 <= i < g.char_idxs@.len() ==> #[trigger] g.char_idxs@[i] < n
}

/// Two teams agree everywhere except possibly at `slot`.
pub open spec fn same_except_at(g: JointGenome, h: JointGenome, slot: int) -> bool {
    forall|i: int| #![trigger g.char_idxs@[i]] 0 <= i < g.char_idxs@.len() && i != slot ==> g.char_idxs@[i] == h.char_idxs@[i]
        && g.relic_configs@[i] == h.relic_configs@[i]
}

/// How slot `slot` of `g` differs from `h` after a step of kind `kind`: a
/// swap brings in someone from outside the team with default relics for their
/// element; a set change keeps the main stats and takes one of the set
/// combinations; a main-stat change keeps the sets and takes one of the
/// main-stat combinations.
pub open spec fn moved_as(
    kind: MoveKind,
    g: JointGenome,
    h: JointGenome,
    slot: int,
    attributes: Seq<Option<String>>,
    set_combos: Seq<SetCombo>,
    main_combos: Seq<MainStatCombo>,
) -> bool {
    let c = g.relic_configs@[slot];
    let o = h.relic_configs@[slot];
    match kind {
        MoveKind::SwapCharacter => {
            &&& !h.char_idxs@.contains(g.char_idxs@[slot])
            &&& default_config_spec(element_of(attributes[g.char_idxs@[slot] as int]), c)
        },
        MoveKind::ChangeSets => {
            &&& exists|k: int| 0 <= k < set_combos.len() && c.relic_set == (#[trigger] set_combos[k]).relic_set
                && c.ornament_set == set_combos[k].ornament_set
            &&& c.body_main == o.body_main && c.feet_main == o.feet_main && c.sphere_main == o.sphere_main
                && c.rope_main == o.rope_main
        },
        MoveKind::ChangeMains => {
            &&& exists|k: int| 0 <= k < main_combos.len() && c.body_main == (#[trigger] main_combos[k]).body_main
                && c.feet_main == main_combos[k].feet_main && c.sphere_main == main_combos[k].sphere_main
                && c.rope_main == main_combos[k].rope_main
            &&& c.relic_set == o.relic_set && c.ornament_set == o.ornament_set
        },
    }
}

/// `rand::Rng::gen_range` on `0..bound`: some index below `bound`.
#[verifier::external_body]
fn random_below(rng: &mut SmallRng, bound: usize) -> (r: usize)
    requires
        bound > 0,
    ensures
        r < bound,
{
    rng.gen_range(0..bound)
}

/// `rand::seq::SliceRandom::shuffle`: the same elements in some order.
#[verifier::external_body]
fn shuffle_indices(rng: &mut SmallRng, v: &mut Vec<usize>)
    ensures
        final(v)@.to_multiset() == old(v)@.to_multiset(),
{
    v.shuffle(rng)
}

/// `rand::seq::SliceRandom::choose`: some element, or none of an empty list.
#[verifier::external_body]
fn choose_one(rng: &mut SmallRng, items: &Vec<usize>) -> (r: Option<usize>)
    ensures
        r is None <==> items@.len() == 0,
        r matches Some(x) ==> items@.contains(x),
{
    items.choose(rng).copied()
}

fn element_str(attribute: &Option<String>) -> (r: &str)
    ensures
        r@ == element_of(*attribute),
{
    match attribute {
        Some(s) => s.as_str(),
        None => "Physical",
    }
}

fn contains_index(v: &Vec<usize>, x: usize) -> (r: bool)
    ensures
        r == v@.contains(x),
{
    let mut i: usize = 0;
    while i < v.len()
        invariant
            i <= v@.len(),
            forall|j: int| 0 <= j < i ==> v@[j] != x,
        decreases v@.len() - i,
    {
        if v[i] == x {
            return true;
        }
        i = i + 1;
    }
    false
}

/// The characters of a pool of `n` that are not in `team`, in increasing order.
pub fn swap_candidates(n: usize, team: &Vec<usize>) -> (r: Vec<usize>)
    ensures
        forall|i: int, j: int| 0 <= i < j < r@.len() ==> r@[i] < r@[j],
        forall|i: int| 0 <= i < r@.len() ==> #[trigger] r@[i] < n && !team@.contains(r@[i]),
        forall|x: usize| x < n && !team@.contains(x) ==> #[trigger] r@.contains(x),
{
    let mut r: Vec<usize> = Vec::new();
    let mut x: usize = 0;
    while x < n
        invariant
            x <= n,
            forall|i: int, j: int| 0 <= i < j < r@.len() ==> r@[i] < r@[j],
            forall|i: int| 0 <= i < r@.len() ==> #[trigger] r@[i] < x && !team@.contains(r@[i]),
            forall|y: usize| y < x && !team@.contains(y) ==> #[trigger] r@.contains(y),
        decreases n - x,
    {
        if !contains_index(team, x) {
            let ghost before = r@;
            r.push(x);
            proof {
                assert(r@[r@.len() - 1] == x);
                assert forall|y: usize| y < x + 1 && !team@.contains(y) implies #[trigger] r@.contains(y) by {
                    if y < x {
                        assert(before.contains(y));
                        let k = choose|k: int| 0 <= k < before.len() && before[k] == y;
                        assert(r@[k] == y);
                    } else {
                        assert(r@[r@.len() - 1] == y);
                    }
                }
            }
        }
        x = x + 1;
    }
    r
}

fn copy_configs(v: &Vec<RelicConfig>) -> (r: Vec<RelicConfig>)
    ensures
        r@ == v@,
{
    let mut r: Vec<RelicConfig> = Vec::new();
    let mut i: usize = 0;
    while i < v.len()
        invariant
            i <= v@.len(),
            r@ == v@.take(i as int),
        decreases v@.len() - i,
    {
        r.push(v[i].duplicate());
        proof { assert(v@.take(i as int + 1) =~= v@.take(i as int).push(v@[i as int])); }
        i = i + 1;
    }
    proof { assert(v@.take(v@.len() as int) =~= v@); }
    r
}

/// A random starting state: `team_size` distinct characters drawn from the
/// pool (whose elements are `attributes`), each with default relics.
pub fn initial_genome(rng: &mut SmallRng, attributes: &Vec<Option<String>>, team_size: usize) -> (g: JointGenome)
    requires
        team_size <= attributes@.len(),
    ensures
        genome_wf(g, attributes@.len()),
        g.char_idxs@.len() == team_size,
        forall|i: int| #![trigger g.relic_configs@[i]] 0 <= i < team_size ==> default_config_spec(
            element_of(attributes@[g.char_idxs@[i] as int]),
            g.relic_configs@[i],
        ),
{
    let n = attributes.len();
    let mut all: Vec<usize> = Vec::new();
    let mut x: usize = 0;
    while x < n
        invariant
            x <= n,
            all@ == Seq::new(x as nat, |i: int| i as usize),
        decreases n - x,
    {
        all.push(x);
        proof { assert(all@ =~= Seq::new((x + 1) as nat, |i: int| i as usize)); }
        x = x + 1;
    }
    let ghost before = all@;
    proof {
        assert(before.no_duplicates());
        before.lemma_multiset_has_no_duplicates();
    }
    shuffle_indices(rng, &mut all);
    proof {
        broadcast use vstd::seq_lib::group_to_multiset_ensures;
        assert forall|v: usize| all@.to_multiset().contains(v) implies all@.to_multiset().count(v) == 1 by {
            assert(before.to_multiset().contains(v));
        }
        all@.lemma_multiset_has_no_duplicates_conv();
        assert forall|i: int| 0 <= i < all@.len() implies #[trigger] all@[i] < n by {
            assert(all@.to_multiset().count(all@[i]) > 0);
            assert(before.to_multiset().count(all@[i]) > 0);
            assert(before.contains(all@[i]));
        }
        assert(all@.len() == before.len()) by {
            assert(all@.to_multiset().len() == before.to_multiset().len());
        }
    }
    let mut char_idxs: Vec<usize> = Vec::new();
    let mut relic_configs: Vec<RelicConfig> = Vec::new();
    let mut i: usize = 0;
    while i < team_size
        invariant
            team_size <= n,
            n == attributes@.len(),
            all@.len() == n,
            all@.no_duplicates(),
            forall|k: int| 0 <= k < all@.len() ==> #[trigger] all@[k] < n,
            i <= team_size,
            char_idxs@ == all@.take(i as int),
            relic_configs@.len() == i,
            forall|k: int| #![trigger relic_configs@[k]] 0 <= k < i ==> default_config_spec(
                element_of(attributes@[char_idxs@[k] as int]),
                relic_configs@[k],
            ),
        decreases team_size - i,
    {
        let c = all[i];
        char_idxs.push(c);
        relic_configs.push(default_relic_config(element_str(&attributes[c])));
        proof { assert(all@.take(i as int + 1) =~= all@.take(i as int).push(c)); }
        i = i + 1;
    }
    JointGenome { char_idxs, relic_configs }
}

/// `g` is `h` after one step of kind `kind`: a single slot changed, in the
/// way `moved_as` describes.
pub open spec fn one_move_apart(
    kind: MoveKind,
    g: JointGenome,
    h: JointGenome,
    attributes: Seq<Option<String>>,
    set_combos: Seq<SetCombo>,
    main_combos: Seq<MainStatCombo>,
) -> bool {
    exists|slot: int| 0 <= slot < g.char_idxs@.len() && #[trigger] same_except_at(g, h, slot)
        && moved_as(kind, g, h, slot, attributes, set_combos, main_combos)
}

/// One annealing step from `genome`: picks a slot and changes it as `kind`
/// says. Returns `None` when a swap has nobody outside the team to bring in.
#[verifier::spinoff_prover]
#[verifier::rlimit(40)]
pub fn propose_neighbor(
    rng: &mut SmallRng,
    genome: &JointGenome,
    kind: MoveKind,
    attributes: &Vec<Option<String>>,
    set_combos: &Vec<SetCombo>,
    main_combos: &Vec<MainStatCombo>,
) -> (r: Option<JointGenome>)
    requires
        genome_wf(*genome, attributes@.len()),
        genome.char_idxs@.len() > 0,
        kind == MoveKind::ChangeSets ==> set_combos@.len() > 0,
        kind == MoveKind::ChangeMains ==> main_combos@.len() > 0,
    ensures
        r is None ==> kind == MoveKind::SwapCharacter && forall|x: usize| x < attributes@.len() ==> #[trigger] genome.char_idxs@.contains(x),
        r matches Some(g) ==> genome_wf(g, attributes@.len()),
        r matches Some(g) ==> g.char_idxs@.len() == genome.char_idxs@.len(),
        r matches Some(g) ==> one_move_apart(kind, g, *genome, attributes@, set_combos@, main_combos@),
        r matches Some(g) ==> (kind != MoveKind::SwapCharacter ==> g.char_idxs@ == genome.char_idxs@),
{
    let team_size = genome.char_idxs.len();
    let n = attributes.len();
    let mut char_idxs = genome.char_idxs.clone();
    let mut relic_configs = copy_configs(&genome.relic_configs);
    let slot = random_below(rng, team_size);
    match kind {
        MoveKind::SwapCharacter => {
            let candidates = swap_candidates(n, &genome.char_idxs);
            let picked = choose_one(rng, &candidates);
            match picked {
                None => {
                    proof {
                        // Every pool member is already in the team.
                        assert forall|x: usize| x < n implies genome.char_idxs@.contains(x) by {
                            if !genome.char_idxs@.contains(x) {
                                assert(candidates@.contains(x));
                            }
                        }
                    }
                    return None;
                },
                Some(new_char) => {
                    char_idxs.set(slot, new_char);
                    relic_configs.set(slot, default_relic_config(element_str(&attributes[new_char])));
                    proof {
                        let t = char_idxs@;
                        assert forall|a: int, b: int| 0 <= a < t.len() && 0 <= b < t.len() && a != b implies t[a] != t[b] by {
                            if a == slot as int {
                                assert(!genome.char_idxs@.contains(new_char));
                                assert(t[b] == genome.char_idxs@[b]);
                            } else if b == slot as int {
                                assert(!genome.char_idxs@.contains(new_char));
                                assert(t[a] == genome.char_idxs@[a]);
                            } else {
                                assert(t[a] == genome.char_idxs@[a]);
                                assert(t[b] == genome.char_idxs@[b]);
                            }
                        }
                    }
                },
            }
        },
        MoveKind::ChangeSets => {
            let k = random_below(rng, set_combos.len());
            let sc = &set_combos[k];
            let old = &genome.relic_configs[slot];
            let cfg = RelicConfig {
                relic_set: sc.relic_set.clone(),
                ornament_set: sc.ornament_set.clone(),
                body_main: old.body_main.clone(),
                feet_main: old.feet_main.clone(),
                sphere_main: old.sphere_main.clone(),
                rope_main: old.rope_main.clone(),
            };
            relic_configs.set(slot, cfg);
        },
        MoveKind::ChangeMains => {
            let k = random_below(rng, main_combos.len());
            let mc = &main_combos[k];
            let old = &genome.relic_configs[slot];
            let cfg = RelicConfig {
                relic_set: old.relic_set.clone(),
                ornament_set: old.ornament_set.clone(),
                body_main: mc.body_main.clone(),
                feet_main: mc.feet_main.clone(),
                sphere_main: mc.sphere_main.clone(),
                rope_main: mc.rope_main.clone(),
            };
            relic_configs.set(slot, cfg);
        },
    }
    let g = JointGenome { char_idxs, relic_configs };
    proof {
        assert(genome_wf(g, attributes@.len()));
        assert(g.char_idxs@.len() == genome.char_idxs@.len());
        let s: int = slot as int;
        assert(same_except_at(g, *genome, s));
        assert(moved_as(kind, g, *genome, s, attributes@, set_combos@, main_combos@));
        assert(0 <= s < g.char_idxs@.len());
        assert(one_move_apart(kind, g, *genome, attributes@, set_combos@, main_combos@));
    }
    Some(g)
}

} // verus!
