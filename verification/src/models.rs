//! Plain data types shared by the request, the search and the combat kits.

use vstd::prelude::*;
use crate::text::str_eq;

verus! {

/// Search settings sent with a request.
#[derive(Debug, Clone)]
pub struct Settings {
    pub max_cycles: Option<i32>,
    pub has_castorice: Option<bool>,
}

/// Per-character relic configuration returned in the optimize response.
#[derive(Debug, Clone)]
pub struct CharRelicConfig {
    pub character_name: String,
    pub relic_set: String,
    pub ornament_set: String,
    pub body_main: String,
    pub feet_main: String,
    pub sphere_main: String,
    pub rope_main: String,
}

/// The six equipment slots (4 Relic + 2 Ornament).
#[derive(Debug, Clone, Copy, PartialEq, Eq, Structural)]
pub enum RelicSlot {
    Head,
    Hands,
    Body,
    Feet,
    PlanarSphere,
    LinkRope,
}

/// One equipped relic/ornament piece.
#[derive(Debug, Clone)]
pub struct IncomingRelic {
    pub set_id: String,
    pub slot: RelicSlot,
    pub main_stat: String,
}

/// A character's relic choice: one 4-piece relic set, one 2-piece ornament
/// set and the main stats of the four slots that have a choice.
#[derive(Debug, Clone)]
pub struct RelicConfig {
    pub relic_set: String,
    pub ornament_set: String,
    pub body_main: String,
    pub feet_main: String,
    pub sphere_main: String,
    pub rope_main: String,
}

/// Trace levels of a character's four abilities.
#[derive(Debug, Clone, Copy, PartialEq, Eq, Structural)]
pub struct AbilityLevels {
    pub basic: i32,
    pub skill: i32,
    pub ultimate: i32,
    pub talent: i32,
}

impl Default for AbilityLevels {
    /// Maxed traces: basic 6, the others 10.
    fn default() -> (r: Self)
        ensures
            r == (AbilityLevels { basic: 6, skill: 10, ultimate: 10, talent: 10 }),
    {
        AbilityLevels { basic: 6, skill: 10, ultimate: 10, talent: 10 }
    }
}

/// The kind of action being taken.
#[derive(Debug, Clone, Copy, PartialEq, Eq, Structural)]
pub enum ActionType {
    Basic,
    Skill,
    Ultimate,
    FollowUp,
    TalentProc,
    EnemyAttack,
}

// ── Looking up combatants ───────────────────────────────────────────────────

/// The index of the first team member whose kit is `kit_id`, if any.
pub fn find_member_idx(kit_ids: &Vec<String>, kit_id: &str) -> (r: Option<usize>)
    ensures
        r matches Some(i) ==> i < kit_ids@.len() && kit_ids@[i as int]@ == kit_id@ && forall|j: int|
            0 <= j < i ==> kit_ids@[j]@ != kit_id@,
        r is None ==> forall|j: int| 0 <= j < kit_ids@.len() ==> kit_ids@[j]@ != kit_id@,
{
    let mut i: usize = 0;
    while i < kit_ids.len()
        invariant
            i <= kit_ids@.len(),
            forall|j: int| 0 <= j < i ==> kit_ids@[j]@ != kit_id@,
        decreases kit_ids@.len() - i,
    {
        if str_eq(kit_ids[i].as_str(), kit_id) {
            return Some(i);
        }
        i = i + 1;
    }
    None
}

/// The enemy slot `i` is occupied by instance `id`.
pub open spec fn slot_holds(instance_ids: Seq<Option<String>>, i: int, id: Seq<char>) -> bool {
    instance_ids[i] matches Some(s) && s@ == id
}

/// The first enemy slot occupied by the instance `instance_id`, if any.
pub fn find_enemy_idx(instance_ids: &Vec<Option<String>>, instance_id: &str) -> (r: Option<usize>)
    ensures
        r matches Some(i) ==> i < instance_ids@.len() && slot_holds(instance_ids@, i as int, instance_id@) && forall|j: int|
            0 <= j < i ==> !slot_holds(instance_ids@, j, instance_id@),
        r is None ==> forall|j: int| 0 <= j < instance_ids@.len() ==> !slot_holds(instance_ids@, j, instance_id@),
{
    let mut i: usize = 0;
    while i < instance_ids.len()
        invariant
            i <= instance_ids@.len(),
            forall|j: int| 0 <= j < i ==> !slot_holds(instance_ids@, j, instance_id@),
        decreases instance_ids@.len() - i,
    {
        match &instance_ids[i] {
            Some(id) => {
                if str_eq(id.as_str(), instance_id) {
                    return Some(i);
                }
            },
            None => {},
        }
        i = i + 1;
    }
    None
}

/// True when every enemy slot is empty (all dead).
pub fn all_enemies_dead<T>(enemies: &Vec<Option<T>>) -> (r: bool)
    ensures
        r == forall|j: int| 0 <= j < enemies@.len() ==> enemies@[j] is None,
{
    let mut i: usize = 0;
    while i < enemies.len()
        invariant
            i <= enemies@.len(),
            forall|j: int| 0 <= j < i ==> enemies@[j] is None,
        decreases enemies@.len() - i,
    {
        if enemies[i].is_some() {
            return false;
        }
        i = i + 1;
    }
    true
}

/// The number of team members still standing.
pub fn living_count(downed: &Vec<bool>) -> (r: usize)
    ensures
        r == downed@.filter(|d: bool| !d).len(),
{
    let mut n: usize = 0;
    let mut i: usize = 0;
    while i < downed.len()
        invariant
            i <= downed@.len(),
            n == downed@.take(i as int).filter(|d: bool| !d).len(),
            n <= i,
        decreases downed@.len() - i,
    {
        proof {
            assert(downed@.take(i as int + 1) =~= downed@.take(i as int).push(downed@[i as int]));
            downed@.take(i as int).lemma_filter_push(downed@[i as int], |d: bool| !d);
        }
        if !downed[i] {
            n = n + 1;
        }
        i = i + 1;
    }
    proof { assert(downed@.take(downed@.len() as int) =~= downed@); }
    n
}

// ── Combat log ──────────────────────────────────────────────────────────────

/// One log line: when (`av`, the action-value clock), who, what, and any
/// indented detail lines.
pub struct LogEntry<A> {
    pub av: A,
    pub actor: String,
    pub message: String,
    pub sub_entries: Vec<String>,
}

/// The combat log; nothing is recorded unless `with_logs` is set.
pub struct CombatLog<A> {
    pub with_logs: bool,
    pub logs: Vec<LogEntry<A>>,
}

impl<A> CombatLog<A> {
    /// Records a line at clock value `av`.
    pub fn add_log(&mut self, av: A, actor: &str, message: String)
        ensures
            final(self).with_logs == old(self).with_logs,
            !old(self).with_logs ==> final(self).logs@ == old(self).logs@,
            old(self).with_logs ==> final(self).logs@.len() == old(self).logs@.len() + 1,
            old(self).with_logs ==> final(self).logs@.drop_last() == old(self).logs@,
            old(self).with_logs ==> ({
                let e = final(self).logs@.last();
                &&& e.av == av
                &&& e.actor@ == actor@
                &&& e.message == message
                &&& e.sub_entries@.len() == 0
            }),
    {
        if self.with_logs {
            self.logs.push(LogEntry { av, actor: String::from_str(actor), message, sub_entries: Vec::new() });
            proof { assert(self.logs@.drop_last() =~= old(self).logs@); }
        }
    }

    /// Adds a detail line to the last recorded line, if there is one.
    pub fn add_log_sub(&mut self, sub: String)
        ensures
            final(self).with_logs == old(self).with_logs,
            final(self).logs@.len() == old(self).logs@.len(),
            !(old(self).with_logs && old(self).logs@.len() > 0) ==> final(self).logs@ == old(self).logs@,
            old(self).with_logs && old(self).logs@.len() > 0 ==> ({
                let n = old(self).logs@.len() - 1;
                &&& final(self).logs@.take(n) == old(self).logs@.take(n)
                &&& final(self).logs@[n].av == old(self).logs@[n].av
                &&& final(self).logs@[n].actor == old(self).logs@[n].actor
                &&& final(self).logs@[n].message == old(self).logs@[n].message
                &&& final(self).logs@[n].sub_entries@ == old(self).logs@[n].sub_entries@.push(sub)
            }),
    {
        if self.with_logs {
            match self.logs.pop() {
                Some(mut last) => {
                    last.sub_entries.push(sub);
                    self.logs.push(last);
                    proof {
                        let n = old(self).logs@.len() - 1;
                        assert(self.logs@.take(n) =~= old(self).logs@.take(n));
                    }
                },
                None => {},
            }
        }
    }
}

} // verus!
