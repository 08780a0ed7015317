//! Timed status effects (buffs and debuffs) keyed by name.
//!
//! The numeric payload of an effect (`V`) is carried through untouched: the
//! bookkeeping here only reads durations and keys.

use vstd::prelude::*;
use crate::text::str_eq;

verus! {

/// One stat adjustment inside a multi-stat effect.
pub struct StatChange<V> {
    pub stat: String,
    pub value: V,
}

/// A timed effect: `duration` counts the owner's remaining turns.
pub struct StatusEffect<V> {
    pub duration: i32,
    pub value: V,
    pub stat: Option<String>,
    pub effects: Vec<StatChange<V>>,
}

/// The effect with one turn less on its clock.
pub open spec fn decremented<V>(e: StatusEffect<V>) -> StatusEffect<V> {
    StatusEffect { duration: (e.duration - 1) as i32, value: e.value, stat: e.stat, effects: e.effects }
}

/// The effects that remain after one tick: those with more than one turn
/// left, each with one turn less.
pub open spec fn ticked<V>(m: Map<Seq<char>, StatusEffect<V>>) -> Map<Seq<char>, StatusEffect<V>> {
    Map::new(
        |k: Seq<char>| m.contains_key(k) && m[k].duration > 1,
        |k: Seq<char>| decremented(m[k]),
    )
}

/// The effects after applying `e` under `key`: a new key is added, an existing
/// one is replaced only by an effect that lasts strictly longer.
pub open spec fn applied<V>(
    m: Map<Seq<char>, StatusEffect<V>>,
    key: Seq<char>,
    e: StatusEffect<V>,
) -> Map<Seq<char>, StatusEffect<V>> {
    if !m.contains_key(key) || e.duration > m[key].duration {
        m.insert(key, e)
    } else {
        m
    }
}

/// The map that a list of (key, effect) entries describes.
pub open spec fn entries_map<V>(s: Seq<(String, StatusEffect<V>)>) -> Map<Seq<char>, StatusEffect<V>>
    decreases s.len(),
{
    if s.len() == 0 {
        Map::empty()
    } else {
        entries_map(s.drop_last()).insert(s.last().0@, s.last().1)
    }
}

/// No key occurs twice in the list.
pub open spec fn keys_unique<V>(s: Seq<(String, StatusEffect<V>)>) -> bool {
    forall|i: int, j: int| 0 <= i < s.len() && 0 <= j < s.len() && i != j ==> s[i].0@ != s[j].0@
}

proof fn lemma_entries_dom<V>(s: Seq<(String, StatusEffect<V>)>, k: Seq<char>)
    ensures
        entries_map(s).contains_key(k) <==> exists|i: int| 0 <= i < s.len() && s[i].0@ == k,
    decreases s.len(),
{
    if s.len() > 0 {
        lemma_entries_dom(s.drop_last(), k);
        if entries_map(s).contains_key(k) && s.last().0@ != k {
            let i = choose|i: int| 0 <= i < s.drop_last().len() && s.drop_last()[i].0@ == k;
            assert(s[i].0@ == k);
        }
        if exists|i: int| 0 <= i < s.len() && s[i].0@ == k {
            let i = choose|i: int| 0 <= i < s.len() && s[i].0@ == k;
            if i < s.len() - 1 {
                assert(s.drop_last()[i].0@ == k);
            }
        }
    }
}

proof fn lemma_entries_value<V>(s: Seq<(String, StatusEffect<V>)>, i: int)
    requires
        keys_unique(s),
        0 <= i < s.len(),
    ensures
        entries_map(s).contains_key(s[i].0@),
        entries_map(s)[s[i].0@] == s[i].1,
    decreases s.len(),
{
    if i < s.len() - 1 {
        let t = s.drop_last();
        assert(keys_unique(t));
        lemma_entries_value(t, i);
        assert(t[i] == s[i]);
        assert(s.last().0@ != s[i].0@);
    }
}

proof fn lemma_entries_len<V>(s: Seq<(String, StatusEffect<V>)>)
    requires
        keys_unique(s),
    ensures
        entries_map(s).dom().finite(),
        entries_map(s).len() == s.len(),
    decreases s.len(),
{
    if s.len() > 0 {
        let t = s.drop_last();
        assert(keys_unique(t));
        lemma_entries_len(t);
        lemma_entries_dom(t, s.last().0@);
        if entries_map(t).contains_key(s.last().0@) {
            let i = choose|i: int| 0 <= i < t.len() && t[i].0@ == s.last().0@;
            assert(s[i].0@ == s[s.len() - 1].0@);
        }
    }
}

/// A set of named timed effects with at most one effect per name.
pub struct EffectMap<V> {
    entries: Vec<(String, StatusEffect<V>)>,
}

impl<V> EffectMap<V> {
    /// The effects by name.
    pub closed spec fn view(&self) -> Map<Seq<char>, StatusEffect<V>> {
        entries_map(self.entries@)
    }

    /// The internal list holds each name once.
    pub closed spec fn wf(&self) -> bool {
        keys_unique(self.entries@)
    }

    /// An empty set of effects.
    pub fn new() -> (r: Self)
        ensures
            r.wf(),
            r@ == Map::<Seq<char>, StatusEffect<V>>::empty(),
    {
        EffectMap { entries: Vec::new() }
    }

    /// Number of active effects.
    pub fn len(&self) -> (r: usize)
        requires
            self.wf(),
        ensures
            self@.dom().finite(),
            r == self@.len(),
    {
        proof { lemma_entries_len(self.entries@); }
        self.entries.len()
    }

    fn find(&self, key: &str) -> (r: Option<usize>)
        requires
            self.wf(),
        ensures
            match r {
                Some(j) => j < self.entries@.len() && self.entries@[j as int].0@ == key@,
                None => forall|j: int| 0 <= j < self.entries@.len() ==> self.entries@[j].0@ != key@,
            },
    {
        let mut i: usize = 0;
        while i < self.entries.len()
            invariant
                i <= self.entries@.len(),
                forall|j: int| 0 <= j < i ==> self.entries@[j].0@ != key@,
            decreases self.entries@.len() - i,
        {
            if str_eq(self.entries[i].0.as_str(), key) {
                return Some(i);
            }
            i = i + 1;
        }
        None
    }

    /// Whether an effect named `key` is active.
    pub fn contains_key(&self, key: &str) -> (r: bool)
        requires
            self.wf(),
        ensures
            r == self@.contains_key(key@),
    {
        proof { lemma_entries_dom(self.entries@, key@); }
        match self.find(key) {
            Some(j) => true,
            None => false,
        }
    }

    /// The effect named `key`, if active.
    pub fn get(&self, key: &str) -> (r: Option<&StatusEffect<V>>)
        requires
            self.wf(),
        ensures
            match r {
                Some(e) => self@.contains_key(key@) && *e == self@[key@],
                None => !self@.contains_key(key@),
            },
    {
        proof { lemma_entries_dom(self.entries@, key@); }
        match self.find(key) {
            Some(j) => {
                proof { lemma_entries_value(self.entries@, j as int); }
                Some(&self.entries[j].1)
            },
            None => None,
        }
    }

    /// The entries in their internal order, for callers that sum payloads.
    pub fn entries(&self) -> (r: &Vec<(String, StatusEffect<V>)>)
        requires
            self.wf(),
        ensures
            r@.len() == self@.len(),
            forall|i: int| 0 <= i < r@.len() ==> #[trigger] self@.contains_key(r@[i].0@) && self@[r@[i].0@] == r@[i].1,
            forall|k: Seq<char>| #[trigger] self@.contains_key(k) ==> exists|i: int| 0 <= i < r@.len() && r@[i].0@ == k,
            keys_unique(r@),
    {
        proof {
            lemma_entries_len(self.entries@);
            assert forall|i: int| 0 <= i < self.entries@.len() implies #[trigger] self@.contains_key(self.entries@[i].0@) && self@[self.entries@[i].0@] == self.entries@[i].1 by {
                lemma_entries_value(self.entries@, i);
            }
            assert forall|k: Seq<char>| #[trigger] self@.contains_key(k) implies exists|i: int| 0 <= i < self.entries@.len() && self.entries@[i].0@ == k by {
                lemma_entries_dom(self.entries@, k);
            }
        }
        &self.entries
    }

    /// The name of some active effect (the first one kept), if any.
    pub fn first_key(&self) -> (r: Option<String>)
        requires
            self.wf(),
        ensures
            match r {
                Some(k) => self@.contains_key(k@),
                None => self@.len() == 0,
            },
    {
        proof { lemma_entries_len(self.entries@); }
        if self.entries.len() == 0 {
            None
        } else {
            proof { lemma_entries_value(self.entries@, 0); }
            Some(self.entries[0].0.clone())
        }
    }

    /// Applies `effect` under `key`: a new name is added; an existing one is
    /// replaced only when the new effect lasts strictly longer.
    pub fn apply(&mut self, key: &str, effect: StatusEffect<V>)
        requires
            old(self).wf(),
        ensures
            final(self).wf(),
            final(self)@ == applied(old(self)@, key@, effect),
    {
        let ghost s = self.entries@;
        let ghost e = effect;
        proof { lemma_entries_dom(s, key@); }
        match self.find(key) {
            None => {
                self.entries.push((String::from_str(key), effect));
                proof {
                    assert(self.entries@.drop_last() =~= s);
                    assert(keys_unique(self.entries@));
                }
            },
            Some(j) => {
                proof { lemma_entries_value(s, j as int); }
                if effect.duration > self.entries[j].1.duration {
                    self.entries.set(j, (String::from_str(key), effect));
                    proof {
                        let t = self.entries@;
                        assert(keys_unique(t));
                        assert(t[j as int].0@ == key@);
                        assert forall|k: Seq<char>| #[trigger] entries_map(t).contains_key(k) == entries_map(s).insert(key@, e).contains_key(k) by {
                            lemma_entries_dom(t, k);
                            lemma_entries_dom(s, k);
                            if k == key@ {
                                assert(entries_map(t).contains_key(k));
                            } else {
                                if entries_map(s).contains_key(k) {
                                    let i = choose|i: int| 0 <= i < s.len() && s[i].0@ == k;
                                    assert(t[i] == s[i]);
                                }
                                if entries_map(t).contains_key(k) {
                                    let i = choose|i: int| 0 <= i < t.len() && t[i].0@ == k;
                                    assert(t[i] == s[i]);
                                }
                            }
                        }
                        assert forall|k: Seq<char>| #[trigger] entries_map(t).contains_key(k) implies entries_map(t)[k] == entries_map(s).insert(key@, e)[k] by {
                            lemma_entries_dom(t, k);
                            let i = choose|i: int| 0 <= i < t.len() && t[i].0@ == k;
                            lemma_entries_value(t, i);
                            if i != j {
                                assert(t[i] == s[i]);
                                lemma_entries_value(s, i);
                            }
                        }
                        assert(entries_map(t) =~= entries_map(s).insert(key@, e));
                    }
                }
            },
        }
    }

    /// Removes the effect named `key`, if any.
    pub fn remove(&mut self, key: &str)
        requires
            old(self).wf(),
        ensures
            final(self).wf(),
            final(self)@ == old(self)@.remove(key@),
    {
        let ghost s = self.entries@;
        proof { lemma_entries_dom(s, key@); }
        match self.find(key) {
            None => {
                assert(entries_map(s) =~= entries_map(s).remove(key@));
            },
            Some(j) => {
                self.entries.remove(j);
                proof {
                    let t = self.entries@;
                    assert(t =~= s.take(j as int) + s.skip(j as int + 1));
                    assert forall|a: int| 0 <= a < t.len() implies #[trigger] t[a] == (if a < j { s[a] } else { s[a + 1] }) by {}
                    assert(keys_unique(t));
                    assert forall|k: Seq<char>| #[trigger] entries_map(t).contains_key(k) == entries_map(s).remove(key@).contains_key(k) by {
                        lemma_entries_dom(t, k);
                        lemma_entries_dom(s, k);
                        if k != key@ && entries_map(s).contains_key(k) {
                            let i = choose|i: int| 0 <= i < s.len() && s[i].0@ == k;
                            assert(i != j);
                            if i < j { assert(t[i] == s[i]); } else { assert(t[i - 1] == s[i]); }
                        }
                    }
                    assert forall|k: Seq<char>| #[trigger] entries_map(t).contains_key(k) implies entries_map(t)[k] == entries_map(s).remove(key@)[k] by {
                        lemma_entries_dom(t, k);
                        let i = choose|i: int| 0 <= i < t.len() && t[i].0@ == k;
                        lemma_entries_value(t, i);
                        if i < j { lemma_entries_value(s, i); } else { lemma_entries_value(s, i + 1); }
                    }
                    assert(entries_map(t) =~= entries_map(s).remove(key@));
                }
            },
        }
    }

    /// One turn passes: every effect loses a turn and those that run out are
    /// dropped. Returns how many were dropped.
    pub fn tick(&mut self) -> (removed: usize)
        requires
            old(self).wf(),
            forall|k: Seq<char>| #[trigger] old(self)@.contains_key(k) ==> old(self)@[k].duration > i32::MIN,
        ensures
            final(self).wf(),
            final(self)@ == ticked(old(self)@),
            old(self)@.dom().finite(),
            final(self)@.dom().finite(),
            removed == old(self)@.len() - final(self)@.len(),
    {
        let mut rest: Vec<(String, StatusEffect<V>)> = Vec::new();
        std::mem::swap(&mut rest, &mut self.entries);
        let ghost orig = rest@;
        let ghost m = entries_map(orig);
        proof {
            assert(orig == old(self).entries@);
            assert forall|i: int| 0 <= i < orig.len() implies #[trigger] orig[i].1.duration > i32::MIN by {
                lemma_entries_value(orig, i);
                assert(old(self)@.contains_key(orig[i].0@));
            }
        }
        let n = rest.len();
        assert(orig.len() == n);
        let mut removed: usize = 0;
        let ghost mut consumed: int = 0;
        // `src[j]` is the position in `orig` that the kept entry `j` came from.
        let ghost mut src: Seq<int> = Seq::empty();
        while rest.len() > 0
            invariant
                keys_unique(orig),
                forall|i: int| 0 <= i < orig.len() ==> #[trigger] orig[i].1.duration > i32::MIN,
                0 <= consumed <= orig.len(),
                orig.len() <= usize::MAX,
                rest@ == orig.skip(consumed),
                src.len() == self.entries@.len(),
                removed + self.entries@.len() == consumed,
                forall|j: int| 0 <= j < src.len() ==> 0 <= #[trigger] src[j] < consumed,
                forall|j: int| #![trigger src[j]] 0 <= j < src.len() ==> {
                    &&& self.entries@[j].0@ == orig[src[j]].0@
                    &&& self.entries@[j].1 == decremented(orig[src[j]].1)
                    &&& orig[src[j]].1.duration > 1
                },
                forall|i: int| 0 <= i < consumed && #[trigger] orig[i].1.duration > 1 ==> exists|j: int| 0 <= j < src.len() && src[j] == i,
                keys_unique(self.entries@),
            decreases rest@.len(),
        {
            proof {
                assert(rest@[0] == orig[consumed]);
            }
            let (k, e) = rest.remove(0);
            let d: i32 = e.duration - 1;
            if d > 0 {
                let ghost before = self.entries@;
                let ghost old_src = src;
                self.entries.push((k, StatusEffect { duration: d, value: e.value, stat: e.stat, effects: e.effects }));
                proof {
                    let c = consumed;
                    src = src.push(c);
                    assert forall|a: int, b: int| 0 <= a < self.entries@.len() && 0 <= b < self.entries@.len() && a != b implies self.entries@[a].0@ != self.entries@[b].0@ by {
                        if a < before.len() && b < before.len() {
                            assert(before[a] == self.entries@[a]);
                            assert(before[b] == self.entries@[b]);
                        } else if a < before.len() {
                            assert(src[a] < c);
                            assert(orig[src[a]].0@ != orig[c].0@);
                        } else {
                            assert(src[b] < c);
                            assert(orig[src[b]].0@ != orig[c].0@);
                        }
                    }
                    assert forall|i: int| 0 <= i < c + 1 && #[trigger] orig[i].1.duration > 1 implies exists|j: int| 0 <= j < src.len() && src[j] == i by {
                        if i == c {
                            assert(src[src.len() - 1] == c);
                        } else {
                            let j = choose|j: int| 0 <= j < old_src.len() && old_src[j] == i;
                            assert(src[j] == i);
                        }
                    }
                }
            } else {
                removed = removed + 1;
                proof {
                    let c = consumed;
                    assert forall|i: int| 0 <= i < c + 1 && #[trigger] orig[i].1.duration > 1 implies exists|j: int| 0 <= j < src.len() && src[j] == i by {
                        if i == c {
                            assert(false);
                        }
                    }
                }
            }
            proof {
                consumed = consumed + 1;
                assert(rest@ =~= orig.skip(consumed));
            }
        }
        proof {
            let t = self.entries@;
            lemma_entries_len(orig);
            lemma_entries_len(t);
            assert forall|k: Seq<char>| #[trigger] entries_map(t).contains_key(k) == ticked(m).contains_key(k) by {
                lemma_entries_dom(t, k);
                lemma_entries_dom(orig, k);
                if entries_map(t).contains_key(k) {
                    let j = choose|j: int| 0 <= j < t.len() && t[j].0@ == k;
                    lemma_entries_value(orig, src[j]);
                }
                if ticked(m).contains_key(k) {
                    let i = choose|i: int| 0 <= i < orig.len() && orig[i].0@ == k;
                    lemma_entries_value(orig, i);
                    let j = choose|j: int| 0 <= j < src.len() && src[j] == i;
                    assert(t[j].0@ == k);
                }
            }
            assert forall|k: Seq<char>| #[trigger] entries_map(t).contains_key(k) implies entries_map(t)[k] == ticked(m)[k] by {
                lemma_entries_dom(t, k);
                let j = choose|j: int| 0 <= j < t.len() && t[j].0@ == k;
                lemma_entries_value(t, j);
                lemma_entries_value(orig, src[j]);
            }
            assert(entries_map(t) =~= ticked(m));
        }
        removed
    }
}


/// The effects on a team member.
pub struct MemberEffects<V> {
    pub active_buffs: EffectMap<V>,
    pub active_debuffs: EffectMap<V>,
}

/// The effects on an enemy, with the count of debuffs that kits read.
pub struct EnemyEffects<V> {
    pub active_buffs: EffectMap<V>,
    pub active_debuffs: EffectMap<V>,
    pub debuff_count: u32,
}

/// No effect in `m` is at the lowest duration, so one more tick cannot overflow.
pub open spec fn tickable<V>(m: Map<Seq<char>, StatusEffect<V>>) -> bool {
    forall|k: Seq<char>| #[trigger] m.contains_key(k) ==> m[k].duration > i32::MIN
}

/// Tick all active buffs on a team member: decrement durations, remove expired.
pub fn tick_buffs<V>(member: &mut MemberEffects<V>)
    requires
        old(member).active_buffs.wf(),
        tickable(old(member).active_buffs@),
    ensures
        final(member).active_buffs.wf(),
        final(member).active_buffs@ == ticked(old(member).active_buffs@),
        final(member).active_debuffs == old(member).active_debuffs,
{
    member.active_buffs.tick();
}

/// Tick all active debuffs on a team member.
pub fn tick_debuffs<V>(member: &mut MemberEffects<V>)
    requires
        old(member).active_debuffs.wf(),
        tickable(old(member).active_debuffs@),
    ensures
        final(member).active_debuffs.wf(),
        final(member).active_debuffs@ == ticked(old(member).active_debuffs@),
        final(member).active_buffs == old(member).active_buffs,
{
    member.active_debuffs.tick();
}

/// Tick all active debuffs on an enemy; the debuff count drops by the number
/// that expired, never below zero.
pub fn tick_enemy_debuffs<V>(enemy: &mut EnemyEffects<V>)
    requires
        old(enemy).active_debuffs.wf(),
        tickable(old(enemy).active_debuffs@),
    ensures
        final(enemy).active_debuffs.wf(),
        final(enemy).active_debuffs@ == ticked(old(enemy).active_debuffs@),
        final(enemy).active_buffs == old(enemy).active_buffs,
        ({
            let removed = (old(enemy).active_debuffs@.len() - final(enemy).active_debuffs@.len()) as usize;
            final(enemy).debuff_count == if old(enemy).debuff_count >= removed as u32 {
                (old(enemy).debuff_count - removed as u32) as u32
            } else {
                0u32
            }
        }),
        old(enemy).debuff_count == old(enemy).active_debuffs@.len() ==> final(enemy).debuff_count
            == final(enemy).active_debuffs@.len(),
{
    let removed = enemy.active_debuffs.tick();
    let r = removed as u32;
    enemy.debuff_count = if enemy.debuff_count >= r {
        enemy.debuff_count - r
    } else {
        0
    };
}

/// Apply or overwrite a status effect by key (longer duration wins).
pub fn apply_status_effect<V>(target: &mut EffectMap<V>, key: &str, effect: StatusEffect<V>)
    requires
        old(target).wf(),
    ensures
        final(target).wf(),
        final(target)@ == applied(old(target)@, key@, effect),
{
    target.apply(key, effect);
}

/// Apply a buff to an enemy (e.g. vulnerability stacks).
pub fn apply_enemy_buff<V>(enemy: &mut EnemyEffects<V>, key: &str, effect: StatusEffect<V>)
    requires
        old(enemy).active_buffs.wf(),
    ensures
        final(enemy).active_buffs.wf(),
        final(enemy).active_buffs@ == applied(old(enemy).active_buffs@, key@, effect),
        final(enemy).active_debuffs == old(enemy).active_debuffs,
        final(enemy).debuff_count == old(enemy).debuff_count,
{
    enemy.active_buffs.apply(key, effect);
}

/// Apply a debuff to an enemy, counting it when its name is new.
pub fn apply_enemy_debuff<V>(enemy: &mut EnemyEffects<V>, key: &str, effect: StatusEffect<V>)
    requires
        old(enemy).active_debuffs.wf(),
        !old(enemy).active_debuffs@.contains_key(key@) ==> old(enemy).debuff_count < u32::MAX,
    ensures
        final(enemy).active_debuffs.wf(),
        final(enemy).active_debuffs@ == applied(old(enemy).active_debuffs@, key@, effect),
        final(enemy).active_buffs == old(enemy).active_buffs,
        final(enemy).debuff_count == old(enemy).debuff_count + if old(enemy).active_debuffs@.contains_key(key@) { 0int } else { 1int },
        old(enemy).debuff_count == old(enemy).active_debuffs@.len() ==> final(enemy).debuff_count
            == final(enemy).active_debuffs@.len(),
{
    proof { lemma_entries_len(enemy.active_debuffs.entries@); }
    let is_new = !enemy.active_debuffs.contains_key(key);
    enemy.active_debuffs.apply(key, effect);
    if is_new {
        enemy.debuff_count = enemy.debuff_count + 1;
    }
}

/// Apply a debuff only when it lands (the landing roll is decided by the
/// caller). Returns whether it was applied.
pub fn try_apply_enemy_debuff<V>(
    lands: bool,
    enemy: &mut EnemyEffects<V>,
    key: &str,
    effect: StatusEffect<V>,
) -> (applied_it: bool)
    requires
        old(enemy).active_debuffs.wf(),
        lands && !old(enemy).active_debuffs@.contains_key(key@) ==> old(enemy).debuff_count < u32::MAX,
    ensures
        applied_it == lands,
        final(enemy).active_debuffs.wf(),
        final(enemy).active_buffs == old(enemy).active_buffs,
        !lands ==> final(enemy).active_debuffs == old(enemy).active_debuffs && final(enemy).debuff_count
            == old(enemy).debuff_count,
        lands ==> final(enemy).active_debuffs@ == applied(old(enemy).active_debuffs@, key@, effect),
        lands ==> final(enemy).debuff_count == old(enemy).debuff_count + if old(enemy).active_debuffs@.contains_key(key@) { 0int } else { 1int },
        old(enemy).debuff_count == old(enemy).active_debuffs@.len() ==> final(enemy).debuff_count
            == final(enemy).active_debuffs@.len(),
{
    if !lands {
        return false;
    }
    apply_enemy_debuff(enemy, key, effect);
    true
}

/// Apply a buff to a team member.
pub fn apply_member_buff<V>(member: &mut MemberEffects<V>, key: &str, effect: StatusEffect<V>)
    requires
        old(member).active_buffs.wf(),
    ensures
        final(member).active_buffs.wf(),
        final(member).active_buffs@ == applied(old(member).active_buffs@, key@, effect),
        final(member).active_debuffs == old(member).active_debuffs,
{
    member.active_buffs.apply(key, effect);
}

/// The effects after `n` ticks.
pub open spec fn ticked_n<V>(m: Map<Seq<char>, StatusEffect<V>>, n: nat) -> Map<Seq<char>, StatusEffect<V>>
    decreases n,
{
    if n == 0 {
        m
    } else {
        ticked(ticked_n(m, (n - 1) as nat))
    }
}

/// An effect with duration `d >= 1` stays active for exactly `d - 1` further ticks:
/// after `n` ticks it is present exactly when `d > n`, with `d - n` turns left
/// and its payload unchanged.
pub proof fn effect_lifetime<V>(m: Map<Seq<char>, StatusEffect<V>>, k: Seq<char>, n: nat)
    requires
        m.contains_key(k),
        m[k].duration >= 1,
    ensures
        ticked_n(m, n).contains_key(k) <==> m[k].duration > n,
        ticked_n(m, n).contains_key(k) ==> {
            &&& ticked_n(m, n)[k].duration == m[k].duration - n
            &&& ticked_n(m, n)[k].value == m[k].value
            &&& ticked_n(m, n)[k].stat == m[k].stat
            &&& ticked_n(m, n)[k].effects == m[k].effects
        },
    decreases n,
{
    if n > 0 {
        effect_lifetime(m, k, (n - 1) as nat);
    }
}

/// Applying the same effect twice under one name is the same as applying it once.
pub proof fn apply_idempotent<V>(m: Map<Seq<char>, StatusEffect<V>>, k: Seq<char>, e: StatusEffect<V>)
    ensures
        applied(applied(m, k, e), k, e) == applied(m, k, e),
{
}

/// Whatever the order of applications, the effect left under a name is the
/// one with the longest duration (the earliest such on ties).
pub proof fn apply_longest_wins<V>(
    m: Map<Seq<char>, StatusEffect<V>>,
    k: Seq<char>,
    e1: StatusEffect<V>,
    e2: StatusEffect<V>,
)
    ensures
        applied(applied(m, k, e1), k, e2).contains_key(k),
        applied(applied(m, k, e1), k, e2)[k].duration >= e1.duration,
        applied(applied(m, k, e1), k, e2)[k].duration >= e2.duration,
        m.contains_key(k) ==> applied(applied(m, k, e1), k, e2)[k].duration >= m[k].duration,
        applied(applied(m, k, e1), k, e2)[k] == e1 || applied(applied(m, k, e1), k, e2)[k] == e2 || (
        m.contains_key(k) && applied(applied(m, k, e1), k, e2)[k] == m[k]),
        forall|j: Seq<char>| j != k ==> #[trigger] applied(applied(m, k, e1), k, e2).contains_key(j)
            == m.contains_key(j),
{
    assert forall|j: Seq<char>| j != k implies #[trigger] applied(applied(m, k, e1), k, e2).contains_key(j)
        == m.contains_key(j) by {}
}

} // verus!
