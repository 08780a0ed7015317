//! An enemy's list of weakness elements, kept free of repeats.

use vstd::prelude::*;
use crate::text::str_eq;

verus! {

/// The elements in their canonical order.
pub open spec fn element_order() -> Seq<Seq<char>> {
    seq!["Physical"@, "Fire"@, "Ice"@, "Lightning"@, "Wind"@, "Quantum"@, "Imaginary"@]
}

/// The element at position `i` of the canonical order, if any.
pub fn element_at(i: usize) -> (r: Option<&'static str>)
    ensures
        i < 7 ==> (r matches Some(e) && e@ == element_order()[i as int]),
        i >= 7 ==> r is None,
        i == 0 ==> (r matches Some(e) && e@ == "Physical"@),
        i == 1 ==> (r matches Some(e) && e@ == "Fire"@),
        i == 2 ==> (r matches Some(e) && e@ == "Ice"@),
        i == 3 ==> (r matches Some(e) && e@ == "Lightning"@),
        i == 4 ==> (r matches Some(e) && e@ == "Wind"@),
        i == 5 ==> (r matches Some(e) && e@ == "Quantum"@),
        i == 6 ==> (r matches Some(e) && e@ == "Imaginary"@),
{
    match i {
        0 => Some("Physical"),
        1 => Some("Fire"),
        2 => Some("Ice"),
        3 => Some("Lightning"),
        4 => Some("Wind"),
        5 => Some("Quantum"),
        6 => Some("Imaginary"),
        _ => None,
    }
}

/// The canonical order is Physical, Fire, Ice, Lightning, Wind, Quantum,
/// Imaginary, position by position.
pub proof fn element_order_is_canonical()
    ensures
        element_order().len() == 7,
        element_order()[0] == "Physical"@,
        element_order()[1] == "Fire"@,
        element_order()[2] == "Ice"@,
        element_order()[3] == "Lightning"@,
        element_order()[4] == "Wind"@,
        element_order()[5] == "Quantum"@,
        element_order()[6] == "Imaginary"@,
{
}

/// The position of `element` in the canonical order, or 99 when it is none
/// of them.
pub fn element_index(element: &str) -> (r: usize)
    ensures
        r < 7 ==> element_order()[r as int] == element@,
        r < 7 ==> forall|j: int| 0 <= j < r ==> element_order()[j] != element@,
        r >= 7 ==> r == 99 && !element_order().contains(element@),
{
    let mut i: usize = 0;
    while i < 7
        invariant
            i <= 7,
            forall|j: int| 0 <= j < i ==> element_order()[j] != element@,
        decreases 7 - i,
    {
        let e = element_at(i);
        match e {
            Some(name) => {
                if str_eq(name, element) {
                    return i;
                }
            },
            None => {},
        }
        i = i + 1;
    }
    proof {
        assert forall|j: int| 0 <= j < element_order().len() implies element_order()[j] != element@ by {}
    }
    99
}

/// The weakness names of a list.
pub open spec fn names(ws: Seq<String>) -> Seq<Seq<char>> {
    ws.map_values(|w: String| w@)
}

/// `ws` with `e` added at the end unless already present.
pub open spec fn with_weakness(ws: Seq<Seq<char>>, e: Seq<char>) -> Seq<Seq<char>> {
    if ws.contains(e) { ws } else { ws.push(e) }
}

/// Adds `element` as a weakness unless the enemy already has it.
pub fn add_weakness(weaknesses: &mut Vec<String>, element: &str)
    ensures
        names(final(weaknesses)@) == with_weakness(names(old(weaknesses)@), element@),
{
    let mut i: usize = 0;
    while i < weaknesses.len()
        invariant
            i <= weaknesses@.len(),
            forall|j: int| 0 <= j < i ==> weaknesses@[j]@ != element@,
        decreases weaknesses@.len() - i,
    {
        if str_eq(weaknesses[i].as_str(), element) {
            proof { assert(names(weaknesses@)[i as int] == element@); }
            return;
        }
        i = i + 1;
    }
    let ghost before = weaknesses@;
    weaknesses.push(String::from_str(element));
    proof {
        assert(!names(before).contains(element@)) by {
            if names(before).contains(element@) {
                let j = choose|j: int| 0 <= j < names(before).len() && names(before)[j] == element@;
                assert(before[j]@ == element@);
            }
        }
        assert(names(weaknesses@) =~= names(before).push(element@));
    }
}

/// Removes every occurrence of `element` from the weaknesses.
pub fn remove_weakness(weaknesses: &mut Vec<String>, element: &str)
    ensures
        names(final(weaknesses)@) == names(old(weaknesses)@).filter(|w: Seq<char>| w != element@),
{
    let ghost orig = names(weaknesses@);
    let mut kept: Vec<String> = Vec::new();
    let mut i: usize = 0;
    while i < weaknesses.len()
        invariant
            i <= weaknesses@.len(),
            orig == names(weaknesses@),
            names(kept@) == orig.take(i as int).filter(|w: Seq<char>| w != element@),
        decreases weaknesses@.len() - i,
    {
        proof {
            assert(orig.take(i as int + 1) =~= orig.take(i as int).push(orig[i as int]));
            orig.take(i as int).lemma_filter_push(orig[i as int], |w: Seq<char>| w != element@);
        }
        if !str_eq(weaknesses[i].as_str(), element) {
            let ghost before = kept@;
            kept.push(weaknesses[i].clone());
            proof { assert(names(kept@) =~= names(before).push(orig[i as int])); }
        }
        i = i + 1;
    }
    proof { assert(orig.take(orig.len() as int) =~= orig); }
    *weaknesses = kept;
}

/// Adding a weakness keeps the list free of repeats.
pub proof fn add_keeps_unique(ws: Seq<Seq<char>>, e: Seq<char>)
    requires
        ws.no_duplicates(),
    ensures
        with_weakness(ws, e).no_duplicates(),
        with_weakness(ws, e).contains(e),
{
    if !ws.contains(e) {
        let t = ws.push(e);
        assert(t[ws.len() as int] == e);
        assert forall|i: int, j: int| 0 <= i < t.len() && 0 <= j < t.len() && i != j implies t[i] != t[j] by {
            if i < ws.len() && j < ws.len() {
            } else if i < ws.len() {
                assert(t[i] == ws[i]);
            } else {
                assert(t[j] == ws[j]);
            }
        }
    }
}

/// Removing a weakness keeps the list free of repeats and drops it entirely.
pub proof fn remove_keeps_unique(ws: Seq<Seq<char>>, e: Seq<char>)
    requires
        ws.no_duplicates(),
    ensures
        ws.filter(|w: Seq<char>| w != e).no_duplicates(),
        !ws.filter(|w: Seq<char>| w != e).contains(e),
{
    let p = |w: Seq<char>| w != e;
    broadcast use vstd::seq_lib::group_filter_ensures;
    lemma_filter_unique(ws, p);
    if ws.filter(p).contains(e) {
        let k = choose|k: int| 0 <= k < ws.filter(p).len() && ws.filter(p)[k] == e;
        assert(p(ws.filter(p)[k]));
    }
}

proof fn lemma_filter_unique(ws: Seq<Seq<char>>, p: spec_fn(Seq<char>) -> bool)
    requires
        ws.no_duplicates(),
    ensures
        ws.filter(p).no_duplicates(),
    decreases ws.len(),
{
    if ws.len() > 0 {
        let rest = ws.drop_last();
        let x = ws.last();
        assert(rest.push(x) =~= ws);
        assert(rest.no_duplicates()) by {
            assert forall|i: int, j: int| 0 <= i < rest.len() && 0 <= j < rest.len() && i != j implies rest[i] != rest[j] by {
                assert(rest[i] == ws[i] && rest[j] == ws[j]);
            }
        }
        lemma_filter_unique(rest, p);
        rest.lemma_filter_push(x, p);
        if p(x) {
            assert(!rest.filter(p).contains(x)) by {
                if rest.filter(p).contains(x) {
                    rest.lemma_filter_contains_rev(p, x);
                    let k = choose|k: int| 0 <= k < rest.len() && rest[k] == x;
                    assert(ws[k] == ws[ws.len() - 1]);
                }
            }
            let f = rest.filter(p);
            let t = f.push(x);
            assert forall|i: int, j: int| 0 <= i < t.len() && 0 <= j < t.len() && i != j implies t[i] != t[j] by {
                if i < f.len() && j < f.len() {
                    assert(t[i] == f[i] && t[j] == f[j]);
                } else if i < f.len() {
                    assert(t[i] == f[i]);
                    assert(f.contains(f[i]));
                } else {
                    assert(t[j] == f[j]);
                    assert(f.contains(f[j]));
                }
            }
        }
    }
}

} // verus!
