//! Team-search combinatorics: counting and enumerating candidate teams.

use vstd::prelude::*;
use itertools::Itertools;
use crate::text::str_eq;

verus! {

/// Binomial coefficient `C(n, k)` by Pascal's rule.
pub open spec fn binom(n: nat, k: nat) -> nat
    decreases n,
{
    if k == 0 {
        1
    } else if n == 0 {
        0
    } else {
        binom((n - 1) as nat, (k - 1) as nat) + binom((n - 1) as nat, k)
    }
}

/// `C(n, k)` is zero when `k > n`.
pub proof fn lemma_binom_zero(n: nat, k: nat)
    requires
        k > n,
    ensures
        binom(n, k) == 0,
    decreases n,
{
    if n > 0 {
        lemma_binom_zero((n - 1) as nat, (k - 1) as nat);
        lemma_binom_zero((n - 1) as nat, k);
    }
}

/// `(i + 1) * C(n, i + 1) == (n - i) * C(n, i)` for `i < n`.
pub proof fn lemma_binom_absorb(n: nat, i: nat)
    requires
        i < n,
    ensures
        (i + 1) * binom(n, i + 1) == (n - i) * binom(n, i),
    decreases n,
{
    let m = (n - 1) as nat;
    // C(n, i+1) = C(m, i) + C(m, i+1)
    assert(binom(n, i + 1) == binom(m, i) + binom(m, i + 1));
    // (i+1) * C(m, i+1) == (m - i) * C(m, i)
    if i < m {
        lemma_binom_absorb(m, i);
    } else {
        lemma_binom_zero(m, i + 1);
        assert((i + 1) * binom(m, i + 1) == 0) by (nonlinear_arith)
            requires
                binom(m, i + 1) == 0,
        ;
        assert((m - i) * binom(m, i) == 0) by (nonlinear_arith)
            requires
                m - i == 0,
        ;
    }
    assert((i + 1) * binom(m, i + 1) == (m - i) * binom(m, i));
    assert((i + 1) * binom(n, i + 1) == n * binom(m, i)) by (nonlinear_arith)
        requires
            binom(n, i + 1) == binom(m, i) + binom(m, i + 1),
            (i + 1) * binom(m, i + 1) == (m - i) * binom(m, i),
            m == n - 1,
    ;
    if i == 0 {
        assert(binom(m, 0) == 1);
        assert(binom(n, 0) == 1);
    } else {
        let j = (i - 1) as nat;
        assert(binom(n, i) == binom(m, j) + binom(m, i));
        lemma_binom_absorb(m, j);
        assert(i * binom(m, i) == (m - j) * binom(m, j));
        assert(n * binom(m, i) == (n - i) * binom(n, i)) by (nonlinear_arith)
            requires
                binom(n, i) == binom(m, j) + binom(m, i),
                i * binom(m, i) == (m - j) * binom(m, j),
                m == n - 1,
                j == i - 1,
        ;
    }
}

/// `C(n, k) == C(n, n - k)` for `k <= n`.
pub proof fn binom_symmetric(n: nat, k: nat)
    requires
        k <= n,
    ensures
        binom(n, k) == binom(n, (n - k) as nat),
    decreases n,
{
    if n > 0 && k > 0 && k < n {
        let m = (n - 1) as nat;
        binom_symmetric(m, (k - 1) as nat);
        binom_symmetric(m, k);
        assert(binom(n, (n - k) as nat) == binom(m, (n - k - 1) as nat) + binom(m, (n - k) as nat));
    } else if k == n && n > 0 {
        lemma_binom_full(n);
    } else if k == 0 && n > 0 {
        lemma_binom_full(n);
    }
}

proof fn lemma_binom_full(n: nat)
    ensures
        binom(n, n) == 1,
    decreases n,
{
    if n > 0 {
        lemma_binom_full((n - 1) as nat);
        lemma_binom_zero((n - 1) as nat, n);
    }
}

/// The multiplicative evaluation of `C(n, k)` (over `min(k, n - k)` steps)
/// never leaves the machine range.
pub open spec fn n_combinations_fits(n: nat, k: nat) -> bool {
    let kk = if k <= n - k { k } else { (n - k) as nat };
    k > n || forall|i: nat| i < kk ==> #[trigger] binom(n, i) * (n - i) <= usize::MAX
}

/// C(n, k) without floating point.
pub fn n_combinations(n: usize, k: usize) -> (r: usize)
    requires
        n_combinations_fits(n as nat, k as nat),
    ensures
        r == binom(n as nat, k as nat),
{
    if k > n {
        proof { lemma_binom_zero(n as nat, k as nat); }
        return 0;
    }
    let kk = if k <= n - k { k } else { n - k };
    proof { binom_symmetric(n as nat, k as nat); }
    let mut result: usize = 1;
    let mut i: usize = 0;
    while i < kk
        invariant
            kk <= n,
            kk <= k || kk == n - k,
            i <= kk,
            result == binom(n as nat, i as nat),
            forall|j: nat| j < kk ==> #[trigger] binom(n as nat, j) * (n - j) <= usize::MAX,
        decreases kk - i,
    {
        proof {
            lemma_binom_absorb(n as nat, i as nat);
            assert(binom(n as nat, i as nat) * (n - i) <= usize::MAX);
        }
        let p = result * (n - i);
        proof {
            let x = binom(n as nat, (i + 1) as nat);
            assert(p == x * (i + 1)) by (nonlinear_arith)
                requires
                    p == result * (n - i),
                    (i + 1) * x == (n - i) * result,
            ;
            vstd::arithmetic::div_mod::lemma_div_multiples_vanish(x as int, (i + 1) as int);
            assert(p == (i + 1) * x) by (nonlinear_arith)
                requires
                    p == x * (i + 1),
            ;
        }
        result = p / (i + 1);
        i = i + 1;
    }
    result
}

/// Whether `n_combinations(n, k)` can run without leaving the machine range
/// (callers outside the library test this before calling it).
pub fn n_combinations_fits_exec(n: usize, k: usize) -> (r: bool)
    ensures
        r == n_combinations_fits(n as nat, k as nat),
{
    if k > n {
        return true;
    }
    let kk = if k <= n - k { k } else { n - k };
    let mut result: usize = 1;
    let mut i: usize = 0;
    while i < kk
        invariant
            kk <= n,
            k <= n,
            kk == (if k <= n - k { k } else { (n - k) as usize }),
            i <= kk,
            result == binom(n as nat, i as nat),
            forall|j: nat| j < i ==> #[trigger] binom(n as nat, j) * (n - j) <= usize::MAX,
        decreases kk - i,
    {
        proof { lemma_binom_absorb(n as nat, i as nat); }
        match result.checked_mul(n - i) {
            None => {
                proof {
                    assert(result * (n - i) > usize::MAX);
                    let j = i as nat;
                    assert(binom(n as nat, j) * (n - j) > usize::MAX);
                    assert(j < (if k <= n - k { k as nat } else { (n - k) as nat }));
                    assert(!n_combinations_fits(n as nat, k as nat));
                }
                return false;
            },
            Some(p) => {
                proof {
                    let x = binom(n as nat, (i + 1) as nat);
                    assert(p == x * (i + 1)) by (nonlinear_arith)
                        requires
                            p == result * (n - i),
                            (i + 1) * x == (n - i) * result,
                    ;
                    vstd::arithmetic::div_mod::lemma_div_multiples_vanish(x as int, (i + 1) as int);
                    assert(p == (i + 1) * x) by (nonlinear_arith)
                        requires
                            p == x * (i + 1),
                    ;
                }
                result = p / (i + 1);
            },
        }
        i = i + 1;
    }
    true
}

/// All strictly increasing `k`-element index lists drawn from `lo..n`, in
/// lexicographic order.
pub open spec fn lex_combinations(lo: nat, n: nat, k: nat) -> Seq<Seq<usize>>
    decreases n - lo,
{
    if k == 0 {
        seq![Seq::<usize>::empty()]
    } else if lo >= n {
        Seq::empty()
    } else {
        lex_combinations(lo + 1, n, (k - 1) as nat).map_values(|c: Seq<usize>| seq![lo as usize] + c)
            + lex_combinations(lo + 1, n, k)
    }
}

/// `itertools::Itertools::combinations` on `0..n`: every `k`-combination of
/// the indices, each as an increasing list, in lexicographic order.
#[verifier::external_body]
fn index_combinations(n: usize, k: usize) -> (r: Vec<Vec<usize>>)
    ensures
        r@.map_values(|v: Vec<usize>| v@) == lex_combinations(0, n as nat, k as nat),
{
    (0..n).combinations(k).collect()
}

/// The number of `k`-combinations of `lo..n` is `C(n - lo, k)`.
pub proof fn lex_combinations_count(lo: nat, n: nat, k: nat)
    requires
        lo <= n,
    ensures
        lex_combinations(lo, n, k).len() == binom((n - lo) as nat, k),
    decreases n - lo,
{
    if k > 0 && lo < n {
        lex_combinations_count(lo + 1, n, (k - 1) as nat);
        lex_combinations_count(lo + 1, n, k);
    }
}

/// `c` lists `k` indices from `lo..n` in strictly increasing order.
pub open spec fn increasing_team(c: Seq<usize>, lo: nat, n: nat, k: nat) -> bool {
    &&& c.len() == k
    &&& forall|i: int| 0 <= i < c.len() ==> lo <= #[trigger] c[i] < n
    &&& forall|i: int, j: int| 0 <= i < j < c.len() ==> c[i] < c[j]
}

/// Every listed combination is a team of `k` distinct indices from `lo..n`,
/// in increasing order.
pub proof fn lex_combinations_are_teams(lo: nat, n: nat, k: nat, idx: int)
    requires
        0 <= idx < lex_combinations(lo, n, k).len(),
        n <= usize::MAX + 1,
    ensures
        increasing_team(lex_combinations(lo, n, k)[idx], lo, n, k),
    decreases n - lo,
{
    if k > 0 && lo < n {
        let with = lex_combinations(lo + 1, n, (k - 1) as nat);
        let without = lex_combinations(lo + 1, n, k);
        let f = |c: Seq<usize>| seq![lo as usize] + c;
        let mapped = with.map_values(f);
        assert(lex_combinations(lo, n, k) == mapped + without);
        if idx < mapped.len() {
            lex_combinations_are_teams(lo + 1, n, (k - 1) as nat, idx);
            let c = with[idx];
            let d = mapped[idx];
            assert(d == seq![lo as usize] + c);
            assert forall|i: int| 0 <= i < d.len() implies lo <= #[trigger] d[i] < n by {
                if i > 0 {
                    assert(d[i] == c[i - 1]);
                }
            }
            assert forall|i: int, j: int| 0 <= i < j < d.len() implies d[i] < d[j] by {
                assert(d[j] == c[j - 1]);
                if i > 0 {
                    assert(d[i] == c[i - 1]);
                }
            }
        } else {
            lex_combinations_are_teams(lo + 1, n, k, idx - mapped.len());
        }
    }
}

/// Every candidate team of the exhaustive sweep: all `team_size`-subsets of
/// the pool's indices, each in increasing order, in lexicographic order.
pub fn team_candidates(pool_size: usize, team_size: usize) -> (r: Vec<Vec<usize>>)
    ensures
        r@.map_values(|v: Vec<usize>| v@) == lex_combinations(0, pool_size as nat, team_size as nat),
        r@.len() == binom(pool_size as nat, team_size as nat),
{
    let r = index_combinations(pool_size, team_size);
    proof {
        lex_combinations_count(0, pool_size as nat, team_size as nat);
        assert(r@.map_values(|v: Vec<usize>| v@).len() == r@.len());
    }
    r
}


// ── Lightcone assignment ────────────────────────────────────────────────────

/// What the lightcone assignment reads of a pooled lightcone.
pub struct LcCandidate {
    pub path: Option<String>,
    pub level: Option<i32>,
    pub superimposition: Option<i32>,
}

/// A path, with a missing one read as the empty string.
pub open spec fn path_of(p: Option<String>) -> Seq<char> {
    match p {
        Some(s) => s@,
        None => Seq::empty(),
    }
}

/// Preference among compatible lightcones: `level * 10 + superimposition`.
pub open spec fn lc_rank(lc: LcCandidate) -> int {
    let level: int = match lc.level { Some(l) => l as int, None => 0 };
    let si: int = match lc.superimposition { Some(s) => s as int, None => 0 };
    level * 10 + si
}

/// The rank of `lc` is computable in `i32`.
pub open spec fn lc_rank_fits(lc: LcCandidate) -> bool {
    let level: int = match lc.level { Some(l) => l as int, None => 0 };
    &&& i32::MIN <= level * 10 <= i32::MAX
    &&& i32::MIN <= lc_rank(lc) <= i32::MAX
}

/// Lightcone `j` went to one of the first `c` characters.
pub open spec fn lc_taken(r: Seq<Option<usize>>, c: int, j: int) -> bool {
    exists|c2: int| 0 <= c2 < c && r[c2] == Some(j as usize)
}

/// Lightcone `j` is still free when character `c` chooses, and fits its path.
pub open spec fn lc_eligible(
    char_paths: Seq<Option<String>>,
    lcs: Seq<LcCandidate>,
    r: Seq<Option<usize>>,
    c: int,
    j: int,
) -> bool {
    &&& 0 <= j < lcs.len()
    &&& path_of(lcs[j].path) == path_of(char_paths[c])
    &&& !lc_taken(r, c, j)
}

/// `r` is the greedy assignment: in turn, each character takes the
/// highest-ranked free lightcone of its path (the last one among equals),
/// or none when no such lightcone is left.
pub open spec fn greedy_assignment(
    char_paths: Seq<Option<String>>,
    lcs: Seq<LcCandidate>,
    r: Seq<Option<usize>>,
) -> bool {
    &&& r.len() == char_paths.len()
    &&& forall|c: int| 0 <= c < r.len() ==> #[trigger] greedy_choice(char_paths, lcs, r, c)
}

/// Character `c`'s pick in `r` is the greedy one.
pub open spec fn greedy_choice(
    char_paths: Seq<Option<String>>,
    lcs: Seq<LcCandidate>,
    r: Seq<Option<usize>>,
    c: int,
) -> bool {
    match r[c] {
        Some(j) => {
            &&& lc_eligible(char_paths, lcs, r, c, j as int)
            &&& forall|j2: int| lc_eligible(char_paths, lcs, r, c, j2) ==> lc_rank(lcs[j2]) <= lc_rank(lcs[j as int])
            &&& forall|j2: int| j < j2 && lc_eligible(char_paths, lcs, r, c, j2) ==> lc_rank(lcs[j2]) < lc_rank(lcs[j as int])
        },
        None => forall|j2: int| !lc_eligible(char_paths, lcs, r, c, j2),
    }
}

proof fn lemma_choice_extends(
    char_paths: Seq<Option<String>>,
    lcs: Seq<LcCandidate>,
    prev: Seq<Option<usize>>,
    out: Seq<Option<usize>>,
    c2: int,
)
    requires
        0 <= c2 < prev.len(),
        prev.len() < out.len(),
        forall|c3: int| 0 <= c3 < prev.len() ==> out[c3] == prev[c3],
        greedy_choice(char_paths, lcs, prev, c2),
    ensures
        greedy_choice(char_paths, lcs, out, c2),
{
    assert forall|j: int| lc_taken(prev, c2, j) == lc_taken(out, c2, j) by {
        if lc_taken(prev, c2, j) {
            let c3 = choose|c3: int| 0 <= c3 < c2 && prev[c3] == Some(j as usize);
            assert(out[c3] == prev[c3]);
        }
        if lc_taken(out, c2, j) {
            let c3 = choose|c3: int| 0 <= c3 < c2 && out[c3] == Some(j as usize);
            assert(out[c3] == prev[c3]);
        }
    }
    assert forall|j: int| lc_eligible(char_paths, lcs, prev, c2, j) == lc_eligible(char_paths, lcs, out, c2, j) by {
        assert(lc_taken(prev, c2, j) == lc_taken(out, c2, j));
    }
    assert(out[c2] == prev[c2]);
}

fn path_eq(a: &Option<String>, b: &Option<String>) -> (r: bool)
    ensures
        r == (path_of(*a) == path_of(*b)),
{
    let x: &str = match a {
        Some(s) => s.as_str(),
        None => "",
    };
    let y: &str = match b {
        Some(s) => s.as_str(),
        None => "",
    };
    proof {
        reveal_strlit("");
        assert(""@ =~= Seq::<char>::empty());
    }
    str_eq(x, y)
}

fn lc_rank_exec(lc: &LcCandidate) -> (r: i32)
    requires
        lc_rank_fits(*lc),
    ensures
        r == lc_rank(*lc),
{
    let level: i32 = match lc.level { Some(l) => l, None => 0 };
    let si: i32 = match lc.superimposition { Some(s) => s, None => 0 };
    level * 10 + si
}

/// Whether every lightcone's rank is computable in `i32` (callers outside the
/// library test this before assigning lightcones).
pub fn lc_pool_ranks_fit(lc_pool: &Vec<LcCandidate>) -> (r: bool)
    ensures
        r == forall|j: int| 0 <= j < lc_pool@.len() ==> lc_rank_fits(#[trigger] lc_pool@[j]),
{
    let mut i: usize = 0;
    while i < lc_pool.len()
        invariant
            i <= lc_pool@.len(),
            forall|j: int| 0 <= j < i ==> lc_rank_fits(#[trigger] lc_pool@[j]),
        decreases lc_pool@.len() - i,
    {
        let level: i64 = match lc_pool[i].level { Some(l) => l as i64, None => 0 };
        let si: i64 = match lc_pool[i].superimposition { Some(s) => s as i64, None => 0 };
        let scaled = level * 10;
        let rank = scaled + si;
        if scaled < i32::MIN as i64 || scaled > i32::MAX as i64 || rank < i32::MIN as i64 || rank > i32::MAX as i64 {
            proof { assert(!lc_rank_fits(lc_pool@[i as int])); }
            return false;
        }
        i = i + 1;
    }
    true
}

/// For each character in turn, pick the best path-compatible lightcone from
/// `lc_pool` that has not been assigned yet. "Best" = highest
/// `level * 10 + superimposition`. Characters that match no free lightcone get
/// `None`. The result holds indices into `lc_pool`.
pub fn assign_lcs_greedily(char_paths: &Vec<Option<String>>, lc_pool: &Vec<LcCandidate>) -> (r: Vec<Option<usize>>)
    requires
        forall|j: int| 0 <= j < lc_pool@.len() ==> lc_rank_fits(#[trigger] lc_pool@[j]),
    ensures
        greedy_assignment(char_paths@, lc_pool@, r@),
{
    let n = lc_pool.len();
    let mut used: Vec<bool> = vec![false; n];
    let mut out: Vec<Option<usize>> = Vec::new();
    let mut c: usize = 0;
    while c < char_paths.len()
        invariant
            n == lc_pool@.len(),
            used@.len() == n,
            c <= char_paths@.len(),
            out@.len() == c,
            forall|j: int| 0 <= j < lc_pool@.len() ==> lc_rank_fits(#[trigger] lc_pool@[j]),
            forall|j: int| 0 <= j < n ==> (#[trigger] used@[j] <==> lc_taken(out@, c as int, j)),
            forall|c2: int| 0 <= c2 < c ==> #[trigger] greedy_choice(char_paths@, lc_pool@, out@, c2),
        decreases char_paths@.len() - c,
    {
        let mut best: Option<usize> = None;
        let mut best_rank: i32 = 0;
        let mut li: usize = 0;
        while li < n
            invariant
                n == lc_pool@.len(),
                used@.len() == n,
                c < char_paths@.len(),
                li <= n,
                forall|j: int| 0 <= j < lc_pool@.len() ==> lc_rank_fits(#[trigger] lc_pool@[j]),
                forall|j: int| 0 <= j < n ==> (#[trigger] used@[j] <==> lc_taken(out@, c as int, j)),
                match best {
                    Some(b) => {
                        &&& b < li
                        &&& lc_eligible(char_paths@, lc_pool@, out@, c as int, b as int)
                        &&& best_rank == lc_rank(lc_pool@[b as int])
                        &&& forall|j2: int| j2 < li && lc_eligible(char_paths@, lc_pool@, out@, c as int, j2) ==> lc_rank(lc_pool@[j2]) <= best_rank
                        &&& forall|j2: int| b < j2 < li && lc_eligible(char_paths@, lc_pool@, out@, c as int, j2) ==> lc_rank(lc_pool@[j2]) < best_rank
                    },
                    None => forall|j2: int| j2 < li ==> !lc_eligible(char_paths@, lc_pool@, out@, c as int, j2),
                },
            decreases n - li,
        {
            if !used[li] && path_eq(&lc_pool[li].path, &char_paths[c]) {
                let key = lc_rank_exec(&lc_pool[li]);
                let better = match best {
                    None => true,
                    Some(_) => key >= best_rank,
                };
                if better {
                    best = Some(li);
                    best_rank = key;
                }
            }
            li = li + 1;
        }
        let ghost prev = out@;
        match best {
            Some(b) => {
                used.set(b, true);
                out.push(Some(b));
            },
            None => {
                out.push(None);
            },
        }
        proof {
            assert(out@.drop_last() =~= prev);
            assert forall|c2: int, j: int| 0 <= c2 <= c implies (lc_taken(prev, c2, j) == lc_taken(out@, c2, j)) by {
                if lc_taken(prev, c2, j) {
                    let c3 = choose|c3: int| 0 <= c3 < c2 && prev[c3] == Some(j as usize);
                    assert(out@[c3] == prev[c3]);
                }
                if lc_taken(out@, c2, j) {
                    let c3 = choose|c3: int| 0 <= c3 < c2 && out@[c3] == Some(j as usize);
                    assert(out@[c3] == prev[c3]);
                }
            }
            assert forall|c2: int, j: int| 0 <= c2 <= c implies (lc_eligible(char_paths@, lc_pool@, prev, c2, j) == lc_eligible(char_paths@, lc_pool@, out@, c2, j)) by {
                assert(lc_taken(prev, c2, j) == lc_taken(out@, c2, j));
            }
            assert forall|j: int| 0 <= j < n implies (#[trigger] used@[j] <==> lc_taken(out@, c as int + 1, j)) by {
                if lc_taken(out@, c as int + 1, j) {
                    let c3 = choose|c3: int| 0 <= c3 < c + 1 && out@[c3] == Some(j as usize);
                    if c3 < c {
                        assert(lc_taken(out@, c as int, j));
                        assert(lc_taken(prev, c as int, j));
                    }
                }
                if used@[j] {
                    if best == Some(j as usize) {
                        assert(out@[c as int] == Some(j as usize));
                    } else {
                        assert(lc_taken(prev, c as int, j));
                        let c3 = choose|c3: int| 0 <= c3 < c && prev[c3] == Some(j as usize);
                        assert(out@[c3] == prev[c3]);
                    }
                }
            }
            assert forall|c2: int| 0 <= c2 < c + 1 implies #[trigger] greedy_choice(char_paths@, lc_pool@, out@, c2) by {
                if c2 < c {
                    lemma_choice_extends(char_paths@, lc_pool@, prev, out@, c2);
                } else {
                    assert forall|j2: int| lc_eligible(char_paths@, lc_pool@, out@, c2, j2) == lc_eligible(char_paths@, lc_pool@, prev, c2, j2) by {
                        assert(lc_taken(prev, c2, j2) == lc_taken(out@, c2, j2));
                    }
                    assert(out@[c2] == best);
                    match best {
                        Some(b) => {
                            assert(lc_eligible(char_paths@, lc_pool@, prev, c2, b as int));
                            assert(lc_eligible(char_paths@, lc_pool@, out@, c2, b as int));
                            assert forall|j2: int| lc_eligible(char_paths@, lc_pool@, out@, c2, j2) implies lc_rank(lc_pool@[j2]) <= lc_rank(lc_pool@[b as int]) by {
                                assert(lc_eligible(char_paths@, lc_pool@, prev, c2, j2));
                            }
                            assert forall|j2: int| b < j2 && lc_eligible(char_paths@, lc_pool@, out@, c2, j2) implies lc_rank(lc_pool@[j2]) < lc_rank(lc_pool@[b as int]) by {
                                assert(lc_eligible(char_paths@, lc_pool@, prev, c2, j2));
                            }
                        },
                        None => {
                            assert forall|j2: int| !lc_eligible(char_paths@, lc_pool@, out@, c2, j2) by {
                                if lc_eligible(char_paths@, lc_pool@, out@, c2, j2) {
                                    assert(lc_eligible(char_paths@, lc_pool@, prev, c2, j2));
                                }
                            }
                        },
                    }
                }
            }
        }
        c = c + 1;
    }
    out
}

/// A missing level or superimposition reads as zero.
pub open spec fn or_zero(x: Option<i32>) -> int {
    match x {
        Some(v) => v as int,
        None => 0,
    }
}

/// A lightcone's rank is ten times its level plus its superimposition.
pub proof fn lc_rank_is_level_then_superimposition(lc: LcCandidate)
    ensures
        lc_rank(lc) == or_zero(lc.level) * 10 + or_zero(lc.superimposition),
{
}

/// The greedy assignment never passes over a free lightcone of the right path
/// that is better by `level * 10 + superimposition`: what a character gets
/// scores at least as high as every lightcone it could have taken, and a
/// later one of equal score would have been taken instead.
pub proof fn greedy_takes_highest_level_and_superimposition(
    char_paths: Seq<Option<String>>,
    lcs: Seq<LcCandidate>,
    r: Seq<Option<usize>>,
    c: int,
    j2: int,
)
    requires
        greedy_assignment(char_paths, lcs, r),
        0 <= c < r.len(),
        lc_eligible(char_paths, lcs, r, c, j2),
    ensures
        r[c] is Some,
        or_zero(lcs[j2].level) * 10 + or_zero(lcs[j2].superimposition)
            <= or_zero(lcs[r[c]->0 as int].level) * 10 + or_zero(lcs[r[c]->0 as int].superimposition),
        r[c]->0 < j2 ==> or_zero(lcs[j2].level) * 10 + or_zero(lcs[j2].superimposition)
            < or_zero(lcs[r[c]->0 as int].level) * 10 + or_zero(lcs[r[c]->0 as int].superimposition),
{
    assert(greedy_choice(char_paths, lcs, r, c));
    lc_rank_is_level_then_superimposition(lcs[j2]);
    if r[c] is Some {
        lc_rank_is_level_then_superimposition(lcs[r[c]->0 as int]);
    }
}

/// No lightcone is handed to two characters.
pub proof fn greedy_assignment_injective(
    char_paths: Seq<Option<String>>,
    lcs: Seq<LcCandidate>,
    r: Seq<Option<usize>>,
    c1: int,
    c2: int,
)
    requires
        greedy_assignment(char_paths, lcs, r),
        0 <= c1 < c2 < r.len(),
        r[c1] is Some,
    ensures
        r[c2] != r[c1],
{
    let j = r[c1]->0;
    assert(r[c1] == Some(j));
    assert(greedy_choice(char_paths, lcs, r, c2));
    if r[c2] == Some(j) {
        assert(lc_taken(r, c2, j as int));
        assert(lc_eligible(char_paths, lcs, r, c2, j as int));
    }
}

} // verus!
