//! Small verified text helpers: string equality and decimal rendering.

use vstd::prelude::*;

verus! {

/// The character for a decimal digit `d` (0..=9).
pub open spec fn digit_char(d: int) -> char {
    seq!['0', '1', '2', '3', '4', '5', '6', '7', '8', '9'][d]
}

/// Whether `c` is one of the ten ASCII decimal digits.
pub open spec fn is_digit(c: char) -> bool {
    '0' <= c && c <= '9'
}

/// Decimal rendering of a natural number, most significant digit first,
/// without leading zeros (as `format!("{}", n)` prints an unsigned integer).
pub open spec fn decimal(n: nat) -> Seq<char>
    decreases n,
{
    if n < 10 {
        seq![digit_char(n as int)]
    } else {
        decimal(n / 10).push(digit_char((n % 10) as int))
    }
}

/// Every character of a decimal rendering is a digit, and it is never empty.
pub proof fn lemma_decimal_digits(n: nat)
    ensures
        decimal(n).len() >= 1,
        n >= 10 ==> decimal(n).len() >= 2,
        forall|i: int| 0 <= i < decimal(n).len() ==> is_digit(#[trigger] decimal(n)[i]),
    decreases n,
{
    if n >= 10 {
        lemma_decimal_digits(n / 10);
        assert forall|i: int| 0 <= i < decimal(n).len() implies is_digit(#[trigger] decimal(n)[i]) by {
            if i < decimal(n / 10).len() {
                assert(decimal(n)[i] == decimal(n / 10)[i]);
            }
        }
    }
}

/// Distinct numbers have distinct decimal renderings.
pub proof fn lemma_decimal_injective(a: nat, b: nat)
    requires
        decimal(a) == decimal(b),
    ensures
        a == b,
    decreases a,
{
    lemma_decimal_digits(a);
    lemma_decimal_digits(b);
    if a < 10 && b < 10 {
        assert(decimal(a) == seq![digit_char(a as int)]);
        assert(decimal(b) == seq![digit_char(b as int)]);
        assert(decimal(a)[0] == decimal(b)[0]);
        assert(seq![digit_char(a as int)][0] == digit_char(a as int));
        assert(seq![digit_char(b as int)][0] == digit_char(b as int));
        assert(digit_char(a as int) == digit_char(b as int));
        assert(a == b) by {
            let ds = seq!['0', '1', '2', '3', '4', '5', '6', '7', '8', '9'];
            assert(ds[a as int] == ds[b as int]);
        }
    } else if a >= 10 && b >= 10 {
        let da = decimal(a);
        let db = decimal(b);
        assert(da.last() == db.last());
        assert(da.drop_last() =~= decimal(a / 10));
        assert(db.drop_last() =~= decimal(b / 10));
        lemma_decimal_injective(a / 10, b / 10);
        assert(digit_char((a % 10) as int) == digit_char((b % 10) as int));
        assert(a % 10 == b % 10) by {
            let ds = seq!['0', '1', '2', '3', '4', '5', '6', '7', '8', '9'];
            assert(ds[(a % 10) as int] == ds[(b % 10) as int]);
        }
    } else {
        assert(decimal(a).len() != decimal(b).len());
    }
}

/// `true` exactly when the two strings hold the same characters.
pub fn str_eq(a: &str, b: &str) -> (r: bool)
    ensures
        r == (a@ == b@),
{
    let x: String = a.to_owned();
    let y: String = b.to_owned();
    x == y
}

fn digit_str(d: usize) -> (r: &'static str)
    requires
        d < 10,
    ensures
        r@ == seq![digit_char(d as int)],
{
    proof {
        reveal_strlit("0");
        reveal_strlit("1");
        reveal_strlit("2");
        reveal_strlit("3");
        reveal_strlit("4");
        reveal_strlit("5");
        reveal_strlit("6");
        reveal_strlit("7");
        reveal_strlit("8");
        reveal_strlit("9");
    }
    match d {
        0 => "0",
        1 => "1",
        2 => "2",
        3 => "3",
        4 => "4",
        5 => "5",
        6 => "6",
        7 => "7",
        8 => "8",
        _ => "9",
    }
}

/// Renders `n` in decimal.
pub fn decimal_string(n: usize) -> (r: String)
    ensures
        r@ == decimal(n as nat),
    decreases n,
{
    if n < 10 {
        String::from_str(digit_str(n))
    } else {
        let mut s = decimal_string(n / 10);
        s.append(digit_str(n % 10));
        s
    }
}

/// `prefix` followed by `suffix`.
pub fn join(prefix: &str, suffix: &str) -> (r: String)
    ensures
        r@ == prefix@ + suffix@,
{
    let mut s = String::from_str(prefix);
    s.append(suffix);
    s
}

// ── Keys made of a fixed prefix and a decimal index ────────────────────────

/// Two key prefixes are apart when no numbered key of one can equal a
/// numbered key of the other: either they differ at a position both have, or
/// the longer one continues the shorter one with a character that is not a digit.
pub open spec fn prefixes_apart(p: Seq<char>, q: Seq<char>) -> bool {
    ||| exists|i: int| 0 <= i < p.len() && i < q.len() && p[i] != q[i]
    ||| (p.len() < q.len() && q.subrange(0, p.len() as int) == p && !is_digit(q[p.len() as int]))
    ||| (q.len() < p.len() && p.subrange(0, q.len() as int) == q && !is_digit(p[q.len() as int]))
}

/// Within one family, the key determines the number it was built from.
pub proof fn lemma_numbered_key_injective(p: Seq<char>, a: nat, b: nat)
    requires
        p + decimal(a) == p + decimal(b),
    ensures
        a == b,
{
    assert(decimal(a) =~= (p + decimal(a)).subrange(p.len() as int, (p + decimal(a)).len() as int));
    assert(decimal(b) =~= (p + decimal(b)).subrange(p.len() as int, (p + decimal(b)).len() as int));
    lemma_decimal_injective(a, b);
}

/// Keys of two families with prefixes that are apart never coincide.
pub proof fn lemma_numbered_keys_apart(p: Seq<char>, q: Seq<char>, a: nat, b: nat)
    requires
        prefixes_apart(p, q),
    ensures
        p + decimal(a) != q + decimal(b),
{
    lemma_decimal_digits(a);
    lemma_decimal_digits(b);
    let x = p + decimal(a);
    let y = q + decimal(b);
    if exists|i: int| 0 <= i < p.len() && i < q.len() && p[i] != q[i] {
        let i = choose|i: int| 0 <= i < p.len() && i < q.len() && p[i] != q[i];
        assert(x[i] == p[i]);
        assert(y[i] == q[i]);
    } else if p.len() < q.len() && q.subrange(0, p.len() as int) == p && !is_digit(q[p.len() as int]) {
        let i = p.len() as int;
        assert(x[i] == decimal(a)[0]);
        assert(y[i] == q[i]);
    } else {
        let i = q.len() as int;
        assert(y[i] == decimal(b)[0]);
        assert(x[i] == p[i]);
    }
}

} // verus!
