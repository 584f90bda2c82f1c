//! Deterministic asset identifiers: a fixed collection prefix followed by
//! the decimal value of the global counter at the moment of assignment.
use vstd::prelude::*;

verus! {

/// The decimal digit character for `d` (meaningful for `0 <= d <= 9`).
pub open spec fn spec_digit_char(d: int) -> char {
    if d == 0 {
        '0'
    } else if d == 1 {
        '1'
    } else if d == 2 {
        '2'
    } else if d == 3 {
        '3'
    } else if d == 4 {
        '4'
    } else if d == 5 {
        '5'
    } else if d == 6 {
        '6'
    } else if d == 7 {
        '7'
    } else if d == 8 {
        '8'
    } else {
        '9'
    }
}

/// The decimal representation of `n`, without leading zeros (except for the
/// single digit of zero itself).
pub open spec fn spec_decimal(n: int) -> Seq<char>
    decreases n,
{
    if n < 10 {
        seq![spec_digit_char(n)]
    } else {
        spec_decimal(n / 10) + seq![spec_digit_char(n % 10)]
    }
}

/// The identifier of the asset issued while the global counter stands at `k`.
pub open spec fn spec_token_id(k: int) -> Seq<char> {
    "Hope."@ + spec_decimal(k)
}

/// Distinct digits map to distinct digit characters.
proof fn lemma_digit_char_injective(a: int, b: int)
    requires
        0 <= a <= 9,
        0 <= b <= 9,
        spec_digit_char(a) == spec_digit_char(b),
    ensures
        a == b,
{
}

/// A decimal representation is never empty.
proof fn lemma_decimal_len_ge_1(n: int)
    requires
        n >= 0,
    ensures
        spec_decimal(n).len() >= 1,
    decreases n,
{
    if n >= 10 {
        lemma_decimal_len_ge_1(n / 10);
    }
}

/// Distinct numbers have distinct decimal representations.
proof fn lemma_decimal_injective(a: int, b: int)
    requires
        a >= 0,
        b >= 0,
        spec_decimal(a) == spec_decimal(b),
    ensures
        a == b,
    decreases a,
{
    if a < 10 && b < 10 {
        assert(spec_decimal(a)[0] == spec_digit_char(a));
        assert(spec_decimal(b)[0] == spec_digit_char(b));
        lemma_digit_char_injective(a, b);
    } else if a < 10 {
        lemma_decimal_len_ge_1(b / 10);
        assert(spec_decimal(b).len() >= 2);
        assert(spec_decimal(a).len() == 1);
    } else if b < 10 {
        lemma_decimal_len_ge_1(a / 10);
        assert(spec_decimal(a).len() >= 2);
        assert(spec_decimal(b).len() == 1);
    } else {
        let da = spec_decimal(a / 10);
        let db = spec_decimal(b / 10);
        assert(spec_decimal(a).last() == spec_digit_char(a % 10));
        assert(spec_decimal(b).last() == spec_digit_char(b % 10));
        lemma_digit_char_injective(a % 10, b % 10);
        assert(spec_decimal(a).drop_last() =~= da);
        assert(spec_decimal(b).drop_last() =~= db);
        lemma_decimal_injective(a / 10, b / 10);
    }
}

/// Identifier uniqueness: distinct counter values always yield distinct
/// asset identifiers.
pub proof fn lemma_token_id_injective(j: int, k: int)
    requires
        j >= 0,
        k >= 0,
        spec_token_id(j) == spec_token_id(k),
    ensures
        j == k,
{
    let p = "Hope."@;
    let tj = spec_token_id(j);
    let tk = spec_token_id(k);
    assert(tj.subrange(p.len() as int, tj.len() as int) =~= spec_decimal(j));
    assert(tk.subrange(p.len() as int, tk.len() as int) =~= spec_decimal(k));
    lemma_decimal_injective(j, k);
}

/// The one-character string for the decimal digit `d`.
fn digit_str(d: u128) -> (s: &'static str)
    requires
        d <= 9,
    ensures
        s@ == seq![spec_digit_char(d as int)],
{
    proof {
        reveal_strlit("0");
        reveal_strlit("1");
        reveal_strlit("2");
        reveal_strlit("3");
        reveal_strlit("4");
        reveal_strlit("5");
        reveal_strlit("6");
        reveal_strlit("7");
        reveal_strlit("8");
        reveal_strlit("9");
    }
    if d == 0 {
        "0"
    } else if d == 1 {
        "1"
    } else if d == 2 {
        "2"
    } else if d == 3 {
        "3"
    } else if d == 4 {
        "4"
    } else if d == 5 {
        "5"
    } else if d == 6 {
        "6"
    } else if d == 7 {
        "7"
    } else if d == 8 {
        "8"
    } else {
        "9"
    }
}

/// Writes `n` in decimal.
pub fn u128_to_decimal(n: u128) -> (s: String)
    ensures
        s@ == spec_decimal(n as int),
    decreases n,
{
    if n < 10 {
        let d = digit_str(n);
        d.to_owned()
    } else {
        let q: u128 = n / 10;
        let r: u128 = n % 10;
        let mut s = u128_to_decimal(q);
        s.append(digit_str(r));
        s
    }
}

/// Builds the identifier for the asset issued at counter value `k`.
pub fn make_token_id(k: u128) -> (s: String)
    ensures
        s@ == spec_token_id(k as int),
{
    let mut s = String::from_str("Hope.");
    let d = u128_to_decimal(k);
    s.append(d.as_str());
    s
}

} // verus!
