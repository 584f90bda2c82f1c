//! Lexicographic order on identity strings, by character code — the order
//! in which the participant listing is kept. For the UTF-8 encoded strings
//! the host hands over, this coincides with ascending byte order.
use vstd::prelude::*;

verus! {

/// Strict lexicographic order: `a` comes before `b`.
pub open spec fn spec_str_lt(a: Seq<char>, b: Seq<char>) -> bool
    decreases a.len(),
{
    if b.len() == 0 {
        false
    } else if a.len() == 0 {
        true
    } else if a[0] != b[0] {
        a[0] < b[0]
    } else {
        spec_str_lt(a.drop_first(), b.drop_first())
    }
}

/// The order is irreflexive.
pub proof fn lemma_str_lt_irreflexive(a: Seq<char>)
    ensures
        !spec_str_lt(a, a),
    decreases a.len(),
{
    if a.len() > 0 {
        lemma_str_lt_irreflexive(a.drop_first());
    }
}

/// Two distinct strings are ordered one way or the other.
pub proof fn lemma_str_lt_total(a: Seq<char>, b: Seq<char>)
    requires
        a != b,
    ensures
        spec_str_lt(a, b) || spec_str_lt(b, a),
    decreases a.len(),
{
    if a.len() == 0 && b.len() == 0 {
        assert(a =~= b);
    } else if a.len() > 0 && b.len() > 0 {
        if a[0] == b[0] {
            if a.drop_first() == b.drop_first() {
                assert(a.drop_first().len() == a.len() - 1);
                assert(b.drop_first().len() == b.len() - 1);
                assert(a.len() == b.len());
                assert forall|i: int| 0 <= i < a.len() implies a[i] == b[i] by {
                    if i > 0 {
                        assert(a.drop_first()[i - 1] == b.drop_first()[i - 1]);
                    }
                }
                assert(a =~= b);
            } else {
                lemma_str_lt_total(a.drop_first(), b.drop_first());
            }
        }
    } else if a.len() == 0 {
        assert(spec_str_lt(a, b));
    } else {
        assert(spec_str_lt(b, a));
    }
}

/// The order is transitive.
pub proof fn lemma_str_lt_transitive(a: Seq<char>, b: Seq<char>, c: Seq<char>)
    requires
        spec_str_lt(a, b),
        spec_str_lt(b, c),
    ensures
        spec_str_lt(a, c),
    decreases a.len(),
{
    if a.len() > 0 && b.len() > 0 && c.len() > 0 {
        if a[0] == b[0] && b[0] == c[0] {
            lemma_str_lt_transitive(a.drop_first(), b.drop_first(), c.drop_first());
        }
    }
}

/// Dropping an equal first character on both sides keeps the order.
proof fn lemma_str_lt_step(a: Seq<char>, b: Seq<char>)
    requires
        a.len() > 0,
        b.len() > 0,
        a[0] == b[0],
    ensures
        spec_str_lt(a, b) == spec_str_lt(a.drop_first(), b.drop_first()),
{
}

/// Compares two strings in the lexicographic order.
pub fn str_lt(a: &str, b: &str) -> (r: bool)
    ensures
        r == spec_str_lt(a@, b@),
{
    let alen = a.unicode_len();
    let blen = b.unicode_len();
    let mut i: usize = 0;
    proof {
        assert(a@.skip(0) =~= a@);
        assert(b@.skip(0) =~= b@);
    }
    loop
        invariant
            i <= alen,
            i <= blen,
            alen == a@.len(),
            blen == b@.len(),
            spec_str_lt(a@, b@) == spec_str_lt(a@.skip(i as int), b@.skip(i as int)),
        decreases alen - i,
    {
        if i == alen {
            return i < blen;
        }
        if i == blen {
            return false;
        }
        let ca = a.get_char(i);
        let cb = b.get_char(i);
        if ca != cb {
            proof {
                assert(a@.skip(i as int)[0] == ca);
                assert(b@.skip(i as int)[0] == cb);
            }
            return ca < cb;
        }
        proof {
            let sa = a@.skip(i as int);
            let sb = b@.skip(i as int);
            assert(sa[0] == ca && sb[0] == cb);
            lemma_str_lt_step(sa, sb);
            assert(sa.drop_first() =~= a@.skip(i + 1));
            assert(sb.drop_first() =~= b@.skip(i + 1));
        }
        i = i + 1;
    }
}

/// `x` placed into `s` just before the first entry it does not come after.
/// On a sorted sequence this is the sorted insertion.
pub open spec fn spec_sorted_insert(s: Seq<Seq<char>>, x: Seq<char>) -> Seq<Seq<char>>
    decreases s.len(),
{
    if s.len() == 0 {
        seq![x]
    } else if spec_str_lt(s[0], x) {
        seq![s[0]] + spec_sorted_insert(s.drop_first(), x)
    } else {
        seq![x] + s
    }
}

/// A sequence that is strictly sorted in the lexicographic order.
pub open spec fn spec_strictly_sorted(s: Seq<Seq<char>>) -> bool {
    forall|i: int, j: int|
        #![trigger s[i], s[j]]
        0 <= i < j < s.len() ==> spec_str_lt(s[i], s[j])
}

/// Insertion grows the length by one and contributes exactly `x` to the
/// entries.
pub proof fn lemma_sorted_insert_to_set(s: Seq<Seq<char>>, x: Seq<char>)
    ensures
        spec_sorted_insert(s, x).len() == s.len() + 1,
        spec_sorted_insert(s, x).to_set() == s.to_set().insert(x),
    decreases s.len(),
{
    let r = spec_sorted_insert(s, x);
    if s.len() == 0 {
        assert(r =~= seq![x]);
        assert forall|y: Seq<char>| r.to_set().contains(y) implies s.to_set().insert(x).contains(
            y,
        ) by {
            assert(y == r[0]);
        }
        assert(r.to_set() =~= s.to_set().insert(x)) by {
            assert(r[0] == x);
            assert(r.contains(x));
        }
    } else if spec_str_lt(s[0], x) {
        let tail = s.drop_first();
        lemma_sorted_insert_to_set(tail, x);
        let rt = spec_sorted_insert(tail, x);
        assert(r == seq![s[0]] + rt);
        assert(r.to_set() =~= s.to_set().insert(x)) by {
            assert forall|y: Seq<char>| r.to_set().contains(y) implies s.to_set().insert(
                x,
            ).contains(y) by {
                let i = choose|i: int| 0 <= i < r.len() && r[i] == y;
                if i == 0 {
                    assert(s.contains(s[0]));
                } else {
                    assert(rt[i - 1] == y);
                    assert(rt.to_set().contains(y));
                    if tail.to_set().contains(y) {
                        let j = choose|j: int| 0 <= j < tail.len() && tail[j] == y;
                        assert(s[j + 1] == y);
                        assert(s.contains(y));
                    }
                }
            }
            assert forall|y: Seq<char>| s.to_set().insert(x).contains(y) implies r.to_set().contains(
                y,
            ) by {
                if y == x {
                    assert(rt.to_set().contains(x));
                    let j = choose|j: int| 0 <= j < rt.len() && rt[j] == x;
                    assert(r[j + 1] == x);
                    assert(r.contains(x));
                } else {
                    let i = choose|i: int| 0 <= i < s.len() && s[i] == y;
                    if i == 0 {
                        assert(r[0] == y);
                        assert(r.contains(y));
                    } else {
                        assert(tail[i - 1] == y);
                        assert(tail.to_set().contains(y));
                        assert(rt.to_set().contains(y));
                        let j = choose|j: int| 0 <= j < rt.len() && rt[j] == y;
                        assert(r[j + 1] == y);
                        assert(r.contains(y));
                    }
                }
            }
        }
    } else {
        assert(r == seq![x] + s);
        assert(r.to_set() =~= s.to_set().insert(x)) by {
            assert forall|y: Seq<char>| r.to_set().contains(y) implies s.to_set().insert(
                x,
            ).contains(y) by {
                let i = choose|i: int| 0 <= i < r.len() && r[i] == y;
                if i > 0 {
                    assert(s[i - 1] == y);
                    assert(s.contains(y));
                }
            }
            assert forall|y: Seq<char>| s.to_set().insert(x).contains(y) implies r.to_set().contains(
                y,
            ) by {
                if y == x {
                    assert(r[0] == x);
                    assert(r.contains(x));
                } else {
                    let i = choose|i: int| 0 <= i < s.len() && s[i] == y;
                    assert(r[i + 1] == y);
                    assert(r.contains(y));
                }
            }
        }
    }
}

/// Inserting a fresh entry into a strictly sorted sequence keeps it
/// strictly sorted.
pub proof fn lemma_sorted_insert_sorted(s: Seq<Seq<char>>, x: Seq<char>)
    requires
        spec_strictly_sorted(s),
        !s.to_set().contains(x),
    ensures
        spec_strictly_sorted(spec_sorted_insert(s, x)),
    decreases s.len(),
{
    let r = spec_sorted_insert(s, x);
    if s.len() == 0 {
    } else if spec_str_lt(s[0], x) {
        let tail = s.drop_first();
        assert(spec_strictly_sorted(tail)) by {
            assert forall|i: int, j: int|
                #![trigger tail[i], tail[j]]
                0 <= i < j < tail.len() implies spec_str_lt(tail[i], tail[j]) by {
                assert(s[i + 1] == tail[i] && s[j + 1] == tail[j]);
            }
        }
        assert(!tail.to_set().contains(x)) by {
            if tail.to_set().contains(x) {
                let j = choose|j: int| 0 <= j < tail.len() && tail[j] == x;
                assert(s[j + 1] == x);
                assert(s.contains(x));
            }
        }
        lemma_sorted_insert_sorted(tail, x);
        let rt = spec_sorted_insert(tail, x);
        lemma_sorted_insert_to_set(tail, x);
        assert(r == seq![s[0]] + rt);
        assert forall|i: int, j: int|
            #![trigger r[i], r[j]]
            0 <= i < j < r.len() implies spec_str_lt(r[i], r[j]) by {
            if i == 0 {
                assert(r[0] == s[0]);
                assert(rt[j - 1] == r[j]);
                assert(rt.to_set().contains(rt[j - 1])) by {
                    assert(rt.contains(rt[j - 1]));
                }
                if rt[j - 1] == x {
                    assert(spec_str_lt(s[0], x));
                } else {
                    assert(tail.to_set().contains(rt[j - 1]));
                    let k = choose|k: int| 0 <= k < tail.len() && tail[k] == rt[j - 1];
                    assert(s[k + 1] == rt[j - 1]);
                    assert(spec_str_lt(s[0], s[k + 1]));
                }
            } else {
                assert(rt[i - 1] == r[i] && rt[j - 1] == r[j]);
            }
        }
    } else {
        assert(s[0] != x) by {
            assert(s.contains(s[0]));
        }
        lemma_str_lt_total(s[0], x);
        assert(spec_str_lt(x, s[0]));
        assert(r == seq![x] + s);
        assert forall|i: int, j: int|
            #![trigger r[i], r[j]]
            0 <= i < j < r.len() implies spec_str_lt(r[i], r[j]) by {
            if i == 0 {
                assert(r[0] == x);
                assert(r[j] == s[j - 1]);
                if j > 1 {
                    lemma_str_lt_transitive(x, s[0], s[j - 1]);
                }
            } else {
                assert(s[i - 1] == r[i] && s[j - 1] == r[j]);
            }
        }
    }
}

/// Where a scan stopped at the first entry that does not come before `x`,
/// the insertion point is exactly there.
pub proof fn lemma_sorted_insert_at(s: Seq<Seq<char>>, x: Seq<char>, k: int)
    requires
        0 <= k <= s.len(),
        forall|j: int| 0 <= j < k ==> spec_str_lt(#[trigger] s[j], x),
        k < s.len() ==> !spec_str_lt(s[k], x),
    ensures
        spec_sorted_insert(s, x) == s.take(k) + seq![x] + s.skip(k),
    decreases k,
{
    if s.len() == 0 {
        assert(spec_sorted_insert(s, x) =~= s.take(0) + seq![x] + s.skip(0));
    } else if k == 0 {
        assert(spec_sorted_insert(s, x) =~= s.take(0) + seq![x] + s.skip(0));
    } else {
        let tail = s.drop_first();
        assert(spec_str_lt(s[0], x));
        assert forall|j: int| 0 <= j < k - 1 implies spec_str_lt(#[trigger] tail[j], x) by {
            assert(s[j + 1] == tail[j]);
        }
        assert(k - 1 < tail.len() ==> !spec_str_lt(tail[k - 1], x)) by {
            if k - 1 < tail.len() {
                assert(tail[k - 1] == s[k]);
            }
        }
        lemma_sorted_insert_at(tail, x, k - 1);
        assert(spec_sorted_insert(s, x) =~= s.take(k) + seq![x] + s.skip(k)) by {
            assert(spec_sorted_insert(s, x) == seq![s[0]] + spec_sorted_insert(tail, x));
            assert(spec_sorted_insert(tail, x) == tail.take(k - 1) + seq![x] + tail.skip(k - 1));
        }
    }
}

} // verus!
