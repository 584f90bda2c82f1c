//! System-wide laws, proved from the operation contracts alone: how the
//! global counter, the per-participant counts and the assigned identifiers
//! evolve over any sequence of deposit attempts, and that the owner fixed
//! at initialization never changes.
use vstd::prelude::*;
use crate::contract::{
    lemma_receive_preserves_wf, spec_owner_preserved, spec_receive_err, spec_receive_ok,
};
use crate::error::ContractError;
use crate::ident::{lemma_token_id_injective, spec_token_id};
use crate::state::{Store, UserInfo};
use crate::NFT_CEILING;

verus! {

/// One deposit attempt in a trace: on success, the deposit transition for
/// its beneficiary; on failure, no change at all.
pub open spec fn spec_deposit_step(pre: Store, post: Store, b: Seq<char>, ok: bool) -> bool {
    if ok {
        spec_receive_err(pre, b) is None && spec_receive_ok(pre, post, b)
    } else {
        spec_receive_err(pre, b) is Some && post == pre
    }
}

/// A trace of deposit attempts: `states[i]` steps to `states[i + 1]` for
/// beneficiary `benefs[i]` with outcome `oks[i]`.
pub open spec fn spec_deposit_trace(
    states: Seq<Store>,
    benefs: Seq<Seq<char>>,
    oks: Seq<bool>,
) -> bool {
    &&& states.len() == oks.len() + 1
    &&& benefs.len() == oks.len()
    &&& forall|i: int|
        0 <= i < oks.len() ==> spec_deposit_step(
            states[i],
            states[i + 1],
            benefs[i],
            #[trigger] oks[i],
        )
}

/// A freshly initialized ledger at the head of a trace: zero counter, no
/// participant records or counts yet.
pub open spec fn spec_fresh_start(s: Store) -> bool {
    &&& s.state is Some
    &&& s.state->Some_0.total_nft == 0
    &&& s.token_counts@ == Map::<Seq<char>, u128>::empty()
    &&& s.users@ == Map::<Seq<char>, UserInfo>::empty()
}

/// How many of the first `n` attempts succeeded.
pub open spec fn spec_successes(oks: Seq<bool>, n: int) -> int
    decreases n,
{
    if n <= 0 {
        0
    } else {
        spec_successes(oks, n - 1) + if n - 1 < oks.len() && oks[n - 1] {
            1int
        } else {
            0int
        }
    }
}

/// How many of the first `n` attempts succeeded for beneficiary `u`.
pub open spec fn spec_successes_for(
    benefs: Seq<Seq<char>>,
    oks: Seq<bool>,
    u: Seq<char>,
    n: int,
) -> int
    decreases n,
{
    if n <= 0 {
        0
    } else {
        spec_successes_for(benefs, oks, u, n - 1) + if n - 1 < oks.len() && n - 1 < benefs.len()
            && oks[n - 1] && benefs[n - 1] == u {
            1int
        } else {
            0int
        }
    }
}

/// Cap monotonicity and ledger counting: along any deposit trace from a
/// freshly initialized ledger, the global counter equals the number of
/// successful deposits so far, every participant's count equals the number
/// of successful deposits for it, and the configuration and the owner stay
/// as they were.
pub proof fn lemma_counter_tracks_successes(
    states: Seq<Store>,
    benefs: Seq<Seq<char>>,
    oks: Seq<bool>,
    u: Seq<char>,
    n: int,
)
    requires
        spec_deposit_trace(states, benefs, oks),
        spec_fresh_start(states[0]),
        0 <= n <= oks.len(),
    ensures
        states[n].state is Some,
        states[n].state->Some_0.total_nft == spec_successes(oks, n),
        states[n].state->Some_0.owner@ == states[0].state->Some_0.owner@,
        states[n].spec_used(u) == spec_successes_for(benefs, oks, u, n),
        states[n].maximum_nft == states[0].maximum_nft,
        states[n].token_address == states[0].token_address,
        states[n].nft_address == states[0].nft_address,
    decreases n,
{
    if n > 0 {
        lemma_counter_tracks_successes(states, benefs, oks, u, n - 1);
        assert(spec_deposit_step(states[n - 1], states[n], benefs[n - 1], oks[n - 1]));
        if oks[n - 1] {
            let pre = states[n - 1];
            assert(pre.spec_used(benefs[n - 1]) < u128::MAX) by {
                if pre.token_counts@.contains_key(benefs[n - 1]) {
                    assert(pre.token_counts@[benefs[n - 1]] < pre.maximum_nft->Some_0);
                }
            }
            if benefs[n - 1] == u {
                assert(states[n].token_counts@[u] == (pre.spec_used(u) + 1) as u128);
            } else {
                assert(states[n].token_counts@.contains_key(u) == pre.token_counts@.contains_key(
                    u,
                ));
            }
        }
    }
}

/// Once the global counter stands at the ceiling, a deposit attempt fails
/// with `MintEnded`, whoever the beneficiary is — and, the attempt having
/// failed, nothing changes.
pub proof fn lemma_ceiling_blocks(s: Store, b: Seq<char>)
    requires
        s.state is Some,
        s.state->Some_0.total_nft >= NFT_CEILING,
    ensures
        spec_receive_err(s, b) == Some(ContractError::MintEnded),
{
}

/// Quota enforcement at one state: with a quota of at least one configured
/// and both services set, a deposit for `b` is accepted exactly when `b`
/// still stands below the quota, and a participant at or over the quota is
/// rejected with `MintExceeded`.
pub proof fn lemma_quota_decides(s: Store, b: Seq<char>)
    requires
        s.state is Some,
        s.state->Some_0.total_nft < NFT_CEILING,
        s.maximum_nft is Some,
        s.maximum_nft->Some_0 >= 1,
        s.token_address is Some,
        s.nft_address is Some,
    ensures
        spec_receive_err(s, b) is None <==> s.spec_used(b) < s.maximum_nft->Some_0,
        s.spec_used(b) >= s.maximum_nft->Some_0 ==> spec_receive_err(s, b) == Some(
            ContractError::MintExceeded,
        ),
{
}

/// Quota enforcement along a trace: when every attempt is for the one
/// participant `u` and a quota `q` with `1 <= q <= ceiling` was configured
/// from the start, exactly the first `q` attempts succeed; and where the
/// quota lies below the ceiling, every later attempt is rejected with
/// `MintExceeded`.
pub proof fn lemma_quota_exactly(
    states: Seq<Store>,
    benefs: Seq<Seq<char>>,
    oks: Seq<bool>,
    u: Seq<char>,
    n: int,
)
    requires
        spec_deposit_trace(states, benefs, oks),
        spec_fresh_start(states[0]),
        states[0].maximum_nft matches Some(q) && 1 <= q <= NFT_CEILING,
        states[0].token_address is Some,
        states[0].nft_address is Some,
        forall|j: int| 0 <= j < benefs.len() ==> #[trigger] benefs[j] == u,
        0 <= n <= oks.len(),
    ensures
        forall|j: int|
            0 <= j < n ==> (#[trigger] oks[j] <==> j < states[0].maximum_nft->Some_0),
        forall|j: int|
            0 <= j < n && j >= states[0].maximum_nft->Some_0 && states[0].maximum_nft->Some_0
                < NFT_CEILING ==> spec_receive_err(states[j], u) == Some(
                ContractError::MintExceeded,
            ),
        spec_successes(oks, n) == if n <= states[0].maximum_nft->Some_0 {
            n
        } else {
            states[0].maximum_nft->Some_0 as int
        },
    decreases n,
{
    let q = states[0].maximum_nft->Some_0;
    if n > 0 {
        lemma_quota_exactly(states, benefs, oks, u, n - 1);
        lemma_counter_tracks_successes(states, benefs, oks, u, n - 1);
        assert(benefs[n - 1] == u);
        assert(spec_deposit_step(states[n - 1], states[n], benefs[n - 1], oks[n - 1]));
        let pre = states[n - 1];
        assert(spec_successes_for(benefs, oks, u, n - 1) == spec_successes(oks, n - 1)) by {
            lemma_successes_single_beneficiary(benefs, oks, u, n - 1);
        }
        if n - 1 < q {
            assert(pre.spec_used(u) < q);
            assert(pre.state->Some_0.total_nft < NFT_CEILING);
            assert(spec_receive_err(pre, u) is None) by {
                if pre.token_counts@.contains_key(u) {
                    assert(pre.token_counts@[u] == pre.spec_used(u));
                }
            }
            assert(oks[n - 1]);
        } else {
            assert(pre.spec_used(u) >= q);
            assert(pre.spec_used(u) >= 1);
            assert(pre.token_counts@.contains_key(u));
            assert(spec_receive_err(pre, u) is Some);
            assert(!oks[n - 1]);
            if q < NFT_CEILING {
                assert(pre.state->Some_0.total_nft == q);
                assert(spec_receive_err(pre, u) == Some(ContractError::MintExceeded));
            }
        }
    }
}

/// When every attempt is for `u`, the successes for `u` are all the
/// successes.
proof fn lemma_successes_single_beneficiary(
    benefs: Seq<Seq<char>>,
    oks: Seq<bool>,
    u: Seq<char>,
    n: int,
)
    requires
        benefs.len() == oks.len(),
        forall|j: int| 0 <= j < benefs.len() ==> #[trigger] benefs[j] == u,
        n <= oks.len(),
    ensures
        spec_successes_for(benefs, oks, u, n) == spec_successes(oks, n),
    decreases n,
{
    if n > 0 {
        lemma_successes_single_beneficiary(benefs, oks, u, n - 1);
    }
}

/// Identifier determinism: the asset issued by a successful attempt that
/// follows `k` earlier successes carries identifier `spec_token_id(k)` —
/// the `k`-th issued asset is named after `k`, whoever receives it.
pub proof fn lemma_identifier_determinism(
    states: Seq<Store>,
    benefs: Seq<Seq<char>>,
    oks: Seq<bool>,
    i: int,
)
    requires
        spec_deposit_trace(states, benefs, oks),
        spec_fresh_start(states[0]),
        0 <= i < oks.len(),
        oks[i],
    ensures
        states[i + 1].users@.contains_key(benefs[i]),
        states[i + 1].users@[benefs[i]].nft.deep_view().last() == spec_token_id(
            spec_successes(oks, i),
        ),
{
    lemma_counter_tracks_successes(states, benefs, oks, benefs[i], i);
    assert(spec_deposit_step(states[i], states[i + 1], benefs[i], oks[i]));
    assert(states[i + 1].users@.contains_key(benefs[i]));
    assert(states[i + 1].users@[benefs[i]].nft.deep_view() == states[i].spec_assets(
        benefs[i],
    ).push(spec_token_id(states[i].state->Some_0.total_nft as int)));
}

/// Owner immutability: across any sequence of steps each of which
/// preserves the owner — as every operation of this system does — the
/// owner fixed at initialization never changes.
pub proof fn lemma_owner_immutable(states: Seq<Store>, n: int)
    requires
        forall|i: int|
            0 <= i < states.len() - 1 ==> spec_owner_preserved(#[trigger] states[i], states[i + 1]),
        states[0].state is Some,
        0 <= n < states.len(),
    ensures
        states[n].state is Some,
        states[n].state->Some_0.owner@ == states[0].state->Some_0.owner@,
    decreases n,
{
    if n > 0 {
        lemma_owner_immutable(states, n - 1);
        assert(spec_owner_preserved(states[n - 1], states[n]));
    }
}

/// Ledger consistency along a trace: well-formedness — in particular, that
/// every participant's record length equals its counter — holds at every
/// point of any deposit trace that starts well-formed.
pub proof fn lemma_wf_along_trace(
    states: Seq<Store>,
    benefs: Seq<Seq<char>>,
    oks: Seq<bool>,
    n: int,
)
    requires
        spec_deposit_trace(states, benefs, oks),
        states[0].wf(),
        0 <= n <= oks.len(),
    ensures
        states[n].wf(),
    decreases n,
{
    if n > 0 {
        lemma_wf_along_trace(states, benefs, oks, n - 1);
        assert(spec_deposit_step(states[n - 1], states[n], benefs[n - 1], oks[n - 1]));
        if oks[n - 1] {
            lemma_receive_preserves_wf(states[n - 1], states[n], benefs[n - 1]);
        }
    }
}


/// Every identifier in `u`'s record names a counter value below the current
/// one.
pub open spec fn spec_ids_below(s: Store, u: Seq<char>) -> bool {
    forall|idx: int|
        0 <= idx < s.spec_assets(u).len() ==> exists|v: int|
            0 <= v < s.state->Some_0.total_nft && #[trigger] s.spec_assets(u)[idx]
                == spec_token_id(v)
}

/// Identifier uniqueness along a trace: at every point, the identifiers in
/// any participant's record are pairwise distinct.
pub proof fn lemma_record_ids_distinct(
    states: Seq<Store>,
    benefs: Seq<Seq<char>>,
    oks: Seq<bool>,
    u: Seq<char>,
    n: int,
)
    requires
        spec_deposit_trace(states, benefs, oks),
        spec_fresh_start(states[0]),
        0 <= n <= oks.len(),
    ensures
        states[n].state is Some,
        spec_ids_below(states[n], u),
        forall|i1: int, i2: int|
            #![trigger states[n].spec_assets(u)[i1], states[n].spec_assets(u)[i2]]
            0 <= i1 < i2 < states[n].spec_assets(u).len() ==> states[n].spec_assets(u)[i1]
                != states[n].spec_assets(u)[i2],
    decreases n,
{
    if n == 0 {
        assert(states[0].spec_assets(u) =~= Seq::<Seq<char>>::empty());
    } else {
        lemma_record_ids_distinct(states, benefs, oks, u, n - 1);
        assert(spec_deposit_step(states[n - 1], states[n], benefs[n - 1], oks[n - 1]));
        let pre = states[n - 1];
        let post = states[n];
        let total = pre.state->Some_0.total_nft as int;
        if oks[n - 1] && benefs[n - 1] == u {
            let olds = pre.spec_assets(u);
            let news = post.spec_assets(u);
            assert(news == olds.push(spec_token_id(total)));
            assert forall|idx: int| 0 <= idx < news.len() implies exists|v: int|
                0 <= v < post.state->Some_0.total_nft && #[trigger] news[idx] == spec_token_id(
                v,
            ) by {
                if idx < olds.len() {
                    assert(olds[idx] == news[idx]);
                    let v = choose|v: int|
                        0 <= v < pre.state->Some_0.total_nft && olds[idx] == spec_token_id(v);
                    assert(news[idx] == spec_token_id(v));
                } else {
                    assert(news[idx] == spec_token_id(total));
                }
            }
            assert forall|i1: int, i2: int|
                #![trigger news[i1], news[i2]]
                0 <= i1 < i2 < news.len() implies news[i1] != news[i2] by {
                if i2 == news.len() - 1 {
                    assert(news[i1] == olds[i1]);
                    let v = choose|v: int|
                        0 <= v < pre.state->Some_0.total_nft && olds[i1] == spec_token_id(v);
                    if news[i1] == news[i2] {
                        lemma_token_id_injective(v, total);
                    }
                } else {
                    assert(olds[i1] == news[i1] && olds[i2] == news[i2]);
                }
            }
        } else {
            assert(post.spec_assets(u) == pre.spec_assets(u)) by {
                if oks[n - 1] {
                    assert(!pre.users@.contains_key(u) ==> !post.users@.contains_key(u));
                }
            }
            assert(post.state->Some_0.total_nft >= pre.state->Some_0.total_nft);
            assert forall|idx: int|
                0 <= idx < post.spec_assets(u).len() implies exists|v: int|
                    0 <= v < post.state->Some_0.total_nft && #[trigger] post.spec_assets(u)[idx]
                        == spec_token_id(v) by {
                let v = choose|v: int|
                    0 <= v < pre.state->Some_0.total_nft && pre.spec_assets(u)[idx]
                        == spec_token_id(v);
                assert(post.spec_assets(u)[idx] == spec_token_id(v));
            }
        }
    }
}

} // verus!
