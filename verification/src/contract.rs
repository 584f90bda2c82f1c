//! The mint orchestrator and the query facade: validates a deposit
//! notification against the ceiling and the per-participant quota, assigns
//! the deterministic identifier, updates the ledger, and composes the pair
//! of outbound calls that the host executes atomically with the state
//! change.
use vstd::prelude::*;
use crate::error::ContractError;
use crate::ident::{make_token_id, spec_token_id};
use crate::order::{
    lemma_sorted_insert_sorted, lemma_sorted_insert_to_set, spec_sorted_insert,
};
use crate::msg::{
    ExecuteMsg, ExternalQuery, HopeMintMsg, InstantiateMsg, MessageInfo, OutboundMsg, QueryAnswer,
    QueryMsg, Response,
};
use crate::state::{
    config, config_read, read_maximum_nft, read_nft_address, read_token_address, read_token_count,
    read_user_info, read_users, store_maximum_nft, store_nft_address, store_token_address,
    store_token_count, store_users, Metadata, State, Store, TokenCount, UserInfo,
};
use crate::NFT_CEILING;

verus! {

/// The metadata record forwarded to the registry service, as built from a
/// deposit notification's payload.
pub open spec fn spec_metadata_of(m: HopeMintMsg) -> Metadata {
    Metadata {
        name: m.name,
        description: m.description,
        external_link: m.external_link,
        royalties: m.royalties,
        init_price: m.init_price,
    }
}

/// The error a deposit for beneficiary `b` is rejected with in state `s`,
/// if any; the checks run in exactly this order, first match wins.
pub open spec fn spec_receive_err(s: Store, b: Seq<char>) -> Option<ContractError> {
    if s.state is None {
        Some(ContractError::ConfigurationMissing)
    } else if s.state->Some_0.total_nft >= NFT_CEILING {
        Some(ContractError::MintEnded)
    } else if s.maximum_nft is None {
        Some(ContractError::ConfigurationMissing)
    } else if s.token_counts@.contains_key(b) && s.token_counts@[b] >= s.maximum_nft->Some_0 {
        Some(ContractError::MintExceeded)
    } else if s.token_address is None {
        Some(ContractError::ConfigurationMissing)
    } else if s.nft_address is None {
        Some(ContractError::ConfigurationMissing)
    } else {
        None
    }
}

/// The successful deposit transition from `pre` to `post` for beneficiary
/// `b`: the counter advances by one, the identifier assigned at the old
/// counter value is appended to `b`'s record, `b`'s count advances by one,
/// and nothing else changes.
pub open spec fn spec_receive_ok(pre: Store, post: Store, b: Seq<char>) -> bool {
    &&& pre.state is Some
    &&& post.state is Some
    &&& post.state->Some_0.total_nft == pre.state->Some_0.total_nft + 1
    &&& post.state->Some_0.owner@ == pre.state->Some_0.owner@
    &&& post.token_address == pre.token_address
    &&& post.nft_address == pre.nft_address
    &&& post.maximum_nft == pre.maximum_nft
    &&& post.token_counts@ == pre.token_counts@.insert(b, (pre.spec_used(b) + 1) as u128)
    &&& post.users@ == pre.users@.insert(b, post.users@[b])
    &&& post.users@[b].address@ == b
    &&& post.users@[b].nft.deep_view() == pre.spec_assets(b).push(
        spec_token_id(pre.state->Some_0.total_nft as int),
    )
    &&& (pre.users@.contains_key(b) ==> post.participants@ == pre.participants@)
    &&& (!pre.users@.contains_key(b) ==> post.participants.deep_view() == spec_sorted_insert(
        pre.participants.deep_view(),
        b,
    ))
}

/// Everything a deposit notification's outcome must satisfy: on success the
/// transition above plus exactly the two outbound calls, in order; on
/// failure the state untouched and the first failing check's error.
pub open spec fn spec_receive_result(
    pre: Store,
    post: Store,
    b: Seq<char>,
    amount: u128,
    meta: HopeMintMsg,
    r: Result<Response, ContractError>,
) -> bool {
    match r {
        Ok(resp) => {
            &&& spec_receive_err(pre, b) is None
            &&& spec_receive_ok(pre, post, b)
            &&& resp.attributes@.len() == 0
            &&& resp.messages@.len() == 2
            &&& (resp.messages@[0] matches OutboundMsg::Transfer {
                contract_addr,
                recipient,
                amount: amt,
            } && {
                &&& contract_addr@ == pre.token_address->Some_0@
                &&& recipient@ == pre.state->Some_0.owner@
                &&& amt == amount
            })
            &&& (resp.messages@[1] matches OutboundMsg::MintNft {
                contract_addr,
                token_id,
                owner,
                token_uri,
                extension,
            } && {
                &&& contract_addr@ == pre.nft_address->Some_0@
                &&& token_id@ == spec_token_id(pre.state->Some_0.total_nft as int)
                &&& owner@ == b
                &&& token_uri == meta.image_uri
                &&& extension == spec_metadata_of(meta)
            })
        },
        Err(e) => {
            &&& post == pre
            &&& spec_receive_err(pre, b) == Some(e)
        },
    }
}

/// The error an owner-only operation is rejected with in state `s` for
/// caller `sender`, if any.
pub open spec fn spec_owner_only_err(s: Store, sender: Seq<char>) -> Option<ContractError> {
    if s.state is None {
        Some(ContractError::ConfigurationMissing)
    } else if s.state->Some_0.owner@ != sender {
        Some(ContractError::Unauthorized)
    } else {
        None
    }
}

/// All fields of the store except the payment service address are equal.
pub open spec fn spec_same_but_token_address(pre: Store, post: Store) -> bool {
    &&& post.state == pre.state
    &&& post.nft_address == pre.nft_address
    &&& post.maximum_nft == pre.maximum_nft
    &&& post.users == pre.users
    &&& post.token_counts == pre.token_counts
    &&& post.participants == pre.participants
}

/// All fields of the store except the registry service address are equal.
pub open spec fn spec_same_but_nft_address(pre: Store, post: Store) -> bool {
    &&& post.state == pre.state
    &&& post.token_address == pre.token_address
    &&& post.maximum_nft == pre.maximum_nft
    &&& post.users == pre.users
    &&& post.token_counts == pre.token_counts
    &&& post.participants == pre.participants
}

/// All fields of the store except the quota are equal.
pub open spec fn spec_same_but_maximum(pre: Store, post: Store) -> bool {
    &&& post.state == pre.state
    &&& post.token_address == pre.token_address
    &&& post.nft_address == pre.nft_address
    &&& post.users == pre.users
    &&& post.token_counts == pre.token_counts
    &&& post.participants == pre.participants
}

/// An empty response: no outbound calls, no notes.
pub open spec fn spec_empty_response(resp: Response) -> bool {
    resp.messages@.len() == 0 && resp.attributes@.len() == 0
}

/// Outcome of setting the payment service address.
pub open spec fn spec_set_token_address_result(
    pre: Store,
    post: Store,
    sender: Seq<char>,
    address: Seq<char>,
    r: Result<Response, ContractError>,
) -> bool {
    match r {
        Ok(resp) => {
            &&& spec_owner_only_err(pre, sender) is None
            &&& (post.token_address matches Some(a) && a@ == address)
            &&& spec_same_but_token_address(pre, post)
            &&& spec_empty_response(resp)
        },
        Err(e) => {
            &&& post == pre
            &&& spec_owner_only_err(pre, sender) == Some(e)
        },
    }
}

/// Outcome of setting the registry service address.
pub open spec fn spec_set_nft_address_result(
    pre: Store,
    post: Store,
    sender: Seq<char>,
    address: Seq<char>,
    r: Result<Response, ContractError>,
) -> bool {
    match r {
        Ok(resp) => {
            &&& spec_owner_only_err(pre, sender) is None
            &&& (post.nft_address matches Some(a) && a@ == address)
            &&& spec_same_but_nft_address(pre, post)
            &&& spec_empty_response(resp)
        },
        Err(e) => {
            &&& post == pre
            &&& spec_owner_only_err(pre, sender) == Some(e)
        },
    }
}

/// Outcome of setting the per-participant quota.
pub open spec fn spec_set_maximum_result(
    pre: Store,
    post: Store,
    sender: Seq<char>,
    amount: u128,
    r: Result<Response, ContractError>,
) -> bool {
    match r {
        Ok(resp) => {
            &&& spec_owner_only_err(pre, sender) is None
            &&& post.maximum_nft == Some(amount)
            &&& spec_same_but_maximum(pre, post)
            &&& spec_empty_response(resp)
        },
        Err(e) => {
            &&& post == pre
            &&& spec_owner_only_err(pre, sender) == Some(e)
        },
    }
}

/// The error the direct token issuance is rejected with in state `s` for
/// caller `sender` and requested `amount`, if any; the checks run in
/// exactly this order, first match wins. Issuance is owner-triggered, and a
/// negative amount is malformed.
pub open spec fn spec_buy_err(s: Store, sender: Seq<char>, amount: i32) -> Option<ContractError> {
    if s.state is None {
        Some(ContractError::ConfigurationMissing)
    } else if s.state->Some_0.owner@ != sender {
        Some(ContractError::Unauthorized)
    } else if amount < 0 {
        Some(ContractError::Malformed)
    } else if s.token_address is None {
        Some(ContractError::ConfigurationMissing)
    } else {
        None
    }
}

/// Outcome of the direct token issuance: one mint instruction to the
/// payment service for the caller — the owner — and a note.
pub open spec fn spec_buy_result(
    s: Store,
    sender: Seq<char>,
    amount: i32,
    r: Result<Response, ContractError>,
) -> bool {
    match r {
        Ok(resp) => {
            &&& spec_buy_err(s, sender, amount) is None
            &&& (s.token_address matches Some(a) && {
                &&& resp.messages@.len() == 1
                &&& (resp.messages@[0] matches OutboundMsg::MintTokens {
                    contract_addr,
                    recipient,
                    amount: amt,
                } && {
                    &&& contract_addr@ == a@
                    &&& recipient@ == sender
                    &&& amt == amount as u128
                })
                &&& resp.attributes@.len() == 1
                &&& resp.attributes@[0].key@ == "action"@
                &&& resp.attributes@[0].value@ == "buy"@
            })
        },
        Err(e) => spec_buy_err(s, sender, amount) == Some(e),
    }
}

/// Outcome of initialization: the global state overwritten with a zero
/// counter and the caller as owner, everything else untouched.
pub open spec fn spec_instantiate_result(
    pre: Store,
    post: Store,
    sender: Seq<char>,
    r: Result<Response, ContractError>,
) -> bool {
    match r {
        Ok(resp) => {
            &&& (post.state matches Some(st) && st.total_nft == 0 && st.owner@ == sender)
            &&& post.token_address == pre.token_address
            &&& post.nft_address == pre.nft_address
            &&& post.maximum_nft == pre.maximum_nft
            &&& post.users == pre.users
            &&& post.token_counts == pre.token_counts
            &&& post.participants == pre.participants
            &&& spec_empty_response(resp)
        },
        Err(_) => false,
    }
}

/// Once the global state exists, its owner field never changes.
pub open spec fn spec_owner_preserved(pre: Store, post: Store) -> bool {
    pre.state is Some ==> (post.state is Some && post.state->Some_0.owner@
        == pre.state->Some_0.owner@)
}

/// Creates the global state singleton with a zero counter and the caller as
/// owner.
pub fn instantiate(store: &mut Store, info: &MessageInfo, _msg: InstantiateMsg) -> (r: Result<
    Response,
    ContractError,
>)
    ensures
        spec_instantiate_result(*old(store), *final(store), info.sender@, r),
        old(store).wf() ==> final(store).wf(),
{
    let state = State { total_nft: 0, owner: info.sender.clone() };
    config(store, state);
    Ok(Response::new())
}

/// Handles a deposit notification: validates it, advances the ledger, and
/// returns the payment transfer and the asset mint the host must execute
/// atomically with the state change.
pub fn execute_receive(store: &mut Store, sender: String, amount: u128, msg: HopeMintMsg) -> (r:
    Result<Response, ContractError>)
    ensures
        spec_receive_result(*old(store), *final(store), sender@, amount, msg, r),
        spec_owner_preserved(*old(store), *final(store)),
        old(store).wf() ==> final(store).wf(),
{
    let state_read = config_read(store);
    let mut state = match state_read {
        Ok(s) => s,
        Err(e) => {
            return Err(e);
        },
    };
    if state.total_nft >= NFT_CEILING {
        return Err(ContractError::MintEnded);
    }
    let mut user_token_count: u128 = 0;
    let token_count = read_token_count(store, &sender);
    let maximum_nft = match read_maximum_nft(store) {
        Ok(m) => m,
        Err(e) => {
            return Err(e);
        },
    };
    match token_count {
        Some(n) => {
            if n >= maximum_nft {
                return Err(ContractError::MintExceeded);
            }
            user_token_count = n;
        },
        None => {},
    }
    user_token_count = user_token_count + 1;
    let token_address = match read_token_address(store) {
        Ok(a) => a,
        Err(e) => {
            return Err(e);
        },
    };
    let nft_address = match read_nft_address(store) {
        Ok(a) => a,
        Err(e) => {
            return Err(e);
        },
    };
    let token_id = make_token_id(state.total_nft);
    let owner = state.owner.clone();
    state.total_nft = state.total_nft + 1;
    config(store, state);
    let ghost mid = *store;
    let user_nft = read_user_info(store, &sender);
    match user_nft {
        None => {
            let mut owned_nft: Vec<String> = Vec::new();
            owned_nft.push(token_id.clone());
            store_users(store, &sender, UserInfo { address: sender.clone(), nft: owned_nft });
        },
        Some(owned) => {
            let mut owned_nft = owned.nft;
            owned_nft.push(token_id.clone());
            store_users(store, &sender, UserInfo { address: sender.clone(), nft: owned_nft });
        },
    }
    proof {
        assert(store.users@ =~= mid.users@.insert(sender@, store.users@[sender@]));
        assert(store.users@[sender@].nft.deep_view() =~= old(store).spec_assets(sender@).push(
            spec_token_id(old(store).state->Some_0.total_nft as int),
        ));
    }
    store_token_count(store, &sender, user_token_count);
    proof {
        assert(store.token_counts@ =~= old(store).token_counts@.insert(
            sender@,
            (old(store).spec_used(sender@) + 1) as u128,
        ));
        if old(store).wf() {
            lemma_receive_preserves_wf(*old(store), *store, sender@);
        }
    }
    let meta_data = Metadata {
        name: msg.name,
        description: msg.description,
        external_link: msg.external_link,
        royalties: msg.royalties,
        init_price: msg.init_price,
    };
    let resp = Response::new().add_message(
        OutboundMsg::Transfer { contract_addr: token_address, recipient: owner, amount },
    ).add_message(
        OutboundMsg::MintNft {
            contract_addr: nft_address,
            token_id,
            owner: sender,
            token_uri: msg.image_uri,
            extension: meta_data,
        },
    );
    Ok(resp)
}

/// A successful deposit transition preserves the store's well-formedness.
pub proof fn lemma_receive_preserves_wf(pre: Store, post: Store, b: Seq<char>)
    requires
        spec_receive_ok(pre, post, b),
        spec_receive_err(pre, b) is None,
        pre.wf(),
    ensures
        post.wf(),
{
    assert forall|a: Seq<char>| post.users@.contains_key(a) <==> post.token_counts@.contains_key(
        a,
    ) by {
        if a != b {
            assert(post.users@.contains_key(a) == pre.users@.contains_key(a));
            assert(post.token_counts@.contains_key(a) == pre.token_counts@.contains_key(a));
        }
    }
    assert forall|a: Seq<char>| post.users@.contains_key(a) implies (#[trigger] post.users@[a]).nft@.len()
        == post.token_counts@[a] by {
        if a == b {
            assert(pre.spec_used(b) < u128::MAX);
            assert(post.users@[b].nft.deep_view().len() == post.users@[b].nft@.len());
            assert(pre.spec_assets(b).len() == pre.spec_used(b));
            assert(post.users@[b].nft@.len() == pre.spec_used(b) + 1);
            assert(post.token_counts@[b] == (pre.spec_used(b) + 1) as u128);
        } else {
            assert(post.users@[a] == pre.users@[a]);
        }
    }
    assert forall|a: Seq<char>| post.users@.contains_key(a) implies (#[trigger] post.users@[a]).address@
        == a by {
        if a != b {
            assert(post.users@[a] == pre.users@[a]);
        }
    }
    if pre.users@.contains_key(b) {
        assert(post.participants.deep_view() == pre.participants.deep_view());
        assert(post.participants.deep_view().to_set() =~= post.users@.dom());
    } else {
        let pd = pre.participants.deep_view();
        let qd = post.participants.deep_view();
        assert(qd == spec_sorted_insert(pd, b));
        assert(!pd.to_set().contains(b)) by {
            if pd.to_set().contains(b) {
                assert(pre.users@.dom().contains(b));
            }
        }
        lemma_sorted_insert_sorted(pd, b);
        lemma_sorted_insert_to_set(pd, b);
        assert(qd.to_set() =~= post.users@.dom());
    }
}

/// Owner-only: overwrites the per-participant quota.
fn execute_maxium_nft(store: &mut Store, info: &MessageInfo, amount: u128) -> (r: Result<
    Response,
    ContractError,
>)
    ensures
        spec_set_maximum_result(*old(store), *final(store), info.sender@, amount, r),
        spec_owner_preserved(*old(store), *final(store)),
        old(store).wf() ==> final(store).wf(),
{
    let state = match config_read(store) {
        Ok(s) => s,
        Err(e) => {
            return Err(e);
        },
    };
    if !(state.owner == info.sender) {
        return Err(ContractError::Unauthorized);
    }
    store_maximum_nft(store, amount);
    Ok(Response::new())
}

/// Owner-only: overwrites the payment service address.
fn execute_set_address(store: &mut Store, info: &MessageInfo, address: String) -> (r: Result<
    Response,
    ContractError,
>)
    ensures
        spec_set_token_address_result(*old(store), *final(store), info.sender@, address@, r),
        spec_owner_preserved(*old(store), *final(store)),
        old(store).wf() ==> final(store).wf(),
{
    let state = match config_read(store) {
        Ok(s) => s,
        Err(e) => {
            return Err(e);
        },
    };
    if !(state.owner == info.sender) {
        return Err(ContractError::Unauthorized);
    }
    store_token_address(store, address);
    Ok(Response::new())
}

/// Owner-only: overwrites the registry service address.
fn execute_set_nft_address(store: &mut Store, info: &MessageInfo, address: String) -> (r: Result<
    Response,
    ContractError,
>)
    ensures
        spec_set_nft_address_result(*old(store), *final(store), info.sender@, address@, r),
        spec_owner_preserved(*old(store), *final(store)),
        old(store).wf() ==> final(store).wf(),
{
    let state = match config_read(store) {
        Ok(s) => s,
        Err(e) => {
            return Err(e);
        },
    };
    if !(state.owner == info.sender) {
        return Err(ContractError::Unauthorized);
    }
    store_nft_address(store, address);
    Ok(Response::new())
}

/// Owner-only direct issuance of payment tokens to the caller, bypassing
/// the collectible ledger. A negative amount is rejected as malformed.
pub fn execute_buy_token(store: &Store, info: &MessageInfo, amount: i32) -> (r: Result<
    Response,
    ContractError,
>)
    ensures
        spec_buy_result(*store, info.sender@, amount, r),
{
    let state = match config_read(store) {
        Ok(s) => s,
        Err(e) => {
            return Err(e);
        },
    };
    if !(state.owner == info.sender) {
        return Err(ContractError::Unauthorized);
    }
    if amount < 0 {
        return Err(ContractError::Malformed);
    }
    let token_address = match read_token_address(store) {
        Ok(a) => a,
        Err(e) => {
            return Err(e);
        },
    };
    let res = Response::new().add_attribute(
        String::from_str("action"),
        String::from_str("buy"),
    ).add_message(
        OutboundMsg::MintTokens {
            contract_addr: token_address,
            recipient: info.sender.clone(),
            amount: amount as u128,
        },
    );
    Ok(res)
}

/// Dispatches a state-changing request to its handler.
pub fn execute(store: &mut Store, info: &MessageInfo, msg: ExecuteMsg) -> (r: Result<
    Response,
    ContractError,
>)
    ensures
        spec_owner_preserved(*old(store), *final(store)),
        old(store).wf() ==> final(store).wf(),
        (match msg {
            ExecuteMsg::Receive { sender, amount, msg: meta } => spec_receive_result(
                *old(store),
                *final(store),
                sender@,
                amount,
                meta,
                r,
            ),
            ExecuteMsg::SetTokenAddress { address } => spec_set_token_address_result(
                *old(store),
                *final(store),
                info.sender@,
                address@,
                r,
            ),
            ExecuteMsg::SetNftAddress { address } => spec_set_nft_address_result(
                *old(store),
                *final(store),
                info.sender@,
                address@,
                r,
            ),
            ExecuteMsg::SetMaximumNft { amount } => spec_set_maximum_result(
                *old(store),
                *final(store),
                info.sender@,
                amount,
                r,
            ),
            ExecuteMsg::BuyToken { amount } => *final(store) == *old(store) && spec_buy_result(
                *old(store),
                info.sender@,
                amount,
                r,
            ),
        }),
{
    match msg {
        ExecuteMsg::Receive { sender, amount, msg: meta } => execute_receive(
            store,
            sender,
            amount,
            meta,
        ),
        ExecuteMsg::SetTokenAddress { address } => execute_set_address(store, info, address),
        ExecuteMsg::SetNftAddress { address } => execute_set_nft_address(store, info, address),
        ExecuteMsg::BuyToken { amount } => execute_buy_token(store, info, amount),
        ExecuteMsg::SetMaximumNft { amount } => execute_maxium_nft(store, info, amount),
    }
}

/// The participant's issued count next to the global counter, with absence
/// read as zero.
pub fn query_token_count(store: &Store, address: String) -> (r: Result<TokenCount, ContractError>)
    ensures
        match r {
            Ok(tc) => store.state matches Some(st) && tc.total_nft == st.total_nft
                && tc.owned_nft_number == store.spec_used(address@),
            Err(e) => store.state is None && e == ContractError::ConfigurationMissing,
        },
{
    let state = match config_read(store) {
        Ok(s) => s,
        Err(e) => {
            return Err(e);
        },
    };
    let result = read_token_count(store, &address);
    match result {
        None => Ok(TokenCount { total_nft: state.total_nft, owned_nft_number: 0 }),
        Some(c) => Ok(TokenCount { total_nft: state.total_nft, owned_nft_number: c }),
    }
}

/// The configured payment service address.
pub fn query_get_address(store: &Store) -> (r: Result<String, ContractError>)
    ensures
        match r {
            Ok(a) => store.token_address matches Some(s) && a@ == s@,
            Err(e) => store.token_address is None && e == ContractError::ConfigurationMissing,
        },
{
    read_token_address(store)
}

/// The configured registry service address.
pub fn query_nft_address(store: &Store) -> (r: Result<String, ContractError>)
    ensures
        match r {
            Ok(a) => store.nft_address matches Some(s) && a@ == s@,
            Err(e) => store.nft_address is None && e == ContractError::ConfigurationMissing,
        },
{
    read_nft_address(store)
}

/// Every participant's address, in ascending lexicographic order.
pub fn query_get_users(store: &Store) -> (r: Vec<String>)
    ensures
        r.deep_view() == store.participants.deep_view(),
        store.wf() ==> crate::order::spec_strictly_sorted(r.deep_view()),
{
    read_users(store)
}

/// The record of one participant; `NotFound` if the address never received
/// an asset.
pub fn query_user_info(store: &Store, address: String) -> (r: Result<UserInfo, ContractError>)
    ensures
        match r {
            Ok(u) => store.users@.contains_key(address@) && u.address@
                == store.users@[address@].address@ && u.nft@ == store.users@[address@].nft@,
            Err(e) => !store.users@.contains_key(address@) && e == ContractError::NotFound,
        },
{
    match read_user_info(store, &address) {
        Some(u) => Ok(u),
        None => Err(ContractError::NotFound),
    }
}

/// The configured per-participant quota.
pub fn query_maximum_nft(store: &Store) -> (r: Result<u128, ContractError>)
    ensures
        match r {
            Ok(m) => store.maximum_nft == Some(m),
            Err(e) => store.maximum_nft is None && e == ContractError::ConfigurationMissing,
        },
{
    read_maximum_nft(store)
}

/// The global state singleton.
pub fn query_get_info(store: &Store) -> (r: Result<State, ContractError>)
    ensures
        match r {
            Ok(st) => store.state matches Some(s) && st.total_nft == s.total_nft && st.owner@
                == s.owner@,
            Err(e) => store.state is None && e == ContractError::ConfigurationMissing,
        },
{
    config_read(store)
}

/// Dispatches a read-only request: local projections are answered from the
/// store, the three pass-through requests come back as a directive naming
/// the configured service address.
pub fn query(store: &Store, msg: QueryMsg) -> (r: Result<QueryAnswer, ContractError>)
    ensures
        (match msg {
            QueryMsg::GetTokenAddress {} => match r {
                Ok(ans) => ans matches QueryAnswer::TokenAddress(a)
                    && (store.token_address matches Some(s) && a@ == s@),
                Err(e) => store.token_address is None && e == ContractError::ConfigurationMissing,
            },
            QueryMsg::GetNftAddress {} => match r {
                Ok(ans) => ans matches QueryAnswer::NftAddress(a) && (store.nft_address matches
                Some(s) && a@ == s@),
                Err(e) => store.nft_address is None && e == ContractError::ConfigurationMissing,
            },
            QueryMsg::GetAllUsers {} => match r {
                Ok(ans) => ans matches QueryAnswer::Users(us) && us.deep_view()
                    == store.participants.deep_view() && (store.wf()
                    ==> crate::order::spec_strictly_sorted(us.deep_view())),
                Err(_) => false,
            },
            QueryMsg::GetUserInfo { address } => match r {
                Ok(ans) => ans matches QueryAnswer::User(u) && store.users@.contains_key(address@)
                    && u.address@ == store.users@[address@].address@ && u.nft@
                    == store.users@[address@].nft@,
                Err(e) => !store.users@.contains_key(address@) && e == ContractError::NotFound,
            },
            QueryMsg::GetTokenCount { address } => match r {
                Ok(ans) => ans matches QueryAnswer::Count(tc) && (store.state matches Some(st)
                    && tc.total_nft == st.total_nft && tc.owned_nft_number == store.spec_used(
                    address@,
                )),
                Err(e) => store.state is None && e == ContractError::ConfigurationMissing,
            },
            QueryMsg::GetMaximumNft {} => match r {
                Ok(ans) => ans matches QueryAnswer::MaximumNft(m) && store.maximum_nft == Some(m),
                Err(e) => store.maximum_nft is None && e == ContractError::ConfigurationMissing,
            },
            QueryMsg::GetStateInfo {} => match r {
                Ok(ans) => ans matches QueryAnswer::StateInfo(st) && (store.state matches Some(s)
                    && st.total_nft == s.total_nft && st.owner@ == s.owner@),
                Err(e) => store.state is None && e == ContractError::ConfigurationMissing,
            },
            QueryMsg::GetContractInfo {} => match r {
                Ok(ans) => ans matches QueryAnswer::External { contract_addr, request }
                    && (store.nft_address matches Some(s) && contract_addr@ == s@) && request
                    == ExternalQuery::ContractInfo,
                Err(e) => store.nft_address is None && e == ContractError::ConfigurationMissing,
            },
            QueryMsg::GetTokenInfo { address } => match r {
                Ok(ans) => ans matches QueryAnswer::External { contract_addr, request }
                    && (store.nft_address matches Some(s) && contract_addr@ == s@) && (request
                    matches ExternalQuery::Tokens { owner } && owner@ == address@),
                Err(e) => store.nft_address is None && e == ContractError::ConfigurationMissing,
            },
            QueryMsg::GetBalance { address } => match r {
                Ok(ans) => ans matches QueryAnswer::External { contract_addr, request }
                    && (store.token_address matches Some(s) && contract_addr@ == s@) && (request
                    matches ExternalQuery::Balance { address: q } && q@ == address@),
                Err(e) => store.token_address is None && e == ContractError::ConfigurationMissing,
            },
        }),
{
    match msg {
        QueryMsg::GetTokenAddress {} => match query_get_address(store) {
            Ok(a) => Ok(QueryAnswer::TokenAddress(a)),
            Err(e) => Err(e),
        },
        QueryMsg::GetNftAddress {} => match query_nft_address(store) {
            Ok(a) => Ok(QueryAnswer::NftAddress(a)),
            Err(e) => Err(e),
        },
        QueryMsg::GetAllUsers {} => Ok(QueryAnswer::Users(query_get_users(store))),
        QueryMsg::GetUserInfo { address } => match query_user_info(store, address) {
            Ok(u) => Ok(QueryAnswer::User(u)),
            Err(e) => Err(e),
        },
        QueryMsg::GetTokenCount { address } => match query_token_count(store, address) {
            Ok(tc) => Ok(QueryAnswer::Count(tc)),
            Err(e) => Err(e),
        },
        QueryMsg::GetMaximumNft {} => match query_maximum_nft(store) {
            Ok(m) => Ok(QueryAnswer::MaximumNft(m)),
            Err(e) => Err(e),
        },
        QueryMsg::GetStateInfo {} => match query_get_info(store) {
            Ok(st) => Ok(QueryAnswer::StateInfo(st)),
            Err(e) => Err(e),
        },
        QueryMsg::GetContractInfo {} => match query_nft_address(store) {
            Ok(a) => Ok(
                QueryAnswer::External { contract_addr: a, request: ExternalQuery::ContractInfo },
            ),
            Err(e) => Err(e),
        },
        QueryMsg::GetTokenInfo { address } => match query_nft_address(store) {
            Ok(a) => Ok(
                QueryAnswer::External {
                    contract_addr: a,
                    request: ExternalQuery::Tokens { owner: address },
                },
            ),
            Err(e) => Err(e),
        },
        QueryMsg::GetBalance { address } => match query_get_address(store) {
            Ok(a) => Ok(
                QueryAnswer::External {
                    contract_addr: a,
                    request: ExternalQuery::Balance { address },
                },
            ),
            Err(e) => Err(e),
        },
    }
}

} // verus!
