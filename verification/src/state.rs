//! Ledger state: the global singleton, admin configuration, and the
//! per-participant records, together with their well-formedness invariant.
use vstd::prelude::*;
use vstd::hash_map::StringHashMap;
use crate::error::ContractError;
use crate::order::{lemma_sorted_insert_at, spec_sorted_insert, spec_str_lt, spec_strictly_sorted, str_lt};
use crate::NFT_CEILING;

verus! {

/// Global singleton: how many assets were issued so far, and who owns the
/// system. The owner is fixed at initialization and never changes.
#[derive(Debug, PartialEq, Eq)]
pub struct State {
    pub total_nft: u128,
    pub owner: String,
}

impl Clone for State {
    fn clone(&self) -> (res: Self)
        ensures
            res.total_nft == self.total_nft,
            res.owner@ == self.owner@,
    {
        State { total_nft: self.total_nft, owner: self.owner.clone() }
    }
}

/// One royalty entry forwarded verbatim to the registry service. The rate is
/// a fixed-point fraction given in atomic units (18 fractional digits).
#[derive(Debug, PartialEq, Eq)]
pub struct Royalty {
    pub address: String,
    pub royalty_rate: u128,
}

impl Clone for Royalty {
    fn clone(&self) -> (res: Self)
        ensures
            res.address@ == self.address@,
            res.royalty_rate == self.royalty_rate,
    {
        Royalty { address: self.address.clone(), royalty_rate: self.royalty_rate }
    }
}

/// Answer to a per-participant count query: the participant's own count next
/// to the global counter.
#[derive(Debug, PartialEq, Eq)]
pub struct TokenCount {
    pub owned_nft_number: u128,
    pub total_nft: u128,
}

/// Per-participant record: the participant's address and the identifiers of
/// the assets issued to it, in order of issuance.
#[derive(Debug, PartialEq, Eq)]
pub struct UserInfo {
    pub address: String,
    pub nft: Vec<String>,
}

impl Clone for UserInfo {
    fn clone(&self) -> (res: Self)
        ensures
            res.address@ == self.address@,
            res.nft@ == self.nft@,
    {
        let nft = self.nft.clone();
        proof {
            assert(nft@ =~= self.nft@);
        }
        UserInfo { address: self.address.clone(), nft }
    }
}

/// Asset metadata forwarded verbatim to the registry service.
#[derive(Debug, PartialEq, Eq)]
pub struct Metadata {
    pub name: Option<String>,
    pub description: Option<String>,
    pub external_link: Option<String>,
    pub royalties: Option<Vec<Royalty>>,
    pub init_price: Option<u128>,
}

/// The whole durable key-value state of the system: singletons for the
/// global state and the admin configuration, and the per-participant maps.
pub struct Store {
    /// Global singleton; absent until initialization.
    pub state: Option<State>,
    /// Address of the payment ledger service; absent until the owner sets it.
    pub token_address: Option<String>,
    /// Address of the collectible registry service; absent until the owner sets it.
    pub nft_address: Option<String>,
    /// Per-participant quota; absent until the owner sets it.
    pub maximum_nft: Option<u128>,
    /// Per-participant records, keyed by participant address.
    pub users: StringHashMap<UserInfo>,
    /// Per-participant issued counts, keyed by participant address.
    pub token_counts: StringHashMap<u128>,
    /// Participant addresses in ascending lexicographic order; mirrors the
    /// keys of `users` so that they can be listed.
    pub participants: Vec<String>,
}

impl Store {
    /// The number of assets issued to `b` so far, with absence read as zero.
    pub open spec fn spec_used(self, b: Seq<char>) -> u128 {
        if self.token_counts@.contains_key(b) {
            self.token_counts@[b]
        } else {
            0
        }
    }

    /// The identifiers issued to `b` so far, with absence read as empty.
    pub open spec fn spec_assets(self, b: Seq<char>) -> Seq<Seq<char>> {
        if self.users@.contains_key(b) {
            self.users@[b].nft.deep_view()
        } else {
            Seq::empty()
        }
    }

    /// Well-formedness: the two per-participant maps share one key set, each
    /// record's length equals its independent counter, each record carries
    /// its own key as address, the participant list mirrors the key set in
    /// ascending lexicographic order, and the global counter never exceeds
    /// the ceiling.
    pub open spec fn wf(self) -> bool {
        &&& forall|a: Seq<char>|
            #![trigger self.users@.contains_key(a)]
            #![trigger self.token_counts@.contains_key(a)]
            self.users@.contains_key(a) <==> self.token_counts@.contains_key(a)
        &&& forall|a: Seq<char>| self.users@.contains_key(a) ==> (#[trigger] self.users@[a]).nft@.len()
            == self.token_counts@[a]
        &&& forall|a: Seq<char>| self.users@.contains_key(a) ==> (#[trigger] self.users@[a]).address@
            == a
        &&& spec_strictly_sorted(self.participants.deep_view())
        &&& self.participants.deep_view().to_set() == self.users@.dom()
        &&& (self.state matches Some(st) ==> st.total_nft <= NFT_CEILING)
    }

    /// A store with nothing written yet, as the host hands it to
    /// initialization.
    pub fn new() -> (s: Store)
        ensures
            s.state is None,
            s.token_address is None,
            s.nft_address is None,
            s.maximum_nft is None,
            s.users@ == Map::<Seq<char>, UserInfo>::empty(),
            s.token_counts@ == Map::<Seq<char>, u128>::empty(),
            s.participants@ == Seq::<String>::empty(),
            s.wf(),
    {
        let s = Store {
            state: None,
            token_address: None,
            nft_address: None,
            maximum_nft: None,
            users: StringHashMap::new(),
            token_counts: StringHashMap::new(),
            participants: Vec::new(),
        };
        proof {
            assert(s.participants.deep_view() =~= Seq::<Seq<char>>::empty());
            assert(s.participants.deep_view().to_set() =~= s.users@.dom());
        }
        s
    }
}

/// Stores the global state singleton, overwriting any earlier value.
pub fn config(store: &mut Store, state: State)
    ensures
        final(store).state == Some(state),
        final(store).token_address == old(store).token_address,
        final(store).nft_address == old(store).nft_address,
        final(store).maximum_nft == old(store).maximum_nft,
        final(store).users == old(store).users,
        final(store).token_counts == old(store).token_counts,
        final(store).participants == old(store).participants,
{
    store.state = Some(state);
}

/// Loads the global state singleton; a configuration error if it was never
/// stored.
pub fn config_read(store: &Store) -> (r: Result<State, ContractError>)
    ensures
        match r {
            Ok(st) => store.state matches Some(s) && st.total_nft == s.total_nft && st.owner@
                == s.owner@,
            Err(e) => store.state is None && e == ContractError::ConfigurationMissing,
        },
{
    match &store.state {
        Some(st) => Ok(st.clone()),
        None => Err(ContractError::ConfigurationMissing),
    }
}

/// Stores the per-participant quota, overwriting any earlier value.
pub fn store_maximum_nft(store: &mut Store, maximum: u128)
    ensures
        final(store).maximum_nft == Some(maximum),
        final(store).state == old(store).state,
        final(store).token_address == old(store).token_address,
        final(store).nft_address == old(store).nft_address,
        final(store).users == old(store).users,
        final(store).token_counts == old(store).token_counts,
        final(store).participants == old(store).participants,
{
    store.maximum_nft = Some(maximum);
}

/// Loads the per-participant quota; a configuration error if it was never
/// set.
pub fn read_maximum_nft(store: &Store) -> (r: Result<u128, ContractError>)
    ensures
        match r {
            Ok(m) => store.maximum_nft == Some(m),
            Err(e) => store.maximum_nft is None && e == ContractError::ConfigurationMissing,
        },
{
    match store.maximum_nft {
        Some(m) => Ok(m),
        None => Err(ContractError::ConfigurationMissing),
    }
}

/// Stores the payment service address, overwriting any earlier value.
pub fn store_token_address(store: &mut Store, token_address: String)
    ensures
        final(store).token_address matches Some(a) && a@ == token_address@,
        final(store).state == old(store).state,
        final(store).nft_address == old(store).nft_address,
        final(store).maximum_nft == old(store).maximum_nft,
        final(store).users == old(store).users,
        final(store).token_counts == old(store).token_counts,
        final(store).participants == old(store).participants,
{
    store.token_address = Some(token_address);
}

/// Loads the payment service address; a configuration error if it was never
/// set.
pub fn read_token_address(store: &Store) -> (r: Result<String, ContractError>)
    ensures
        match r {
            Ok(a) => store.token_address matches Some(s) && a@ == s@,
            Err(e) => store.token_address is None && e == ContractError::ConfigurationMissing,
        },
{
    match &store.token_address {
        Some(a) => Ok(a.clone()),
        None => Err(ContractError::ConfigurationMissing),
    }
}

/// Stores the registry service address, overwriting any earlier value.
pub fn store_nft_address(store: &mut Store, nft_address: String)
    ensures
        final(store).nft_address matches Some(a) && a@ == nft_address@,
        final(store).state == old(store).state,
        final(store).token_address == old(store).token_address,
        final(store).maximum_nft == old(store).maximum_nft,
        final(store).users == old(store).users,
        final(store).token_counts == old(store).token_counts,
        final(store).participants == old(store).participants,
{
    store.nft_address = Some(nft_address);
}

/// Loads the registry service address; a configuration error if it was never
/// set.
pub fn read_nft_address(store: &Store) -> (r: Result<String, ContractError>)
    ensures
        match r {
            Ok(a) => store.nft_address matches Some(s) && a@ == s@,
            Err(e) => store.nft_address is None && e == ContractError::ConfigurationMissing,
        },
{
    match &store.nft_address {
        Some(a) => Ok(a.clone()),
        None => Err(ContractError::ConfigurationMissing),
    }
}

/// The index of the first listed participant that does not come before
/// `user` in the lexicographic order.
fn insert_position(parts: &Vec<String>, user: &String) -> (k: usize)
    ensures
        k <= parts.len(),
        forall|j: int| 0 <= j < k ==> spec_str_lt(#[trigger] parts.deep_view()[j], user@),
        k < parts.len() ==> !spec_str_lt(parts.deep_view()[k as int], user@),
{
    let mut k: usize = 0;
    while k < parts.len()
        invariant
            k <= parts.len(),
            forall|j: int| 0 <= j < k ==> spec_str_lt(#[trigger] parts.deep_view()[j], user@),
        decreases parts.len() - k,
    {
        if !str_lt(parts[k].as_str(), user.as_str()) {
            return k;
        }
        k = k + 1;
    }
    k
}

/// Writes `user_info` as the record of `user`, keeping the participant list
/// in step with the record map's key set: a first-time participant is
/// placed at its position in the lexicographic order.
pub fn store_users(store: &mut Store, user: &String, user_info: UserInfo)
    ensures
        final(store).users@ == old(store).users@.insert(user@, user_info),
        old(store).users@.contains_key(user@) ==> final(store).participants@ == old(
            store,
        ).participants@,
        !old(store).users@.contains_key(user@) ==> final(store).participants.deep_view()
            == spec_sorted_insert(old(store).participants.deep_view(), user@),
        final(store).state == old(store).state,
        final(store).token_address == old(store).token_address,
        final(store).nft_address == old(store).nft_address,
        final(store).maximum_nft == old(store).maximum_nft,
        final(store).token_counts == old(store).token_counts,
{
    if !store.users.contains_key(user.as_str()) {
        let ghost pd = store.participants.deep_view();
        let k = insert_position(&store.participants, user);
        store.participants.insert(k, user.clone());
        proof {
            lemma_sorted_insert_at(pd, user@, k as int);
            assert(store.participants.deep_view() =~= pd.take(k as int) + seq![user@] + pd.skip(
                k as int,
            ));
        }
    }
    store.users.insert(user.clone(), user_info);
}

/// Loads the record of `user`, if one exists.
pub fn read_user_info(store: &Store, user: &String) -> (r: Option<UserInfo>)
    ensures
        match r {
            Some(u) => store.users@.contains_key(user@) && u.address@
                == store.users@[user@].address@ && u.nft@ == store.users@[user@].nft@,
            None => !store.users@.contains_key(user@),
        },
{
    match store.users.get(user.as_str()) {
        Some(u) => Some(u.clone()),
        None => None,
    }
}

/// Lists every participant's address, in ascending lexicographic order.
pub fn read_users(store: &Store) -> (r: Vec<String>)
    ensures
        r.deep_view() == store.participants.deep_view(),
        store.wf() ==> spec_strictly_sorted(r.deep_view()),
{
    let r = store.participants.clone();
    proof {
        assert(r.deep_view() =~= store.participants.deep_view());
    }
    r
}

/// Writes the issued count of `user`, overwriting any earlier value.
pub fn store_token_count(store: &mut Store, user: &String, token_count: u128)
    ensures
        final(store).token_counts@ == old(store).token_counts@.insert(user@, token_count),
        final(store).state == old(store).state,
        final(store).token_address == old(store).token_address,
        final(store).nft_address == old(store).nft_address,
        final(store).maximum_nft == old(store).maximum_nft,
        final(store).users == old(store).users,
        final(store).participants == old(store).participants,
{
    store.token_counts.insert(user.clone(), token_count);
}

/// Loads the issued count of `user`, if one was ever written.
pub fn read_token_count(store: &Store, user: &String) -> (r: Option<u128>)
    ensures
        match r {
            Some(c) => store.token_counts@.contains_key(user@) && c == store.token_counts@[user@],
            None => !store.token_counts@.contains_key(user@),
        },
{
    match store.token_counts.get(user.as_str()) {
        Some(c) => Some(*c),
        None => None,
    }
}

} // verus!
