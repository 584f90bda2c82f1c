//! Requests accepted by the core, the outbound calls it produces, and the
//! answers of the query facade. Transport, serialization and address-format
//! validation are the host's concern; everything here is plain values.
use vstd::prelude::*;
use crate::state::{Metadata, Royalty, State, TokenCount, UserInfo};

verus! {

/// The identity a request arrives under.
#[derive(Debug, PartialEq, Eq)]
pub struct MessageInfo {
    pub sender: String,
}

/// Initialization request. It carries nothing: the owner is the sender.
#[derive(Debug, PartialEq, Eq)]
pub struct InstantiateMsg {}

/// The metadata payload carried inside a deposit notification.
#[derive(Debug, PartialEq, Eq)]
pub struct HopeMintMsg {
    pub name: Option<String>,
    pub image_uri: Option<String>,
    pub external_link: Option<String>,
    pub description: Option<String>,
    pub royalties: Option<Vec<Royalty>>,
    pub init_price: Option<u128>,
    pub nft_addr: Option<String>,
}

/// A state-changing request.
#[derive(Debug, PartialEq, Eq)]
#[allow(inconsistent_fields)]
pub enum ExecuteMsg {
    /// A deposit notification: `sender` is the depositing party that will
    /// receive the asset, `amount` the deposited payment tokens, `msg` the
    /// asset metadata.
    Receive { sender: String, amount: u128, msg: HopeMintMsg },
    /// Owner-only: set the payment service address.
    SetTokenAddress { address: String },
    /// Owner-only: set the registry service address.
    SetNftAddress { address: String },
    /// Owner-only: set the per-participant quota.
    SetMaximumNft { amount: u128 },
    /// Direct issuance of payment tokens to the caller.
    BuyToken { amount: i32 },
}

/// A read-only request.
#[derive(Debug, PartialEq, Eq)]
pub enum QueryMsg {
    GetTokenAddress {},
    GetBalance { address: String },
    GetContractInfo {},
    GetTokenInfo { address: String },
    GetTokenCount { address: String },
    GetNftAddress {},
    GetAllUsers {},
    GetUserInfo { address: String },
    GetMaximumNft {},
    GetStateInfo {},
}

/// An outbound call handed back to the host, to be executed in the same
/// atomic unit of work as the state change that produced it.
#[derive(Debug, PartialEq, Eq)]
pub enum OutboundMsg {
    /// Instruct the payment service to transfer `amount` tokens from this
    /// system's balance to `recipient`.
    Transfer { contract_addr: String, recipient: String, amount: u128 },
    /// Instruct the payment service to mint `amount` fresh tokens to
    /// `recipient`.
    MintTokens { contract_addr: String, recipient: String, amount: u128 },
    /// Instruct the registry service to mint a collectible with the given
    /// identifier, owner and metadata.
    MintNft {
        contract_addr: String,
        token_id: String,
        owner: String,
        token_uri: Option<String>,
        extension: Metadata,
    },
}

/// A key-value note attached to a successful result.
#[derive(Debug, PartialEq, Eq)]
pub struct Attribute {
    pub key: String,
    pub value: String,
}

/// The result of a successful state-changing request: the outbound calls the
/// host must execute, in order, and any attached notes.
#[derive(Debug, PartialEq, Eq)]
pub struct Response {
    pub messages: Vec<OutboundMsg>,
    pub attributes: Vec<Attribute>,
}

impl Response {
    /// An empty response: no outbound calls, no notes.
    pub fn new() -> (r: Response)
        ensures
            r.messages@ == Seq::<OutboundMsg>::empty(),
            r.attributes@ == Seq::<Attribute>::empty(),
    {
        Response { messages: Vec::new(), attributes: Vec::new() }
    }

    /// Appends one outbound call.
    pub fn add_message(self, msg: OutboundMsg) -> (r: Response)
        ensures
            r.messages@ == self.messages@.push(msg),
            r.attributes@ == self.attributes@,
    {
        let mut messages = self.messages;
        messages.push(msg);
        Response { messages, attributes: self.attributes }
    }

    /// Appends one note.
    pub fn add_attribute(self, key: String, value: String) -> (r: Response)
        ensures
            r.messages@ == self.messages@,
            r.attributes@ == self.attributes@.push((Attribute { key, value })),
    {
        let mut attributes = self.attributes;
        attributes.push(Attribute { key, value });
        Response { messages: self.messages, attributes }
    }
}

impl Default for Response {
    /// An empty response, as `new` gives it.
    fn default() -> (r: Response)
        ensures
            r.messages@ == Seq::<OutboundMsg>::empty(),
            r.attributes@ == Seq::<Attribute>::empty(),
    {
        Response::new()
    }
}

/// What the query facade answers. Queries that only project the local state
/// carry their value; the three pass-through queries carry the configured
/// service address and the request the host must forward to it.
#[derive(Debug, PartialEq, Eq)]
pub enum QueryAnswer {
    TokenAddress(String),
    NftAddress(String),
    Users(Vec<String>),
    User(UserInfo),
    Count(TokenCount),
    MaximumNft(u128),
    StateInfo(State),
    /// Forward `request` to the service at `contract_addr` and return its
    /// answer verbatim.
    External { contract_addr: String, request: ExternalQuery },
}

/// A read-only request to one of the two downstream services.
#[derive(Debug, PartialEq, Eq)]
pub enum ExternalQuery {
    /// Collection metadata, from the registry service.
    ContractInfo,
    /// The assets owned by `owner`, from the registry service.
    Tokens { owner: String },
    /// The payment-token balance of `address`, from the payment service.
    Balance { address: String },
}

} // verus!
