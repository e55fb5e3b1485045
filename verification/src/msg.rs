//! The command and query surface: tagged unions keyed by the operation, the
//! plain response records the queries return, and the structured result a
//! successful command produces.

use crate::state::{Expiration, Name, Operator};
use vstd::prelude::*;

verus! {

/// Constructs the global configuration.  A price the message leaves out
/// falls back to the built-in schedule.
#[derive(Clone, Debug, PartialEq)]
pub struct InstantiateMsg {
    pub blocks_per_year: u64,
    pub meta_url: String,
    pub denom: String,
    pub cost_for_6: Option<u64>,
    pub cost_for_5: Option<u64>,
    pub cost_for_4: Option<u64>,
    pub cost_for_3: Option<u64>,
    pub cost_for_2: Option<u64>,
    pub cost_for_1: Option<u64>,
}

/// One command against the registry.
#[derive(Clone, Debug, PartialEq)]
pub enum ExecuteMsg {
    SetBlocksPerYear { blocks_per_year: u64 },
    SetOwner { owner: String },
    RegisterName {
        name: String,
        years: u64,
        avatar_url: Option<String>,
        secret_address: Option<String>,
        crypto_org_address: Option<String>,
        starname_address: Option<String>,
        persistence_address: Option<String>,
        kava_address: Option<String>,
        terra_address: Option<String>,
        website: Option<String>,
        email: Option<String>,
        twitter: Option<String>,
        telegram: Option<String>,
        discord: Option<String>,
        instagram: Option<String>,
        reddit: Option<String>,
    },
    AddTime { name: String, years: u64 },
    UpdateParams {
        name: String,
        avatar_url: Option<String>,
        secret_address: Option<String>,
        crypto_org_address: Option<String>,
        starname_address: Option<String>,
        persistence_address: Option<String>,
        kava_address: Option<String>,
        terra_address: Option<String>,
        website: Option<String>,
        email: Option<String>,
        twitter: Option<String>,
        telegram: Option<String>,
        discord: Option<String>,
        instagram: Option<String>,
        reddit: Option<String>,
    },
    /// Transfer the name to a new holder.
    TransferNft { recipient: String, token_id: String },
    /// Transfer the name to a contract, carrying an opaque payload the host
    /// must find well-formed before the transfer is attempted.
    SendNft { contract: String, token_id: String, message: Vec<u8> },
    /// Grant a delegate transfer rights over this one name; an expiration,
    /// if supplied, must lie strictly in the future.
    Approve { spender: String, token_id: String, expires: Option<Expiration> },
    /// Remove a previously granted per-name approval.
    Revoke { spender: String, token_id: String },
    /// Grant a delegate transfer rights over all of the caller's names.
    ApproveAll { operator: String, expires: Option<Expiration> },
    /// Clear every blanket grant stored under the caller.
    RevokeAll { operator: String },
    /// Send the contract's whole held balance to the admin.
    WithdrawBalance {},
}

/// One read-only query against the registry.
#[derive(Clone, Debug, PartialEq)]
pub enum QueryMsg {
    GetOwner {},
    GetBlocksPerYear {},
    ResolveName { name: String },
    ResolveAttributes { name: String },
    OwnerOf { token_id: String },
    /// List the blanket operators stored under an owner.
    ApprovedForAll { owner: String, start_after: Option<String>, limit: Option<u32> },
    NumTokens {},
    ContractInfo {},
    NftInfo { token_id: String },
}

#[derive(Clone, Debug, PartialEq)]
pub struct BlocksResponse {
    pub blocks_per_year: u64,
}

#[derive(Clone, Debug, PartialEq)]
pub struct OwnerResponse {
    pub owner: String,
}

#[derive(Clone, Debug, PartialEq)]
pub struct NameResponse {
    pub name: Name,
}

#[derive(Clone, Debug, PartialEq)]
pub struct ApprovedForAllResponse {
    pub operators: Vec<Operator>,
}

#[derive(Clone, Debug, PartialEq)]
pub struct NumTokensResponse {
    pub tokens: u32,
}

#[derive(Clone, Debug, PartialEq)]
pub struct ContractInfoResponse {
    pub name: String,
    pub symbol: String,
}

#[derive(Clone, Debug, PartialEq)]
pub struct NftInfoResponse {
    pub name: String,
    pub description: String,
    pub image: String,
}

/// The structured answer of one query.
#[derive(Clone, Debug, PartialEq)]
pub enum QueryAnswer {
    Blocks(BlocksResponse),
    Owner(OwnerResponse),
    Name(NameResponse),
    ApprovedForAll(ApprovedForAllResponse),
    NumTokens(NumTokensResponse),
    ContractInfo(ContractInfoResponse),
    NftInfo(NftInfoResponse),
}

/// One key-value attribute decorating a successful command's result.
#[derive(Clone, Debug, PartialEq)]
pub struct Attribute {
    pub key: String,
    pub value: String,
}

/// An instruction to the host to send the contract's entire held balance to
/// an address.  The balance itself is host state; the core only names the
/// recipient.
#[derive(Clone, Debug, PartialEq)]
pub struct BankSend {
    pub to_address: String,
}

/// What a successful command hands back to the host: bank instructions to
/// perform and attributes to record.
#[derive(Clone, Debug, PartialEq)]
pub struct Response {
    pub messages: Vec<BankSend>,
    pub attributes: Vec<Attribute>,
}

} // verus!
