use vstd::prelude::*;
use crate::state::Metadata;

verus! {

/// The inputs of contract creation.
#[derive(Debug, PartialEq, Eq)]
pub struct InstantiateMsg {
    pub owner: String,
    pub denom1: String,
    pub denom2: String,
    pub unit_price1: u128,
    pub unit_price2: u128,
    pub name: String,
    pub symbol: String,
    pub token_code_id: u64,
    pub token_uri: String,
    pub extension: Option<Metadata>,
    pub withdraw_address: Option<String>,
}

/// The operations a caller can request.
#[derive(Debug, PartialEq, Eq)]
pub enum ExecuteMsg {
    Mint { denom: String },
    ChangeStatus { mint_pause: bool },
    ChangePrice { new_price1: Option<u128>, new_price2: Option<u128> },
}

/// The read-only lookups a caller can request.
#[derive(Debug, PartialEq, Eq)]
pub enum QueryMsg {
    GetConfig {},
    BalanceOf { user: String },
}

/// A buyer's mint count.
#[derive(Debug, PartialEq, Eq)]
pub struct BalanceOfResponse {
    pub balance: u128,
}

/// The whole configuration as reported to a caller.
#[derive(Debug, PartialEq, Eq)]
pub struct ConfigResponse {
    pub owner: String,
    pub cw721_address: Option<String>,
    pub denom1: String,
    pub denom2: String,
    pub unit_price1: u128,
    pub uint_price2: u128,
    pub name: String,
    pub symbol: String,
    pub token_uri: String,
    pub total_mint: u128,
    pub extension: Option<Metadata>,
    pub unused_token_id: u32,
}

/// The answer to one query, as a plain value; the host serializes it.
#[derive(Debug, PartialEq, Eq)]
pub enum QueryAnswer {
    Config(ConfigResponse),
    Balance(BalanceOfResponse),
}

} // verus!
