use vstd::prelude::*;
use crate::state::Metadata;

verus! {

/// One observability attribute of a response.
#[derive(Debug, PartialEq, Eq)]
pub struct Attribute {
    pub key: String,
    pub value: String,
}

/// An outbound instruction requested by an entry point. The host executes the
/// instructions of one call in the order they stand in the response, within
/// the same atomic transaction tree.
#[derive(Debug, PartialEq, Eq)]
pub enum Instruction {
    /// Deploy the companion token contract; the completion signal comes back
    /// tagged with `reply_id`.
    InstantiateToken {
        code_id: u64,
        name: String,
        symbol: String,
        minter: Option<String>,
        withdraw_address: Option<String>,
        label: String,
        reply_id: u64,
    },
    /// Instruct the linked token contract to mint one token.
    MintToken {
        contract: String,
        token_id: String,
        owner: String,
        token_uri: Option<String>,
        extension: Option<Metadata>,
    },
    /// Forward received funds to a recipient.
    SendFunds { to_address: String, amount: u128, denom: String },
}

/// What one successful entry-point call hands back to the host: the outbound
/// instructions and the attributes that describe the call.
#[derive(Debug, PartialEq, Eq)]
pub struct Response {
    pub messages: Vec<Instruction>,
    pub attributes: Vec<Attribute>,
}

impl Response {
    /// A response with no instructions and no attributes.
    pub fn new() -> (r: Response)
        ensures
            r.messages@.len() == 0,
            r.attributes@.len() == 0,
    {
        Response { messages: Vec::new(), attributes: Vec::new() }
    }
}

} // verus!
