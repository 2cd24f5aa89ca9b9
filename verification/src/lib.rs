//! A fixed-price NFT sale contract, verified.
//!
//! The contract deploys a companion token contract, binds its address exactly
//! once via a deferred completion callback, and then sells minting rights for
//! a configured price payable in one of two accepted currencies. Proceeds are
//! forwarded to the owner and a mint instruction is addressed to the bound
//! token contract.
//!
//! The host runs each entry point as one serialized, all-or-nothing
//! transaction. The library therefore models an entry point as a function
//! from the contract's durable state and the call's inputs to the new state
//! and the outbound instructions; any error leaves the state untouched.

pub mod contract;
pub mod error;
pub mod msg;
pub mod numfmt;
pub mod payment;
pub mod reply_data;
pub mod response;
pub mod state;
