use vstd::prelude::*;

verus! {

/// The ways payment extraction can fail, mirroring the cases that
/// `cw_utils::must_pay` distinguishes: no funds (or a zero amount) attached,
/// more than one denomination attached, or a single coin of the wrong
/// denomination.
#[derive(Debug, Clone, PartialEq, Eq)]
pub enum PaymentError {
    MissingDenom(String),
    ExtraDenom(String),
    MultipleDenoms,
    NoFunds,
    NonPayable,
}

/// Every error an entry point can surface. Each aborts the whole call: the
/// caller sees the error and no state change.
#[derive(Debug, Clone, PartialEq, Eq)]
pub enum ContractError {
    PaymentError(PaymentError),
    Unauthorized,
    NotOwner,
    WrongDenom,
    MintPaused,
    InvalidUnitPrice,
    InvalidMaxTokens,
    SoldOut,
    UnauthorizedTokenContract,
    Uninitialized,
    WrongPaymentAmount,
    InvalidTokenReplyId,
    Cw721NotLinked,
    Cw721AlreadyLinked,
    Cw721CallFailed,
    InvalidReplyData,
}

impl core::convert::From<PaymentError> for ContractError {
    fn from(err: PaymentError) -> (r: ContractError) {
        ContractError::PaymentError(err)
    }
}

impl vstd::std_specs::convert::FromSpecImpl<PaymentError> for ContractError {
    open spec fn obeys_from_spec() -> bool {
        true
    }

    open spec fn from_spec(err: PaymentError) -> ContractError {
        ContractError::PaymentError(err)
    }
}

} // verus!
