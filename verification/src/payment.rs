use vstd::prelude::*;
use crate::error::PaymentError;

verus! {

/// One attached payment: an amount of a single denomination.
#[derive(Debug, PartialEq, Eq)]
pub struct Coin {
    pub denom: String,
    pub amount: u128,
}

/// What payment extraction accepts: exactly one coin attached, of the
/// requested denomination, with a nonzero amount.
pub open spec fn pay_ok(funds: Seq<Coin>, denom: Seq<char>) -> bool {
    funds.len() == 1 && funds[0].amount != 0 && funds[0].denom@ == denom
}

/// The error that names the denomination the caller should have sent.
pub open spec fn missing_denom_err(r: Result<u128, PaymentError>, denom: Seq<char>) -> bool {
    r matches Err(PaymentError::MissingDenom(d)) && d@ == denom
}

/// Relies on `cw_utils::must_pay`: returns the attached amount when the funds
/// are exactly one coin of the requested denomination with a nonzero amount;
/// otherwise reports no funds (also for a zero amount), several
/// denominations, or a missing denomination, as its source distinguishes
/// them.
#[verifier::external_body]
pub(crate) fn must_pay(funds: &Vec<Coin>, denom: &String) -> (r: Result<u128, PaymentError>)
    ensures
        r is Ok <==> pay_ok(funds@, denom@),
        pay_ok(funds@, denom@) ==> r is Ok && r->Ok_0 == funds@[0].amount,
        funds@.len() == 0 ==> r matches Err(PaymentError::NoFunds),
        funds@.len() == 1 && funds@[0].amount == 0 ==> r matches Err(PaymentError::NoFunds),
        funds@.len() > 1 ==> r matches Err(PaymentError::MultipleDenoms),
        funds@.len() == 1 && funds@[0].amount != 0 && funds@[0].denom@ != denom@
            ==> missing_denom_err(r, denom@),
{
    let info = cosmwasm_std::MessageInfo {
        sender: cosmwasm_std::Addr::unchecked(""),
        funds: funds.iter().map(|c| cosmwasm_std::Coin::new(c.amount, c.denom.clone())).collect(),
    };
    match cw_utils::must_pay(&info, denom.as_str()) {
        Ok(a) => Ok(a.u128()),
        Err(cw_utils::PaymentError::MissingDenom(d)) => Err(PaymentError::MissingDenom(d)),
        Err(cw_utils::PaymentError::ExtraDenom(d)) => Err(PaymentError::ExtraDenom(d)),
        Err(cw_utils::PaymentError::MultipleDenoms {}) => Err(PaymentError::MultipleDenoms),
        Err(cw_utils::PaymentError::NoFunds {}) => Err(PaymentError::NoFunds),
        Err(cw_utils::PaymentError::NonPayable {}) => Err(PaymentError::NonPayable),
    }
}

} // verus!
