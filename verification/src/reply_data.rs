use vstd::prelude::*;

verus! {

/// The address that a deployment-completion payload decodes to, if it is a
/// well-formed encoding of an instantiation result. Decoding is a function of
/// the payload bytes alone.
pub uninterp spec fn parsed_instantiate_addr(data: Seq<u8>) -> Option<Seq<char>>;

/// Relies on `cw_utils::parse_instantiate_response_data`: decodes the
/// deployment-completion payload and returns the deployed contract's address,
/// or nothing when the payload is malformed.
#[verifier::external_body]
pub(crate) fn parse_instantiate_addr(data: &Vec<u8>) -> (r: Option<String>)
    ensures
        r is Some <==> parsed_instantiate_addr(data@) is Some,
        r matches Some(a) ==> parsed_instantiate_addr(data@) == Some(a@),
{
    match cw_utils::parse_instantiate_response_data(data.as_slice()) {
        Ok(resp) => Some(resp.contract_address),
        Err(_) => None,
    }
}

} // verus!
