use crate::text::text_of;
use vstd::prelude::*;

verus! {

/// The address of the contract that the chain reports as set up in `data`,
/// as `cw_utils` decodes it; `None` where the data does not decode.
pub uninterp spec fn instantiated_address(data: Seq<u8>) -> Option<Seq<char>>;

/// Calls `cw_utils::parse_instantiate_response_data`, which decodes the
/// protobuf message that the chain returns for a contract it has set up, and
/// keeps the contract's address. Trusted: the result depends on the bytes
/// alone.
#[verifier::external_body]
pub(crate) fn parse_instantiated_address(data: &Vec<u8>) -> (address: Option<String>)
    ensures
        text_of(address) == instantiated_address(data@),
{
    cw_utils::parse_instantiate_response_data(data).ok().map(|response| response.contract_address)
}

} // verus!
