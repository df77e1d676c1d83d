//! The outside types that the client carries, and the outside calls it makes.
use vstd::prelude::*;
use crate::abi::abi_text_admissible;

verus! {

#[verifier::external_type_specification]
#[verifier::external_body]
pub struct ExAddress(web3::types::H160);

#[verifier::external_type_specification]
#[verifier::external_body]
pub struct ExHash(web3::types::H256);

#[verifier::external_type_specification]
#[verifier::external_body]
pub struct ExAmount(web3::types::U256);

#[verifier::external_type_specification]
#[verifier::external_body]
pub struct ExHttp(web3::transports::Http);

#[verifier::external_type_specification]
#[verifier::external_body]
pub struct ExTransportError(web3::Error);

#[verifier::external_type_specification]
#[verifier::external_body]
pub struct ExContractError(web3::contract::Error);

#[verifier::external_type_specification]
#[verifier::external_body]
pub struct ExAbiError(web3::ethabi::Error);

/// The names of the functions that a serialized ABI declares, one entry per
/// declared function (overloads repeat their name), or `None` where the bytes
/// are not a valid ABI.
pub uninterp spec fn abi_function_names(abi: Seq<u8>) -> Option<Seq<Seq<char>>>;

/// Relies on ethabi's `Contract::load`, which parses the bytes as a JSON ABI,
/// and on `Contract::functions`, which lists every declared function. The
/// parser reads each parameter type string by character count and slices it
/// by byte offset, so it is handed only text in the admissible form, on which
/// those agree and every `]` has its `[` before it.
#[verifier::external_body]
pub(crate) fn load_function_names(abi: &[u8]) -> (r: Result<Vec<String>, web3::ethabi::Error>)
    requires
        abi_text_admissible(abi@),
    ensures
        match abi_function_names(abi@) {
            Some(names) => r is Ok && r->Ok_0@.map_values(|s: String| s@) == names,
            None => r is Err,
        },
{
    match web3::ethabi::Contract::load(abi) {
        Ok(c) => Ok(c.functions().map(|f| f.name.clone()).collect()),
        Err(e) => Err(e),
    }
}

/// Whether the text is a URL that the `url` crate parses.
pub uninterp spec fn endpoint_url_parses(url: Seq<char>) -> bool;

/// Relies on web3's `Http::new`, which builds an HTTP client and then parses
/// the endpoint URL, failing where it does not parse; it opens no
/// connection. Whether the client can be built depends on the machine, so
/// nothing is promised of success.
#[verifier::external_body]
pub(crate) fn open_http(rpc_url: &str) -> (r: Result<web3::transports::Http, web3::Error>)
    ensures
        !endpoint_url_parses(rpc_url@) ==> r is Err,
{
    web3::transports::Http::new(rpc_url)
}

} // verus!
