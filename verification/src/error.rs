//! The ways a call is rejected.

use vstd::prelude::*;

verus! {

/// The error type of the host's standard library. Its content is opaque here:
/// a value is only ever carried from the call that reported it to the caller.
#[verifier::external_type_specification]
#[verifier::external_body]
pub struct ExStdError(cosmwasm_std::StdError);

/// Why a call was rejected. A rejected call leaves the storage as it was.
#[derive(Debug)]
pub enum ContractError {
    /// An error of the host's standard library, handed on by a settlement that
    /// was given it in place of an encoded message.
    Std(cosmwasm_std::StdError),
    /// The caller lacks the role that the operation asks for.
    Unauthorized {},
    /// Kept for callers that match on it; no operation reports it.
    PortionError {},
    /// A deposit notification came from an address other than the configured
    /// NFT contract.
    WrongNFTContractError {},
    /// A payment notification came from an address other than the configured
    /// token contract.
    WrongTokenContractError {},
    /// Kept for callers that match on it; no operation reports it.
    NoData {},
    /// The payment is below the list price, or in another currency.
    NotEnoughFunds {},
    /// Kept for callers that match on it; no operation reports it.
    Expired { end_height: Option<u64>, end_time: Option<u64> },
    /// Kept for callers that match on it; no operation reports it.
    NotExpired {},
    /// No offering is listed under the given id.
    OfferingNotFound {},
    /// The payload of a notification did not decode to the request expected.
    MalformedPayload {},
    /// The host's address validator rejected an address.
    InvalidAddress {},
    /// The configuration record has not been written yet.
    Uninitialized {},
}

} // verus!
