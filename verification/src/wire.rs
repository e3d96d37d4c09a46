//! Encoding of the messages sent to the NFT contract and to the token contract.

use vstd::prelude::*;

verus! {

/// The encoded `transfer_nft` message of the NFT contract, which hands the
/// token `token_id` to `recipient`.
pub uninterp spec fn transfer_nft_json(recipient: Seq<char>, token_id: Seq<char>) -> Seq<u8>;

/// The encoded `transfer` message of the token contract, which pays `amount`
/// tokens to `recipient`.
pub uninterp spec fn transfer_json(recipient: Seq<char>, amount: u128) -> Seq<u8>;

/// Calls `cosmwasm_std::to_binary` on `cw721::Cw721ExecuteMsg::TransferNft`.
/// The call succeeds: the encoder has no failing path for a message of two
/// strings. Its bytes depend on the two strings alone.
#[verifier::external_body]
pub(crate) fn transfer_nft_binary(recipient: &String, token_id: &String) -> (r: Result<
    Vec<u8>,
    cosmwasm_std::StdError,
>)
    ensures
        r is Ok,
        r matches Ok(bytes) ==> bytes@ == transfer_nft_json(recipient@, token_id@),
{
    let msg = cw721::Cw721ExecuteMsg::TransferNft {
        recipient: recipient.clone(),
        token_id: token_id.clone(),
    };
    match cosmwasm_std::to_binary(&msg) {
        Ok(binary) => Ok(binary.0),
        Err(e) => Err(e),
    }
}

/// Calls `cosmwasm_std::to_binary` on `cw20::Cw20ExecuteMsg::Transfer`. The
/// call succeeds: the encoder has no failing path for a message of a string
/// and an amount, which it writes as a decimal string. Its bytes depend on
/// the recipient and the amount alone.
#[verifier::external_body]
pub(crate) fn transfer_binary(recipient: &String, amount: u128) -> (r: Result<
    Vec<u8>,
    cosmwasm_std::StdError,
>)
    ensures
        r is Ok,
        r matches Ok(bytes) ==> bytes@ == transfer_json(recipient@, amount),
{
    let msg = cw20::Cw20ExecuteMsg::Transfer {
        recipient: recipient.clone(),
        amount: cosmwasm_std::Uint128::new(amount),
    };
    match cosmwasm_std::to_binary(&msg) {
        Ok(binary) => Ok(binary.0),
        Err(e) => Err(e),
    }
}

} // verus!
