//! The rules of the offering lifecycle: on which inputs an operation is
//! rejected and with which error, and what an accepted operation changes and
//! hands back. The operations themselves are stated against these.

use vstd::prelude::*;
use crate::decimal::decimal;
use crate::error::ContractError;
use crate::host::{
    AttributeView, BankMsgView, CoinView, CosmosMsgView, Response, ResponseView, WasmMsgView,
};
use crate::msg::{Cw20ReceiveMsgView, Cw721ReceiveMsgView};
use crate::state::{OfferingView, StateView, StorageView};
use crate::wire::{transfer_json, transfer_nft_json};

verus! {

/// The denomination that marks a price as one in the marketplace token.
pub open spec fn token_denom() -> Seq<char> {
    "hope"@
}

/// The amount of the first coin of `denom` among `funds` from position `from`
/// on; zero where there is none.
pub open spec fn attached_from(funds: Seq<CoinView>, denom: Seq<char>, from: int) -> u128
    decreases funds.len() - from,
{
    if from < 0 || from >= funds.len() {
        0
    } else if funds[from].denom == denom {
        funds[from].amount
    } else {
        attached_from(funds, denom, from + 1)
    }
}

/// The amount sent along in `denom`: that of the first coin of that
/// denomination, zero where there is none.
pub open spec fn attached(funds: Seq<CoinView>, denom: Seq<char>) -> u128 {
    attached_from(funds, denom, 0)
}

/// The instruction to call the contract at `contract_addr` with the encoded
/// message `msg`, sending no coins along.
pub open spec fn contract_call(contract_addr: Seq<char>, msg: Seq<u8>) -> CosmosMsgView {
    CosmosMsgView::Wasm(WasmMsgView::Execute { contract_addr, msg, funds: Seq::empty() })
}

/// The instruction to the NFT contract at `nft_address` to hand `token_id` to
/// `recipient`.
pub open spec fn item_transfer(
    nft_address: Seq<char>,
    recipient: Seq<char>,
    token_id: Seq<char>,
) -> CosmosMsgView {
    contract_call(nft_address, transfer_nft_json(recipient, token_id))
}

/// The instruction to the token contract at `token_address` to pay `amount`
/// tokens to `recipient`.
pub open spec fn token_payment(
    token_address: Seq<char>,
    recipient: Seq<char>,
    amount: u128,
) -> CosmosMsgView {
    contract_call(token_address, transfer_json(recipient, amount))
}

/// The instruction to the bank to pay `amount` of the coin `denom` to
/// `recipient`.
pub open spec fn coin_payment(recipient: Seq<char>, denom: Seq<char>, amount: u128) -> CosmosMsgView {
    CosmosMsgView::Bank(
        BankMsgView::Send { to_address: recipient, amount: seq![CoinView { denom, amount }] },
    )
}

/// A response that holds the given instructions and no attribute.
pub open spec fn instructions(messages: Seq<CosmosMsgView>) -> ResponseView {
    ResponseView { messages, attributes: Seq::empty() }
}

/// The storage once `id` has left the offering store.
pub open spec fn without_offering(pre: StorageView, id: Seq<char>) -> StorageView {
    StorageView { offerings: pre.offerings.remove(id), ..pre }
}

/// How a call ended: it was rejected with exactly the error that
/// `rejection` names and changed nothing, or, where `rejection` names none,
/// it was accepted, left the storage as `effect` and handed back `response`.
pub open spec fn decided(
    pre: StorageView,
    post: StorageView,
    r: Result<Response, ContractError>,
    rejection: Option<ContractError>,
    effect: StorageView,
    response: ResponseView,
) -> bool {
    match r {
        Ok(resp) => rejection is None && post == effect && resp@ == response,
        Err(e) => post == pre && rejection == Some(e),
    }
}

// Setting up

/// The configuration record of a marketplace that `owner` has just set up.
pub open spec fn initial_state(owner: Seq<char>) -> StateView {
    StateView {
        owner,
        token_address: Seq::empty(),
        nft_address: Seq::empty(),
        offering_id: 0,
    }
}

/// The storage once `owner` has set the marketplace up.
pub open spec fn instantiated(pre: StorageView, owner: Seq<char>) -> StorageView {
    StorageView { config: Some(initial_state(owner)), ..pre }
}

// Listing

/// Why a deposit notification is turned down, if it is.
pub open spec fn listing_rejection(
    pre: StorageView,
    caller: Seq<char>,
    notice: Cw721ReceiveMsgView,
    sender_valid: bool,
) -> Option<ContractError> {
    if pre.config is None {
        Some(ContractError::Uninitialized {  })
    } else if caller != pre.config->0.nft_address {
        Some(ContractError::WrongNFTContractError {  })
    } else if notice.msg is None {
        Some(ContractError::MalformedPayload {  })
    } else if !sender_valid {
        Some(ContractError::InvalidAddress {  })
    } else {
        None
    }
}

/// The id that the next listing gets.
pub open spec fn next_id(pre: StorageView) -> Seq<char> {
    decimal((pre.config->0.offering_id + 1) as nat)
}

/// The storage once the deposit has been listed: the counter has gone up by
/// one, and the new offering stands under the counter's decimal text.
pub open spec fn listed(pre: StorageView, notice: Cw721ReceiveMsgView) -> StorageView {
    let state = pre.config->0;
    StorageView {
        config: Some(StateView { offering_id: (state.offering_id + 1) as u64, ..state }),
        offerings: pre.offerings.insert(
            next_id(pre),
            OfferingView {
                token_id: notice.token_id,
                seller: notice.sender,
                list_price: notice.msg->0.list_price,
            },
        ),
    }
}

/// What an accepted listing hands back: no instruction, and the price in the
/// log.
pub open spec fn listing_response(notice: Cw721ReceiveMsgView) -> ResponseView {
    ResponseView {
        messages: Seq::empty(),
        attributes: seq![
            AttributeView {
                key: "price_string"@,
                value: decimal(notice.msg->0.list_price.amount as nat) + " "@,
            },
        ],
    }
}

// Buying with tokens

/// Why a payment notification is turned down, if it is.
pub open spec fn token_purchase_rejection(
    pre: StorageView,
    caller: Seq<char>,
    notice: Cw20ReceiveMsgView,
    sender_valid: bool,
) -> Option<ContractError> {
    if pre.config is None {
        Some(ContractError::Uninitialized {  })
    } else if caller != pre.config->0.token_address {
        Some(ContractError::WrongTokenContractError {  })
    } else if notice.msg is None {
        Some(ContractError::MalformedPayload {  })
    } else if !pre.offerings.contains_key(notice.msg->0.offering_id) {
        Some(ContractError::OfferingNotFound {  })
    } else if pre.offerings[notice.msg->0.offering_id].list_price.denom != token_denom() {
        Some(ContractError::NotEnoughFunds {  })
    } else if pre.offerings[notice.msg->0.offering_id].list_price.amount > notice.amount {
        Some(ContractError::NotEnoughFunds {  })
    } else if !sender_valid {
        Some(ContractError::InvalidAddress {  })
    } else {
        None
    }
}

/// What an accepted token purchase hands back: the item goes to the buyer,
/// and all the tokens received go to the seller.
pub open spec fn token_purchase_response(
    pre: StorageView,
    notice: Cw20ReceiveMsgView,
) -> ResponseView {
    let state = pre.config->0;
    let offering = pre.offerings[notice.msg->0.offering_id];
    instructions(
        seq![
            item_transfer(state.nft_address, notice.sender, offering.token_id),
            token_payment(state.token_address, offering.seller, notice.amount),
        ],
    )
}

// Buying with coins

/// Why a purchase with coins is turned down, if it is.
pub open spec fn purchase_rejection(
    pre: StorageView,
    funds: Seq<CoinView>,
    id: Seq<char>,
) -> Option<ContractError> {
    if !pre.offerings.contains_key(id) {
        Some(ContractError::OfferingNotFound {  })
    } else if attached(funds, pre.offerings[id].list_price.denom)
        < pre.offerings[id].list_price.amount {
        Some(ContractError::NotEnoughFunds {  })
    } else if pre.config is None {
        Some(ContractError::Uninitialized {  })
    } else {
        None
    }
}

/// What an accepted purchase with coins hands back: the item goes to the
/// buyer, and the list price, no more, goes to the seller.
pub open spec fn purchase_response(pre: StorageView, buyer: Seq<char>, id: Seq<char>) -> ResponseView {
    let state = pre.config->0;
    let offering = pre.offerings[id];
    instructions(
        seq![
            item_transfer(state.nft_address, buyer, offering.token_id),
            coin_payment(offering.seller, offering.list_price.denom, offering.list_price.amount),
        ],
    )
}

// Withdrawing

/// Why a withdrawal is turned down, if it is.
pub open spec fn withdrawal_rejection(
    pre: StorageView,
    caller: Seq<char>,
    id: Seq<char>,
) -> Option<ContractError> {
    if !pre.offerings.contains_key(id) {
        Some(ContractError::OfferingNotFound {  })
    } else if pre.offerings[id].seller != caller {
        Some(ContractError::Unauthorized {  })
    } else if pre.config is None {
        Some(ContractError::Uninitialized {  })
    } else {
        None
    }
}

/// What an accepted withdrawal hands back: the item goes back to the seller.
pub open spec fn withdrawal_response(pre: StorageView, id: Seq<char>) -> ResponseView {
    let offering = pre.offerings[id];
    instructions(seq![item_transfer(pre.config->0.nft_address, offering.seller, offering.token_id)])
}

// Administration

/// Why a change to the configuration record is turned down, if it is.
pub open spec fn admin_rejection(
    pre: StorageView,
    caller: Seq<char>,
    address_valid: bool,
) -> Option<ContractError> {
    if pre.config is None {
        Some(ContractError::Uninitialized {  })
    } else if pre.config->0.owner != caller {
        Some(ContractError::Unauthorized {  })
    } else if !address_valid {
        Some(ContractError::InvalidAddress {  })
    } else {
        None
    }
}

/// The storage with `address` as the token contract.
pub open spec fn with_token_address(pre: StorageView, address: Seq<char>) -> StorageView {
    StorageView { config: Some(StateView { token_address: address, ..pre.config->0 }), ..pre }
}

/// The storage with `address` as the NFT contract.
pub open spec fn with_nft_address(pre: StorageView, address: Seq<char>) -> StorageView {
    StorageView { config: Some(StateView { nft_address: address, ..pre.config->0 }), ..pre }
}

/// The storage with `address` as the owner.
pub open spec fn with_owner(pre: StorageView, address: Seq<char>) -> StorageView {
    StorageView { config: Some(StateView { owner: address, ..pre.config->0 }), ..pre }
}

} // verus!
