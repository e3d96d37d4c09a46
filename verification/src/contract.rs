//! The operations of the marketplace. Each one checks, changes the storage,
//! and hands back the instructions for the host: in that order, so that an
//! offering has left the store before anything is sent on its account.

use vstd::prelude::*;
use vstd::string::StringExecFns;
use crate::decimal::decimal_string;
use crate::error::ContractError;
use crate::host::{
    coins_view, empty_response, BankMsg, Coin, CosmosMsg, MessageInfo, MessageInfoView, Response,
    WasmMsg,
};
use crate::msg::{
    Cw20ReceiveMsg, Cw20ReceiveMsgView, Cw721ReceiveMsg, Cw721ReceiveMsgView, ExecuteMsg,
    InstantiateMsg, QueryMsg,
};
use crate::package::{OfferingsResponse, QueryOfferingsResult, QueryOfferingsResultView, QueryResponse};
use crate::rules::{
    admin_rejection, attached, attached_from, coin_payment, contract_call, decided, instantiated,
    instructions, listed, listing_rejection, listing_response, purchase_rejection,
    purchase_response, token_purchase_rejection, token_purchase_response,
    with_nft_address, with_owner, with_token_address, withdrawal_rejection, withdrawal_response,
    without_offering,
};
use crate::state::{Offering, OfferingView, State, Storage, StorageView, UserInfo};
use crate::store::{entries_view, lists_in_key_order};
use crate::wire::{transfer_binary, transfer_nft_binary};

verus! {

/// The amount sent along in `denom`.
pub fn attached_amount(funds: &Vec<Coin>, denom: &String) -> (amount: u128)
    ensures
        amount == attached(coins_view(funds@), denom@),
{
    let mut i: usize = 0;
    while i < funds.len()
        invariant
            i <= funds.len(),
            attached(coins_view(funds@), denom@) == attached_from(
                coins_view(funds@),
                denom@,
                i as int,
            ),
        decreases funds.len() - i,
    {
        assert(coins_view(funds@)[i as int] == funds@[i as int]@);
        if funds[i].denom == *denom {
            return funds[i].amount;
        }
        i = i + 1;
    }
    0
}

/// The instruction to call `contract_addr` with an encoded message, given
/// what the encoding came to: the instruction with those bytes, or the error
/// that the encoding reported.
pub fn wasm_execute(contract_addr: String, payload: Result<Vec<u8>, cosmwasm_std::StdError>) -> (r:
    Result<CosmosMsg, cosmwasm_std::StdError>)
    ensures
        match payload {
            Ok(bytes) => r matches Ok(m) && m@ == contract_call(contract_addr@, bytes@),
            Err(e) => r matches Err(x) && x == e,
        },
{
    match payload {
        Ok(bytes) => {
            let funds: Vec<Coin> = Vec::new();
            assert(coins_view(funds@) =~= Seq::empty());
            Ok(CosmosMsg::Wasm(WasmMsg::Execute { contract_addr, msg: bytes, funds }))
        },
        Err(e) => Err(e),
    }
}

/// Sets the marketplace up: the caller becomes the owner, no contract is
/// trusted yet, and no offering id has been handed out.
pub fn instantiate(storage: &mut Storage, info: MessageInfo, _msg: InstantiateMsg) -> (r: Result<
    Response,
    ContractError,
>)
    ensures
        r matches Ok(resp) && resp@ == empty_response(),
        final(storage)@ == instantiated(old(storage)@, info@.sender),
{
    let state = State {
        owner: info.sender,
        token_address: String::new(),
        nft_address: String::new(),
        offering_id: 0,
    };
    storage.save(state);
    Ok(Response::default())
}

/// How a payment notification ends.
pub open spec fn token_purchase_outcome(
    pre: StorageView,
    post: StorageView,
    r: Result<Response, ContractError>,
    caller: Seq<char>,
    notice: Cw20ReceiveMsgView,
    sender_valid: bool,
) -> bool {
    decided(
        pre,
        post,
        r,
        token_purchase_rejection(pre, caller, notice, sender_valid),
        without_offering(pre, notice.msg->0.offering_id),
        token_purchase_response(pre, notice),
    )
}

/// Completes a purchase with tokens that every check has passed, given what
/// the encoding of the two outbound messages came to. Where both were
/// encoded, the offering leaves the store and the response holds the call of
/// the NFT contract with the bytes of `transfer`, then the call of the token
/// contract with the bytes of `payment`. Where one was not, the first error
/// comes back and nothing changes.
pub fn settle_token_purchase(
    storage: &mut Storage,
    offering_id: &str,
    state: State,
    transfer: Result<Vec<u8>, cosmwasm_std::StdError>,
    payment: Result<Vec<u8>, cosmwasm_std::StdError>,
) -> (r: Result<Response, ContractError>)
    ensures
        match (transfer, payment) {
            (Ok(item), Ok(tokens)) => {
                &&& r matches Ok(resp) && resp@ == instructions(
                    seq![
                        contract_call(state@.nft_address, item@),
                        contract_call(state@.token_address, tokens@),
                    ],
                )
                &&& final(storage)@ == without_offering(old(storage)@, offering_id@)
            },
            (Err(e), _) => r matches Err(x) && x == ContractError::Std(e) && final(storage)@ == old(
                storage,
            )@,
            (Ok(_), Err(e)) => r matches Err(x) && x == ContractError::Std(e) && final(storage)@
                == old(storage)@,
        },
{
    let to_buyer = match wasm_execute(state.nft_address, transfer) {
        Ok(m) => m,
        Err(e) => {
            return Err(ContractError::Std(e));
        },
    };
    let to_seller = match wasm_execute(state.token_address, payment) {
        Ok(m) => m,
        Err(e) => {
            return Err(ContractError::Std(e));
        },
    };
    storage.offerings.delete(offering_id);
    let resp = Response::new().add_message(to_buyer).add_message(to_seller);
    assert(resp@.messages =~= seq![to_buyer@, to_seller@]);
    Ok(resp)
}

/// Handles the token contract's notice of a payment: the purchase of an
/// offering priced in the marketplace token. `sender_valid` is the verdict of
/// the host's address validator on `rcv_msg.sender`, the buyer.
pub fn execute_receive(
    storage: &mut Storage,
    info: MessageInfo,
    rcv_msg: Cw20ReceiveMsg,
    sender_valid: bool,
) -> (r: Result<Response, ContractError>)
    ensures
        token_purchase_outcome(
            old(storage)@,
            final(storage)@,
            r,
            info@.sender,
            rcv_msg@,
            sender_valid,
        ),
{
    let state = match storage.load() {
        Ok(state) => state,
        Err(e) => {
            return Err(e);
        },
    };
    if !(info.sender == state.token_address) {
        return Err(ContractError::WrongTokenContractError {  });
    }
    let msg = match &rcv_msg.msg {
        Some(msg) => msg,
        None => {
            return Err(ContractError::MalformedPayload {  });
        },
    };
    let off = match storage.offerings.get(msg.offering_id.as_str()) {
        Some(off) => off,
        None => {
            return Err(ContractError::OfferingNotFound {  });
        },
    };
    if !(off.list_price.denom == String::from_str("hope")) {
        return Err(ContractError::NotEnoughFunds {  });
    }
    if off.list_price.amount > rcv_msg.amount {
        return Err(ContractError::NotEnoughFunds {  });
    }
    if !sender_valid {
        return Err(ContractError::InvalidAddress {  });
    }
    let transfer = transfer_nft_binary(&rcv_msg.sender, &off.token_id);
    let payment = transfer_binary(&off.seller, rcv_msg.amount);
    settle_token_purchase(storage, msg.offering_id.as_str(), state, transfer, payment)
}

/// How a purchase with coins ends.
pub open spec fn purchase_outcome(
    pre: StorageView,
    post: StorageView,
    r: Result<Response, ContractError>,
    info: MessageInfoView,
    id: Seq<char>,
) -> bool {
    decided(
        pre,
        post,
        r,
        purchase_rejection(pre, info.funds, id),
        without_offering(pre, id),
        purchase_response(pre, info.sender, id),
    )
}

/// Completes a purchase with coins that every check has passed, given what
/// the encoding of the message to the NFT contract came to. Where it was
/// encoded, the offering leaves the store and the response holds the call of
/// the NFT contract with those bytes, then the payment of the list price to
/// the seller. Where it was not, the error comes back and nothing changes.
pub fn settle_purchase(
    storage: &mut Storage,
    offering_id: &str,
    state: State,
    off: Offering,
    transfer: Result<Vec<u8>, cosmwasm_std::StdError>,
) -> (r: Result<Response, ContractError>)
    ensures
        match transfer {
            Ok(item) => {
                &&& r matches Ok(resp) && resp@ == instructions(
                    seq![
                        contract_call(state@.nft_address, item@),
                        coin_payment(off@.seller, off@.list_price.denom, off@.list_price.amount),
                    ],
                )
                &&& final(storage)@ == without_offering(old(storage)@, offering_id@)
            },
            Err(e) => r matches Err(x) && x == ContractError::Std(e) && final(storage)@ == old(
                storage,
            )@,
        },
{
    let to_buyer = match wasm_execute(state.nft_address, transfer) {
        Ok(m) => m,
        Err(e) => {
            return Err(ContractError::Std(e));
        },
    };
    storage.offerings.delete(offering_id);
    let mut amount: Vec<Coin> = Vec::new();
    amount.push(Coin { denom: off.list_price.denom, amount: off.list_price.amount });
    let to_seller = CosmosMsg::Bank(BankMsg::Send { to_address: off.seller, amount });
    assert(coins_view(amount@) =~= seq![amount@[0]@]);
    let resp = Response::new().add_message(to_buyer).add_message(to_seller);
    assert(resp@.messages =~= seq![to_buyer@, to_seller@]);
    Ok(resp)
}

/// Buys the offering `offering_id` with the coins sent along with the call.
pub fn execute_buy_nft(storage: &mut Storage, info: MessageInfo, offering_id: String) -> (r: Result<
    Response,
    ContractError,
>)
    ensures
        purchase_outcome(old(storage)@, final(storage)@, r, info@, offering_id@),
{
    let off = match storage.offerings.get(offering_id.as_str()) {
        Some(off) => off,
        None => {
            return Err(ContractError::OfferingNotFound {  });
        },
    };
    let amount = attached_amount(&info.funds, &off.list_price.denom);
    if off.list_price.amount > amount {
        return Err(ContractError::NotEnoughFunds {  });
    }
    let state = match storage.load() {
        Ok(state) => state,
        Err(e) => {
            return Err(e);
        },
    };
    let transfer = transfer_nft_binary(&info.sender, &off.token_id);
    settle_purchase(storage, offering_id.as_str(), state, off, transfer)
}

/// How a withdrawal ends.
pub open spec fn withdrawal_outcome(
    pre: StorageView,
    post: StorageView,
    r: Result<Response, ContractError>,
    caller: Seq<char>,
    id: Seq<char>,
) -> bool {
    decided(
        pre,
        post,
        r,
        withdrawal_rejection(pre, caller, id),
        without_offering(pre, id),
        withdrawal_response(pre, id),
    )
}

/// Completes a withdrawal that every check has passed, given what the
/// encoding of the message to the NFT contract came to. Where it was encoded,
/// the offering leaves the store and the response holds the call of the NFT
/// contract with those bytes. Where it was not, the error comes back and
/// nothing changes.
pub fn settle_withdrawal(
    storage: &mut Storage,
    offering_id: &str,
    state: State,
    transfer: Result<Vec<u8>, cosmwasm_std::StdError>,
) -> (r: Result<Response, ContractError>)
    ensures
        match transfer {
            Ok(item) => {
                &&& r matches Ok(resp) && resp@ == instructions(
                    seq![contract_call(state@.nft_address, item@)],
                )
                &&& final(storage)@ == without_offering(old(storage)@, offering_id@)
            },
            Err(e) => r matches Err(x) && x == ContractError::Std(e) && final(storage)@ == old(
                storage,
            )@,
        },
{
    let to_seller = match wasm_execute(state.nft_address, transfer) {
        Ok(m) => m,
        Err(e) => {
            return Err(ContractError::Std(e));
        },
    };
    storage.offerings.delete(offering_id);
    let resp = Response::new().add_message(to_seller);
    assert(resp@.messages =~= seq![to_seller@]);
    Ok(resp)
}

/// Takes the offering `offering_id` off the market and sends the item back
/// to its seller, who alone may ask for this.
pub fn execute_withdraw(storage: &mut Storage, info: MessageInfo, offering_id: String) -> (r: Result<
    Response,
    ContractError,
>)
    ensures
        withdrawal_outcome(old(storage)@, final(storage)@, r, info@.sender, offering_id@),
{
    let off = match storage.offerings.get(offering_id.as_str()) {
        Some(off) => off,
        None => {
            return Err(ContractError::OfferingNotFound {  });
        },
    };
    if !(off.seller == info.sender) {
        return Err(ContractError::Unauthorized {  });
    }
    let state = match storage.load() {
        Ok(state) => state,
        Err(e) => {
            return Err(e);
        },
    };
    let transfer = transfer_nft_binary(&off.seller, &off.token_id);
    settle_withdrawal(storage, offering_id.as_str(), state, transfer)
}

/// How a deposit notification ends.
pub open spec fn listing_outcome(
    pre: StorageView,
    post: StorageView,
    r: Result<Response, ContractError>,
    caller: Seq<char>,
    notice: Cw721ReceiveMsgView,
    sender_valid: bool,
) -> bool {
    decided(
        pre,
        post,
        r,
        listing_rejection(pre, caller, notice, sender_valid),
        listed(pre, notice),
        listing_response(notice),
    )
}

/// Whether the id counter can still go up for the listing that this
/// notification asks for.
pub open spec fn counter_has_room(
    pre: StorageView,
    caller: Seq<char>,
    notice: Cw721ReceiveMsgView,
    sender_valid: bool,
) -> bool {
    listing_rejection(pre, caller, notice, sender_valid) is None ==> pre.config->0.offering_id
        < u64::MAX
}

/// Tells whether the id counter has room for the listing that this
/// notification asks for, as `execute_receive_nft` requires: it has unless
/// the notification would be listed and the counter stands at its last
/// value.
pub fn listing_has_room(
    storage: &Storage,
    info: &MessageInfo,
    rcv_msg: &Cw721ReceiveMsg,
    sender_valid: bool,
) -> (b: bool)
    ensures
        b == counter_has_room(storage@, info@.sender, rcv_msg@, sender_valid),
{
    match &storage.config {
        None => true,
        Some(state) => {
            !(info.sender == state.nft_address) || rcv_msg.msg.is_none() || !sender_valid
                || state.offering_id < u64::MAX
        },
    }
}

/// Handles the NFT contract's notice of a deposit: the item is listed under
/// the next id, at the price that the payload asks. `sender_valid` is the
/// verdict of the host's address validator on `rcv_msg.sender`, the seller.
pub fn execute_receive_nft(
    storage: &mut Storage,
    info: MessageInfo,
    rcv_msg: Cw721ReceiveMsg,
    sender_valid: bool,
) -> (r: Result<Response, ContractError>)
    requires
        counter_has_room(old(storage)@, info@.sender, rcv_msg@, sender_valid),
    ensures
        listing_outcome(old(storage)@, final(storage)@, r, info@.sender, rcv_msg@, sender_valid),
{
    let mut state = match storage.load() {
        Ok(state) => state,
        Err(e) => {
            return Err(e);
        },
    };
    if !(info.sender == state.nft_address) {
        return Err(ContractError::WrongNFTContractError {  });
    }
    let msg = match rcv_msg.msg {
        Some(msg) => msg,
        None => {
            return Err(ContractError::MalformedPayload {  });
        },
    };
    if !sender_valid {
        return Err(ContractError::InvalidAddress {  });
    }
    state.offering_id = state.offering_id + 1;
    let id = decimal_string(state.offering_id as u128);
    let mut price_string = decimal_string(msg.list_price.amount);
    price_string.append(" ");
    let off = Offering {
        token_id: rcv_msg.token_id,
        seller: rcv_msg.sender,
        list_price: msg.list_price,
    };
    storage.save(state);
    storage.offerings.put(id, off);
    let resp = Response::new().add_attribute(String::from_str("price_string"), price_string);
    assert(resp@.attributes =~= listing_response(rcv_msg@).attributes);
    Ok(resp)
}

/// Accepts the admin list and changes nothing: the list is not in use.
pub fn execute_set_members(storage: &mut Storage, _info: MessageInfo, _members: Vec<UserInfo>) -> (r:
    Result<Response, ContractError>)
    ensures
        r matches Ok(resp) && resp@ == empty_response(),
        final(storage)@ == old(storage)@,
{
    Ok(Response::default())
}

/// How a change of the token contract's address ends.
pub open spec fn token_address_outcome(
    pre: StorageView,
    post: StorageView,
    r: Result<Response, ContractError>,
    caller: Seq<char>,
    address: Seq<char>,
    address_valid: bool,
) -> bool {
    decided(
        pre,
        post,
        r,
        admin_rejection(pre, caller, address_valid),
        with_token_address(pre, address),
        empty_response(),
    )
}

/// Makes `address` the token contract that the marketplace trusts. Only the
/// owner may. `address_valid` is the verdict of the host's address validator
/// on `address`.
pub fn execute_token_address(
    storage: &mut Storage,
    info: MessageInfo,
    address: String,
    address_valid: bool,
) -> (r: Result<Response, ContractError>)
    ensures
        token_address_outcome(
            old(storage)@,
            final(storage)@,
            r,
            info@.sender,
            address@,
            address_valid,
        ),
{
    let mut state = match storage.load() {
        Ok(state) => state,
        Err(e) => {
            return Err(e);
        },
    };
    if !(state.owner == info.sender) {
        return Err(ContractError::Unauthorized {  });
    }
    if !address_valid {
        return Err(ContractError::InvalidAddress {  });
    }
    state.token_address = address;
    storage.save(state);
    Ok(Response::default())
}

/// How a change of the NFT contract's address ends.
pub open spec fn nft_address_outcome(
    pre: StorageView,
    post: StorageView,
    r: Result<Response, ContractError>,
    caller: Seq<char>,
    address: Seq<char>,
    address_valid: bool,
) -> bool {
    decided(
        pre,
        post,
        r,
        admin_rejection(pre, caller, address_valid),
        with_nft_address(pre, address),
        empty_response(),
    )
}

/// Makes `address` the NFT contract that the marketplace trusts. Only the
/// owner may. `address_valid` is the verdict of the host's address validator
/// on `address`.
pub fn execute_nft_address(
    storage: &mut Storage,
    info: MessageInfo,
    address: String,
    address_valid: bool,
) -> (r: Result<Response, ContractError>)
    ensures
        nft_address_outcome(
            old(storage)@,
            final(storage)@,
            r,
            info@.sender,
            address@,
            address_valid,
        ),
{
    let mut state = match storage.load() {
        Ok(state) => state,
        Err(e) => {
            return Err(e);
        },
    };
    if !(state.owner == info.sender) {
        return Err(ContractError::Unauthorized {  });
    }
    if !address_valid {
        return Err(ContractError::InvalidAddress {  });
    }
    state.nft_address = address;
    storage.save(state);
    Ok(Response::default())
}

/// How a change of owner ends.
pub open spec fn change_owner_outcome(
    pre: StorageView,
    post: StorageView,
    r: Result<Response, ContractError>,
    caller: Seq<char>,
    address: Seq<char>,
    address_valid: bool,
) -> bool {
    decided(
        pre,
        post,
        r,
        admin_rejection(pre, caller, address_valid),
        with_owner(pre, address),
        empty_response(),
    )
}

/// Hands the marketplace over to `address`. Only the owner may.
/// `address_valid` is the verdict of the host's address validator on
/// `address`.
pub fn execute_change_owner(
    storage: &mut Storage,
    info: MessageInfo,
    address: String,
    address_valid: bool,
) -> (r: Result<Response, ContractError>)
    ensures
        change_owner_outcome(
            old(storage)@,
            final(storage)@,
            r,
            info@.sender,
            address@,
            address_valid,
        ),
{
    let mut state = match storage.load() {
        Ok(state) => state,
        Err(e) => {
            return Err(e);
        },
    };
    if !(state.owner == info.sender) {
        return Err(ContractError::Unauthorized {  });
    }
    if !address_valid {
        return Err(ContractError::InvalidAddress {  });
    }
    state.owner = address;
    storage.save(state);
    Ok(Response::default())
}

/// How a request that may change the marketplace ends, whichever it is.
pub open spec fn execute_outcome(
    pre: StorageView,
    post: StorageView,
    r: Result<Response, ContractError>,
    info: MessageInfoView,
    msg: ExecuteMsg,
    address_valid: bool,
) -> bool {
    match msg {
        ExecuteMsg::ReceiveNft(notice) => listing_outcome(
            pre,
            post,
            r,
            info.sender,
            notice@,
            address_valid,
        ),
        ExecuteMsg::Receive(notice) => token_purchase_outcome(
            pre,
            post,
            r,
            info.sender,
            notice@,
            address_valid,
        ),
        ExecuteMsg::BuyNft { offering_id } => purchase_outcome(pre, post, r, info, offering_id@),
        ExecuteMsg::SetAdminsList { members } => {
            &&& post == pre
            &&& r matches Ok(resp) && resp@ == empty_response()
        },
        ExecuteMsg::WithdrawNft { offering_id } => withdrawal_outcome(
            pre,
            post,
            r,
            info.sender,
            offering_id@,
        ),
        ExecuteMsg::SetTokenAddress { address } => token_address_outcome(
            pre,
            post,
            r,
            info.sender,
            address@,
            address_valid,
        ),
        ExecuteMsg::SetNftAddress { address } => nft_address_outcome(
            pre,
            post,
            r,
            info.sender,
            address@,
            address_valid,
        ),
        ExecuteMsg::ChangeOwner { address } => change_owner_outcome(
            pre,
            post,
            r,
            info.sender,
            address@,
            address_valid,
        ),
    }
}

/// Carries out a request that may change the marketplace. `address_valid` is
/// the verdict of the host's address validator on the address that the
/// request brings: the sender named in a notification, the new address in a
/// change of the configuration. The other requests do not read it.
pub fn execute(storage: &mut Storage, info: MessageInfo, msg: ExecuteMsg, address_valid: bool) -> (r:
    Result<Response, ContractError>)
    requires
        msg matches ExecuteMsg::ReceiveNft(notice) ==> counter_has_room(
            old(storage)@,
            info@.sender,
            notice@,
            address_valid,
        ),
    ensures
        execute_outcome(old(storage)@, final(storage)@, r, info@, msg, address_valid),
{
    match msg {
        ExecuteMsg::ReceiveNft(msg) => execute_receive_nft(storage, info, msg, address_valid),
        ExecuteMsg::Receive(msg) => execute_receive(storage, info, msg, address_valid),
        ExecuteMsg::BuyNft { offering_id } => execute_buy_nft(storage, info, offering_id),
        ExecuteMsg::SetAdminsList { members } => execute_set_members(storage, info, members),
        ExecuteMsg::WithdrawNft { offering_id } => execute_withdraw(storage, info, offering_id),
        ExecuteMsg::SetTokenAddress { address } => execute_token_address(
            storage,
            info,
            address,
            address_valid,
        ),
        ExecuteMsg::SetNftAddress { address } => execute_nft_address(
            storage,
            info,
            address,
            address_valid,
        ),
        ExecuteMsg::ChangeOwner { address } => execute_change_owner(
            storage,
            info,
            address,
            address_valid,
        ),
    }
}

/// The offering that an entry of a query's answer reports.
pub open spec fn reported(entry: QueryOfferingsResultView) -> (Seq<char>, OfferingView) {
    (
        entry.id,
        OfferingView {
            token_id: entry.token_id,
            seller: entry.seller,
            list_price: entry.list_price,
        },
    )
}

/// The configuration record.
pub fn query_state_info(storage: &Storage) -> (r: Result<State, ContractError>)
    ensures
        match r {
            Ok(state) => storage@.config == Some(state@),
            Err(e) => storage@.config is None && e == (ContractError::Uninitialized {  }),
        },
{
    storage.load()
}

/// An entry of the offering store as a query reports it.
fn parse_offering(item: &(String, Offering)) -> (entry: QueryOfferingsResult)
    ensures
        reported(entry@) == (item.0@, item.1@),
{
    QueryOfferingsResult {
        id: item.0.clone(),
        token_id: item.1.token_id.clone(),
        list_price: item.1.list_price.clone(),
        seller: item.1.seller.clone(),
    }
}

/// Every offering that is listed, each once, in ascending order of the ids'
/// text.
pub fn query_get_offerings(storage: &Storage) -> (r: Result<OfferingsResponse, ContractError>)
    ensures
        r matches Ok(answer) && lists_in_key_order(
            storage@.offerings,
            answer@.map_values(|entry: QueryOfferingsResultView| reported(entry)),
        ),
{
    let listing = storage.offerings.scan();
    let mut offerings: Vec<QueryOfferingsResult> = Vec::new();
    let mut i: usize = 0;
    while i < listing.len()
        invariant
            i <= listing.len(),
            offerings@.len() == i,
            forall|j: int|
                #![trigger offerings@[j]]
                0 <= j < i ==> reported(offerings@[j]@) == (listing@[j].0@, listing@[j].1@),
        decreases listing.len() - i,
    {
        offerings.push(parse_offering(&listing[i]));
        i = i + 1;
    }
    let answer = OfferingsResponse { offerings };
    proof {
        let told = answer@.map_values(|entry: QueryOfferingsResultView| reported(entry));
        assert(told =~= entries_view(listing@));
    }
    Ok(answer)
}

/// Answers a request that only reads.
pub fn query(storage: &Storage, msg: QueryMsg) -> (r: Result<QueryResponse, ContractError>)
    ensures
        match msg {
            QueryMsg::GetStateInfo {  } => match r {
                Ok(QueryResponse::StateInfo(state)) => storage@.config == Some(state@),
                Ok(_) => false,
                Err(e) => storage@.config is None && e == (ContractError::Uninitialized {  }),
            },
            QueryMsg::GetOfferings {  } => r matches Ok(QueryResponse::Offerings(answer))
                && lists_in_key_order(
                storage@.offerings,
                answer@.map_values(|entry: QueryOfferingsResultView| reported(entry)),
            ),
        },
{
    match msg {
        QueryMsg::GetStateInfo {  } => match query_state_info(storage) {
            Ok(state) => Ok(QueryResponse::StateInfo(state)),
            Err(e) => Err(e),
        },
        QueryMsg::GetOfferings {  } => match query_get_offerings(storage) {
            Ok(answer) => Ok(QueryResponse::Offerings(answer)),
            Err(e) => Err(e),
        },
    }
}

} // verus!
