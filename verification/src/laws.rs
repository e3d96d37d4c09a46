//! What holds of the marketplace over any calls: how ids are handed out, who
//! may do what, and what a rejected or an accepted call leaves behind.

use vstd::prelude::*;
use crate::contract::{
    change_owner_outcome, counter_has_room, execute_outcome, listing_outcome, nft_address_outcome,
    purchase_outcome, token_address_outcome, token_purchase_outcome, withdrawal_outcome,
};
use crate::decimal::{decimal, lemma_decimal_injective};
use crate::error::ContractError;
use crate::host::{MessageInfoView, Response};
use crate::msg::{Cw20ReceiveMsgView, Cw721ReceiveMsgView, ExecuteMsg};
use crate::rules::{
    admin_rejection, attached, instantiated, listed, next_id, purchase_response, token_denom,
    token_purchase_response, withdrawal_response, without_offering,
};
use crate::state::{OfferingView, StorageView};
use crate::store::lists_in_key_order;

verus! {

/// The number of ids handed out so far.
pub open spec fn counter(s: StorageView) -> int {
    if s.config is Some {
        s.config->0.offering_id as int
    } else {
        0
    }
}

/// Every listed offering stands under the decimal text of a number from 1 to
/// the counter. A storage that has only ever been changed by the
/// marketplace's operations is of this kind.
pub open spec fn ids_in_range(s: StorageView) -> bool {
    forall|k: Seq<char>| #[trigger]
        s.offerings.contains_key(k) ==> exists|n: nat|
            1 <= n <= counter(s) && k == #[trigger] decimal(n)
}

/// One call of `execute`: the request, what came with it, and how it ended.
pub struct Call {
    pub info: MessageInfoView,
    pub msg: ExecuteMsg,
    pub address_valid: bool,
    pub result: Result<Response, ContractError>,
}

/// `call` took the storage from `pre` to `post`.
pub open spec fn took(pre: StorageView, call: Call, post: StorageView) -> bool {
    &&& call.msg matches ExecuteMsg::ReceiveNft(notice) ==> counter_has_room(
        pre,
        call.info.sender,
        notice@,
        call.address_valid,
    )
    &&& execute_outcome(pre, post, call.result, call.info, call.msg, call.address_valid)
}

/// `states` are the storages that a run of calls went through, `calls[i]`
/// taking `states[i]` to `states[i + 1]`.
pub open spec fn history(states: Seq<StorageView>, calls: Seq<Call>) -> bool {
    &&& states.len() == calls.len() + 1
    &&& forall|i: int| 0 <= i < calls.len() ==> took(states[i], #[trigger] calls[i], states[i + 1])
}

/// The call is a listing that was accepted.
pub open spec fn accepted_listing(call: Call) -> bool {
    call.msg is ReceiveNft && call.result is Ok
}

/// The offering that an accepted listing stores.
pub open spec fn offering_listed(call: Call) -> OfferingView {
    let notice = call.msg->ReceiveNft_0@;
    OfferingView {
        token_id: notice.token_id,
        seller: notice.sender,
        list_price: notice.msg->0.list_price,
    }
}

/// An accepted listing moves the counter up by one; no other call moves it.
/// No call takes the configuration record away, and every call keeps the
/// listed ids within the counter's range.
pub proof fn lemma_call_keeps_counter(pre: StorageView, call: Call, post: StorageView)
    requires
        took(pre, call, post),
    ensures
        counter(post) == counter(pre) + if accepted_listing(call) {
            1int
        } else {
            0int
        },
        pre.config is Some ==> post.config is Some,
        ids_in_range(pre) ==> ids_in_range(post),
        accepted_listing(call) ==> post == listed(pre, call.msg->ReceiveNft_0@),
{
    if ids_in_range(pre) {
        assert forall|k: Seq<char>| #[trigger] post.offerings.contains_key(k) implies exists|n: nat|
            1 <= n <= counter(post) && k == #[trigger] decimal(n) by {
            if pre.offerings.contains_key(k) {
                let n = choose|n: nat| 1 <= n <= counter(pre) && k == #[trigger] decimal(n);
                assert(1 <= n <= counter(post) && k == decimal(n));
            } else {
                assert(accepted_listing(call));
                let n = (counter(pre) + 1) as nat;
                assert(k == decimal(n));
            }
        }
    }
}

/// A call adds no offering but the one that an accepted listing stores under
/// the next id.
pub proof fn lemma_call_adds_only_the_next_id(
    pre: StorageView,
    call: Call,
    post: StorageView,
    id: Seq<char>,
)
    requires
        took(pre, call, post),
        post.offerings.contains_key(id),
        !pre.offerings.contains_key(id),
    ensures
        accepted_listing(call),
        id == next_id(pre),
        pre.config is Some,
{
}

/// A rejected call leaves the storage as it was.
pub proof fn lemma_rejected_call_changes_nothing(pre: StorageView, call: Call, post: StorageView)
    requires
        took(pre, call, post),
        call.result is Err,
    ensures
        post == pre,
{
}

/// A marketplace set up on an empty offering store has its listed ids within
/// the counter's range, and its counter at 0.
pub proof fn lemma_new_market_is_in_range(before: StorageView, owner: Seq<char>)
    requires
        before.offerings == Map::<Seq<char>, OfferingView>::empty(),
    ensures
        ids_in_range(instantiated(before, owner)),
        counter(instantiated(before, owner)) == 0,
{
}

/// The id of the next listing is none of those handed out so far.
pub proof fn lemma_next_id_is_new(s: StorageView, n: nat)
    requires
        s.config is Some,
        n <= counter(s),
    ensures
        next_id(s) != decimal(n),
{
    if next_id(s) == decimal(n) {
        lemma_decimal_injective((counter(s) + 1) as nat, n);
    }
}

/// Over any run of calls the counter never goes down.
pub proof fn lemma_counter_never_goes_down(states: Seq<StorageView>, calls: Seq<Call>, i: int, j: int)
    requires
        history(states, calls),
        0 <= i <= j < states.len(),
    ensures
        counter(states[i]) <= counter(states[j]),
        states[i].config is Some ==> states[j].config is Some,
    decreases j - i,
{
    if i < j {
        lemma_counter_never_goes_down(states, calls, i, j - 1);
        assert(took(states[j - 1], calls[j - 1], states[j - 1 + 1]));
        lemma_call_keeps_counter(states[j - 1], calls[j - 1], states[j]);
    }
}

/// Over any run of calls the listed ids stay within the counter's range.
pub proof fn lemma_ids_stay_in_range(states: Seq<StorageView>, calls: Seq<Call>, j: int)
    requires
        history(states, calls),
        ids_in_range(states[0]),
        0 <= j < states.len(),
    ensures
        ids_in_range(states[j]),
    decreases j,
{
    if j > 0 {
        lemma_ids_stay_in_range(states, calls, j - 1);
        assert(took(states[j - 1], calls[j - 1], states[j - 1 + 1]));
        lemma_call_keeps_counter(states[j - 1], calls[j - 1], states[j]);
    }
}

/// No id is handed out twice: whatever calls come in between, an offering
/// listed later gets an id that is none of those handed out before, be they
/// still listed or long removed.
pub proof fn lemma_ids_are_never_reused(
    states: Seq<StorageView>,
    calls: Seq<Call>,
    i: int,
    j: int,
    n: nat,
)
    requires
        history(states, calls),
        0 <= i <= j < states.len(),
        states[i].config is Some,
        n <= counter(states[i]),
    ensures
        next_id(states[j]) != decimal(n),
{
    lemma_counter_never_goes_down(states, calls, i, j);
    lemma_next_id_is_new(states[j], n);
}

/// An offering that has left the store never comes back: once an id that
/// the counter has passed is not listed, no run of calls lists it again.
pub proof fn lemma_removed_id_stays_removed(
    states: Seq<StorageView>,
    calls: Seq<Call>,
    i: int,
    j: int,
    n: nat,
)
    requires
        history(states, calls),
        0 <= i <= j < states.len(),
        states[i].config is Some,
        n <= counter(states[i]),
        !states[i].offerings.contains_key(decimal(n)),
    ensures
        !states[j].offerings.contains_key(decimal(n)),
    decreases j - i,
{
    if i < j {
        lemma_removed_id_stays_removed(states, calls, i, j - 1, n);
        assert(took(states[j - 1], calls[j - 1], states[j - 1 + 1]));
        if states[j].offerings.contains_key(decimal(n)) {
            lemma_call_adds_only_the_next_id(states[j - 1], calls[j - 1], states[j], decimal(n));
            lemma_ids_are_never_reused(states, calls, i, j - 1, n);
        }
    }
}

/// The number of accepted listings among `calls`.
pub open spec fn accepted_listings(calls: Seq<Call>) -> nat
    decreases calls.len(),
{
    if calls.len() == 0 {
        0
    } else {
        accepted_listings(calls.drop_last()) + if accepted_listing(calls.last()) {
            1nat
        } else {
            0nat
        }
    }
}

/// The counter counts the accepted listings: after the first `i` calls of a
/// run it has gone up by the number of listings accepted among them.
pub proof fn lemma_counter_counts_listings(states: Seq<StorageView>, calls: Seq<Call>, i: int)
    requires
        history(states, calls),
        0 <= i <= calls.len(),
    ensures
        counter(states[i]) == counter(states[0]) + accepted_listings(calls.take(i)),
    decreases i,
{
    if i > 0 {
        lemma_counter_counts_listings(states, calls, i - 1);
        assert(took(states[i - 1], calls[i - 1], states[i - 1 + 1]));
        lemma_call_keeps_counter(states[i - 1], calls[i - 1], states[i]);
        assert(calls.take(i).drop_last() =~= calls.take(i - 1));
        assert(calls.take(i).last() == calls[i - 1]);
    }
}

/// Ids are handed out in the order of the calls, one number after the
/// other: in any run of calls, a listing that is accepted after `k` others
/// stores its offering under the number that follows the counter's start by
/// `k + 1`. From a marketplace that has just been set up these are 1, 2, 3
/// and so on. Where the listed ids were within the counter's range, nothing
/// stood under that number before.
pub proof fn lemma_listing_gets_the_next_number(
    states: Seq<StorageView>,
    calls: Seq<Call>,
    i: int,
)
    requires
        history(states, calls),
        0 <= i < calls.len(),
        accepted_listing(calls[i]),
    ensures
        ({
            let id = decimal((counter(states[0]) + accepted_listings(calls.take(i)) + 1) as nat);
            &&& states[i + 1].offerings.contains_key(id)
            &&& states[i + 1].offerings[id] == offering_listed(calls[i])
            &&& ids_in_range(states[i]) ==> !states[i].offerings.contains_key(id)
        }),
{
    lemma_counter_counts_listings(states, calls, i);
    assert(took(states[i], calls[i], states[i + 1]));
    lemma_call_keeps_counter(states[i], calls[i], states[i + 1]);
    let id = next_id(states[i]);
    if states[i].offerings.contains_key(id) && ids_in_range(states[i]) {
        let n = choose|n: nat| 1 <= n <= counter(states[i]) && id == #[trigger] decimal(n);
        lemma_next_id_is_new(states[i], n);
    }
}

/// Where every call of a run is an accepted listing, the listing at position
/// `i` gets the id that follows the counter's start by `i + 1`, and its
/// offering still stands under that id at the end of the run. From a
/// marketplace that has just been set up, whose counter is 0, the ids are
/// therefore 1, 2, 3 and so on, in the order of the calls.
pub proof fn lemma_listings_get_consecutive_ids(states: Seq<StorageView>, calls: Seq<Call>, i: int)
    requires
        history(states, calls),
        forall|k: int| 0 <= k < calls.len() ==> accepted_listing(#[trigger] calls[k]),
        0 <= i < calls.len(),
    ensures
        counter(states.last()) == counter(states[0]) + calls.len(),
        states.last().offerings.contains_key(decimal((counter(states[0]) + i + 1) as nat)),
        states.last().offerings[decimal((counter(states[0]) + i + 1) as nat)] == offering_listed(
            calls[i],
        ),
    decreases calls.len(),
{
    let last = calls.len() - 1;
    let before = states.drop_last();
    let earlier = calls.drop_last();
    assert(took(states[last], calls[last], states[last + 1]));
    lemma_call_keeps_counter(states[last], calls[last], states[last + 1]);
    assert(history(before, earlier)) by {
        assert forall|k: int| 0 <= k < earlier.len() implies took(
            before[k],
            #[trigger] earlier[k],
            before[k + 1],
        ) by {
            assert(took(states[k], calls[k], states[k + 1]));
        }
    }
    assert(before.last() == states[last]);
    assert(before[0] == states[0]);
    if last > 0 {
        assert(accepted_listing(earlier[0]));
        assert forall|k: int| 0 <= k < earlier.len() implies accepted_listing(
            #[trigger] earlier[k],
        ) by {
            assert(accepted_listing(calls[k]));
        }
        lemma_listings_get_consecutive_ids(before, earlier, 0);
    }
    assert(counter(states[last]) == counter(states[0]) + last);
    assert(states[last].config is Some);
    if i < last {
        assert forall|k: int| 0 <= k < earlier.len() implies accepted_listing(
            #[trigger] earlier[k],
        ) by {
            assert(accepted_listing(calls[k]));
        }
        lemma_listings_get_consecutive_ids(before, earlier, i);
        lemma_next_id_is_new(states[last], (counter(states[0]) + i + 1) as nat);
    }
}

/// From a marketplace that has just been set up, a run of accepted listings
/// hands out the ids 1, 2, 3 and so on, in the order of the calls.
pub proof fn lemma_ids_start_at_one(
    states: Seq<StorageView>,
    calls: Seq<Call>,
    i: int,
    before: StorageView,
    owner: Seq<char>,
)
    requires
        history(states, calls),
        states[0] == instantiated(before, owner),
        forall|k: int| 0 <= k < calls.len() ==> accepted_listing(#[trigger] calls[k]),
        0 <= i < calls.len(),
    ensures
        states.last().offerings.contains_key(decimal((i + 1) as nat)),
        states.last().offerings[decimal((i + 1) as nat)] == offering_listed(calls[i]),
        counter(states.last()) == calls.len(),
{
    lemma_listings_get_consecutive_ids(states, calls, i);
}

/// A purchase with coins of an id that is not listed is rejected as not
/// found, and changes nothing.
pub proof fn lemma_purchase_of_missing_offering(
    pre: StorageView,
    post: StorageView,
    r: Result<Response, ContractError>,
    info: MessageInfoView,
    id: Seq<char>,
)
    requires
        purchase_outcome(pre, post, r, info, id),
        !pre.offerings.contains_key(id),
    ensures
        r == Err::<Response, ContractError>(ContractError::OfferingNotFound {  }),
        post == pre,
{
}

/// A withdrawal of an id that is not listed is rejected as not found, and
/// changes nothing.
pub proof fn lemma_withdrawal_of_missing_offering(
    pre: StorageView,
    post: StorageView,
    r: Result<Response, ContractError>,
    caller: Seq<char>,
    id: Seq<char>,
)
    requires
        withdrawal_outcome(pre, post, r, caller, id),
        !pre.offerings.contains_key(id),
    ensures
        r == Err::<Response, ContractError>(ContractError::OfferingNotFound {  }),
        post == pre,
{
}

/// A payment notification that comes from the token contract and names an id
/// that is not listed is rejected as not found, and changes nothing.
pub proof fn lemma_token_purchase_of_missing_offering(
    pre: StorageView,
    post: StorageView,
    r: Result<Response, ContractError>,
    caller: Seq<char>,
    notice: Cw20ReceiveMsgView,
    sender_valid: bool,
)
    requires
        token_purchase_outcome(pre, post, r, caller, notice, sender_valid),
        pre.config is Some,
        caller == pre.config->0.token_address,
        notice.msg is Some,
        !pre.offerings.contains_key(notice.msg->0.offering_id),
    ensures
        r == Err::<Response, ContractError>(ContractError::OfferingNotFound {  }),
        post == pre,
{
}

/// A purchase with coins that brings less than the list price is rejected
/// for want of funds, and the offering stays listed as it was.
pub proof fn lemma_underpaid_purchase(
    pre: StorageView,
    post: StorageView,
    r: Result<Response, ContractError>,
    info: MessageInfoView,
    id: Seq<char>,
)
    requires
        purchase_outcome(pre, post, r, info, id),
        pre.offerings.contains_key(id),
        attached(info.funds, pre.offerings[id].list_price.denom) < pre.offerings[id].list_price.amount,
    ensures
        r == Err::<Response, ContractError>(ContractError::NotEnoughFunds {  }),
        post == pre,
        post.offerings.contains_key(id),
{
}

/// A payment notification that comes from the token contract and brings
/// fewer tokens than the list price is rejected for want of funds, and the
/// offering stays listed as it was.
pub proof fn lemma_underpaid_token_purchase(
    pre: StorageView,
    post: StorageView,
    r: Result<Response, ContractError>,
    caller: Seq<char>,
    notice: Cw20ReceiveMsgView,
    sender_valid: bool,
)
    requires
        token_purchase_outcome(pre, post, r, caller, notice, sender_valid),
        pre.config is Some,
        caller == pre.config->0.token_address,
        notice.msg is Some,
        pre.offerings.contains_key(notice.msg->0.offering_id),
        notice.amount < pre.offerings[notice.msg->0.offering_id].list_price.amount,
    ensures
        r == Err::<Response, ContractError>(ContractError::NotEnoughFunds {  }),
        post == pre,
        post.offerings.contains_key(notice.msg->0.offering_id),
{
}

/// A purchase with coins of a listed offering that brings at least the list
/// price in the price's denomination is accepted, once the marketplace has
/// been set up: the offering leaves the store, the item goes to the buyer and
/// the list price to the seller.
pub proof fn lemma_paid_purchase_is_accepted(
    pre: StorageView,
    post: StorageView,
    r: Result<Response, ContractError>,
    info: MessageInfoView,
    id: Seq<char>,
)
    requires
        purchase_outcome(pre, post, r, info, id),
        pre.config is Some,
        pre.offerings.contains_key(id),
        attached(info.funds, pre.offerings[id].list_price.denom)
            >= pre.offerings[id].list_price.amount,
    ensures
        r matches Ok(resp) && resp@ == purchase_response(pre, info.sender, id),
        post == without_offering(pre, id),
{
}

/// A payment notification from the token contract for a listed offering
/// priced in the marketplace token, which brings at least the list price and
/// names a valid buyer, is accepted: the offering leaves the store, the item
/// goes to the buyer and all the tokens to the seller.
pub proof fn lemma_paid_token_purchase_is_accepted(
    pre: StorageView,
    post: StorageView,
    r: Result<Response, ContractError>,
    caller: Seq<char>,
    notice: Cw20ReceiveMsgView,
)
    requires
        token_purchase_outcome(pre, post, r, caller, notice, true),
        pre.config is Some,
        caller == pre.config->0.token_address,
        notice.msg is Some,
        pre.offerings.contains_key(notice.msg->0.offering_id),
        pre.offerings[notice.msg->0.offering_id].list_price.denom == token_denom(),
        notice.amount >= pre.offerings[notice.msg->0.offering_id].list_price.amount,
    ensures
        r matches Ok(resp) && resp@ == token_purchase_response(pre, notice),
        post == without_offering(pre, notice.msg->0.offering_id),
{
}

/// The withdrawal of a listed offering by its seller is accepted, once the
/// marketplace has been set up: the offering leaves the store and the item
/// goes back to the seller.
pub proof fn lemma_sellers_withdrawal_is_accepted(
    pre: StorageView,
    post: StorageView,
    r: Result<Response, ContractError>,
    id: Seq<char>,
)
    requires
        pre.config is Some,
        pre.offerings.contains_key(id),
        withdrawal_outcome(pre, post, r, pre.offerings[id].seller, id),
    ensures
        r matches Ok(resp) && resp@ == withdrawal_response(pre, id),
        post == without_offering(pre, id),
{
}

/// Once an offering has left the store, no enumeration of the store holds
/// its id.
pub proof fn lemma_removed_offering_is_not_listed(
    offerings: Map<Seq<char>, OfferingView>,
    id: Seq<char>,
    listing: Seq<(Seq<char>, OfferingView)>,
    i: int,
)
    requires
        !offerings.contains_key(id),
        lists_in_key_order(offerings, listing),
        0 <= i < listing.len(),
    ensures
        listing[i].0 != id,
{
}

/// An accepted purchase with coins takes the offering out of the store: a
/// lookup of the id finds nothing, and no enumeration holds it.
pub proof fn lemma_purchase_removes_offering(
    pre: StorageView,
    post: StorageView,
    r: Result<Response, ContractError>,
    info: MessageInfoView,
    id: Seq<char>,
)
    requires
        purchase_outcome(pre, post, r, info, id),
        r is Ok,
    ensures
        pre.offerings.contains_key(id),
        !post.offerings.contains_key(id),
        forall|listing: Seq<(Seq<char>, OfferingView)>, i: int|
            lists_in_key_order(post.offerings, listing) && 0 <= i < listing.len()
                ==> #[trigger] listing[i].0 != id,
{
}

/// An accepted purchase with tokens takes the offering out of the store: a
/// lookup of the id finds nothing, and no enumeration holds it.
pub proof fn lemma_token_purchase_removes_offering(
    pre: StorageView,
    post: StorageView,
    r: Result<Response, ContractError>,
    caller: Seq<char>,
    notice: Cw20ReceiveMsgView,
    sender_valid: bool,
)
    requires
        token_purchase_outcome(pre, post, r, caller, notice, sender_valid),
        r is Ok,
    ensures
        pre.offerings.contains_key(notice.msg->0.offering_id),
        !post.offerings.contains_key(notice.msg->0.offering_id),
        forall|listing: Seq<(Seq<char>, OfferingView)>, i: int|
            lists_in_key_order(post.offerings, listing) && 0 <= i < listing.len()
                ==> #[trigger] listing[i].0 != notice.msg->0.offering_id,
{
}

/// An accepted withdrawal takes the offering out of the store: a lookup of
/// the id finds nothing, and no enumeration holds it.
pub proof fn lemma_withdrawal_removes_offering(
    pre: StorageView,
    post: StorageView,
    r: Result<Response, ContractError>,
    caller: Seq<char>,
    id: Seq<char>,
)
    requires
        withdrawal_outcome(pre, post, r, caller, id),
        r is Ok,
    ensures
        pre.offerings.contains_key(id),
        !post.offerings.contains_key(id),
        forall|listing: Seq<(Seq<char>, OfferingView)>, i: int|
            lists_in_key_order(post.offerings, listing) && 0 <= i < listing.len()
                ==> #[trigger] listing[i].0 != id,
{
}

/// An offering is settled once: after an accepted purchase or withdrawal,
/// whoever asks for the same id again, to buy it with coins or to withdraw
/// it, is told that it is not found.
pub proof fn lemma_no_second_settlement(
    settled_in: StorageView,
    id: Seq<char>,
    post: StorageView,
    r: Result<Response, ContractError>,
    info: MessageInfoView,
)
    requires
        !settled_in.offerings.contains_key(id),
        purchase_outcome(settled_in, post, r, info, id) || withdrawal_outcome(
            settled_in,
            post,
            r,
            info.sender,
            id,
        ),
    ensures
        r == Err::<Response, ContractError>(ContractError::OfferingNotFound {  }),
        post == settled_in,
{
}

/// A deposit notification from any address but the configured NFT contract
/// is rejected whatever it carries, and changes nothing.
pub proof fn lemma_untrusted_deposit_notice(
    pre: StorageView,
    post: StorageView,
    r: Result<Response, ContractError>,
    caller: Seq<char>,
    notice: Cw721ReceiveMsgView,
    sender_valid: bool,
)
    requires
        listing_outcome(pre, post, r, caller, notice, sender_valid),
        pre.config is Some,
        caller != pre.config->0.nft_address,
    ensures
        r == Err::<Response, ContractError>(ContractError::WrongNFTContractError {  }),
        post == pre,
{
}

/// A payment notification from any address but the configured token
/// contract is rejected whatever it carries, and changes nothing.
pub proof fn lemma_untrusted_payment_notice(
    pre: StorageView,
    post: StorageView,
    r: Result<Response, ContractError>,
    caller: Seq<char>,
    notice: Cw20ReceiveMsgView,
    sender_valid: bool,
)
    requires
        token_purchase_outcome(pre, post, r, caller, notice, sender_valid),
        pre.config is Some,
        caller != pre.config->0.token_address,
    ensures
        r == Err::<Response, ContractError>(ContractError::WrongTokenContractError {  }),
        post == pre,
{
}

/// An offering priced in anything but the marketplace token cannot be bought
/// with tokens, however many are paid.
pub proof fn lemma_token_purchase_needs_token_price(
    pre: StorageView,
    post: StorageView,
    r: Result<Response, ContractError>,
    caller: Seq<char>,
    notice: Cw20ReceiveMsgView,
    sender_valid: bool,
)
    requires
        token_purchase_outcome(pre, post, r, caller, notice, sender_valid),
        pre.config is Some,
        caller == pre.config->0.token_address,
        notice.msg is Some,
        pre.offerings.contains_key(notice.msg->0.offering_id),
        pre.offerings[notice.msg->0.offering_id].list_price.denom != token_denom(),
    ensures
        r == Err::<Response, ContractError>(ContractError::NotEnoughFunds {  }),
        post == pre,
{
}

/// Only its seller withdraws an offering: the withdrawal of a listed
/// offering by anyone else is rejected as unauthorized and leaves the
/// offering listed, and a withdrawal that was accepted came from the seller.
pub proof fn lemma_only_seller_withdraws(
    pre: StorageView,
    post: StorageView,
    r: Result<Response, ContractError>,
    caller: Seq<char>,
    id: Seq<char>,
)
    requires
        withdrawal_outcome(pre, post, r, caller, id),
        pre.offerings.contains_key(id),
    ensures
        caller != pre.offerings[id].seller ==> r == Err::<Response, ContractError>(
            ContractError::Unauthorized {  },
        ) && post == pre && post.offerings.contains_key(id),
        r is Ok ==> caller == pre.offerings[id].seller,
{
}

/// Only the owner changes the configuration record: a change of the token
/// contract, of the NFT contract or of the owner that anyone else asks for
/// is rejected as unauthorized and changes nothing, and one that was
/// accepted came from the owner.
pub proof fn lemma_only_owner_administers(
    pre: StorageView,
    post: StorageView,
    r: Result<Response, ContractError>,
    caller: Seq<char>,
    address: Seq<char>,
    address_valid: bool,
)
    requires
        pre.config is Some,
        token_address_outcome(pre, post, r, caller, address, address_valid)
            || nft_address_outcome(pre, post, r, caller, address, address_valid)
            || change_owner_outcome(pre, post, r, caller, address, address_valid),
    ensures
        caller != pre.config->0.owner ==> r == Err::<Response, ContractError>(
            ContractError::Unauthorized {  },
        ) && post == pre,
        r is Ok ==> caller == pre.config->0.owner,
{
}

/// After an accepted change of owner the new owner has the owner's rights,
/// and the old one, unless the same, has lost them: whatever change of the
/// configuration record the old owner asks for is unauthorized, and none
/// that the new owner asks for with a valid address is rejected.
pub proof fn lemma_change_owner_hands_rights_over(
    pre: StorageView,
    post: StorageView,
    r: Result<Response, ContractError>,
    caller: Seq<char>,
    address: Seq<char>,
    address_valid: bool,
)
    requires
        change_owner_outcome(pre, post, r, caller, address, address_valid),
        r is Ok,
    ensures
        post.config is Some,
        post.config->0.owner == address,
        admin_rejection(post, address, true) is None,
        caller != address ==> forall|valid: bool| #[trigger]
            admin_rejection(post, caller, valid) == Some(ContractError::Unauthorized {  }),
{
}

} // verus!
