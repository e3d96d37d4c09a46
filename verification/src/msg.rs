//! The requests that the marketplace answers.

use vstd::prelude::*;
use crate::state::{Asset, PriceView, UserInfo};

verus! {

/// The request that sets the marketplace up. It carries nothing: the caller
/// becomes the owner.
#[derive(Debug, PartialEq)]
pub struct InstantiateMsg {}

/// The payload of a deposit notification: the price asked for the item.
#[derive(Debug, PartialEq)]
pub struct SellNft {
    pub list_price: Asset,
}

/// `SellNft` as the contracts see it: every text by its characters.
pub struct SellNftView {
    pub list_price: PriceView,
}

impl View for SellNft {
    type V = SellNftView;

    open spec fn view(&self) -> SellNftView {
        SellNftView { list_price: self.list_price@ }
    }
}

/// The payload of a payment notification: the offering paid for.
#[derive(Debug, PartialEq)]
pub struct BuyNft {
    pub offering_id: String,
}

/// `BuyNft` as the contracts see it: every text by its characters.
pub struct BuyNftView {
    pub offering_id: Seq<char>,
}

impl View for BuyNft {
    type V = BuyNftView;

    open spec fn view(&self) -> BuyNftView {
        BuyNftView { offering_id: self.offering_id@ }
    }
}

/// The NFT contract's notice that `sender` has handed the token `token_id`
/// over to the marketplace. `msg` is the payload as decoded by the caller:
/// `None` where it was no `SellNft`.
#[derive(Debug, PartialEq)]
pub struct Cw721ReceiveMsg {
    pub sender: String,
    pub token_id: String,
    pub msg: Option<SellNft>,
}

/// `Cw721ReceiveMsg` as the contracts see it: every text by its characters.
pub struct Cw721ReceiveMsgView {
    pub sender: Seq<char>,
    pub token_id: Seq<char>,
    pub msg: Option<SellNftView>,
}

impl View for Cw721ReceiveMsg {
    type V = Cw721ReceiveMsgView;

    open spec fn view(&self) -> Cw721ReceiveMsgView {
        Cw721ReceiveMsgView {
            sender: self.sender@,
            token_id: self.token_id@,
            msg: match self.msg {
                Some(m) => Some(m@),
                None => None,
            },
        }
    }
}

/// The token contract's notice that `sender` has paid `amount` tokens to the
/// marketplace. `msg` is the payload as decoded by the caller: `None` where it
/// was no `BuyNft`.
#[derive(Debug, PartialEq)]
pub struct Cw20ReceiveMsg {
    pub sender: String,
    pub amount: u128,
    pub msg: Option<BuyNft>,
}

/// `Cw20ReceiveMsg` as the contracts see it: every text by its characters.
pub struct Cw20ReceiveMsgView {
    pub sender: Seq<char>,
    pub amount: u128,
    pub msg: Option<BuyNftView>,
}

impl View for Cw20ReceiveMsg {
    type V = Cw20ReceiveMsgView;

    open spec fn view(&self) -> Cw20ReceiveMsgView {
        Cw20ReceiveMsgView {
            sender: self.sender@,
            amount: self.amount,
            msg: match self.msg {
                Some(m) => Some(m@),
                None => None,
            },
        }
    }
}

/// A request that may change the marketplace.
#[derive(Debug)]
pub enum ExecuteMsg {
    /// An item was deposited, to be listed.
    ReceiveNft(Cw721ReceiveMsg),
    /// Tokens were paid, for an offering.
    Receive(Cw20ReceiveMsg),
    /// Not in use: accepted, and changes nothing.
    SetAdminsList { members: Vec<UserInfo> },
    /// Buy an offering with the coins sent along.
    BuyNft { offering_id: String },
    /// Take an unsold item back.
    WithdrawNft { offering_id: String },
    ChangeOwner { address: String },
    SetTokenAddress { address: String },
    SetNftAddress { address: String },
}

/// A request that only reads.
#[derive(Debug, PartialEq)]
pub enum QueryMsg {
    /// The configuration record.
    GetStateInfo {},
    /// Every offering, in the store's order.
    GetOfferings {},
}

} // verus!
