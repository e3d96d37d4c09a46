//! The values exchanged with the host chain: who called and with what funds,
//! and the messages handed back for the host to carry out.

use vstd::prelude::*;

verus! {

/// An amount of a native coin.
#[derive(Debug, PartialEq)]
pub struct Coin {
    pub denom: String,
    pub amount: u128,
}

/// `Coin` as the contracts see it: every text by its characters.
pub struct CoinView {
    pub denom: Seq<char>,
    pub amount: u128,
}

impl View for Coin {
    type V = CoinView;

    open spec fn view(&self) -> CoinView {
        CoinView { denom: self.denom@, amount: self.amount }
    }
}

/// A list of coins by view.
pub open spec fn coins_view(coins: Seq<Coin>) -> Seq<CoinView> {
    coins.map_values(|c: Coin| c@)
}

/// The caller of an operation and the coins sent along with the call.
#[derive(Debug, PartialEq)]
pub struct MessageInfo {
    pub sender: String,
    pub funds: Vec<Coin>,
}

/// `MessageInfo` as the contracts see it: every text by its characters.
pub struct MessageInfoView {
    pub sender: Seq<char>,
    pub funds: Seq<CoinView>,
}

impl View for MessageInfo {
    type V = MessageInfoView;

    open spec fn view(&self) -> MessageInfoView {
        MessageInfoView { sender: self.sender@, funds: coins_view(self.funds@) }
    }
}

/// A message to the host's bank.
#[derive(Debug, PartialEq)]
pub enum BankMsg {
    /// Pay `amount` out of the marketplace's balance to `to_address`.
    Send { to_address: String, amount: Vec<Coin> },
}

/// `BankMsg` as the contracts see it: every text by its characters.
pub enum BankMsgView {
    Send { to_address: Seq<char>, amount: Seq<CoinView> },
}

impl View for BankMsg {
    type V = BankMsgView;

    open spec fn view(&self) -> BankMsgView {
        match *self {
            BankMsg::Send { to_address, amount } => BankMsgView::Send {
                to_address: to_address@,
                amount: coins_view(amount@),
            },
        }
    }
}

/// A message to another contract.
#[derive(Debug, PartialEq)]
pub enum WasmMsg {
    /// Call `contract_addr` with the encoded message `msg`, sending `funds` along.
    Execute { contract_addr: String, msg: Vec<u8>, funds: Vec<Coin> },
}

/// `WasmMsg` as the contracts see it: every text by its characters.
pub enum WasmMsgView {
    Execute { contract_addr: Seq<char>, msg: Seq<u8>, funds: Seq<CoinView> },
}

impl View for WasmMsg {
    type V = WasmMsgView;

    open spec fn view(&self) -> WasmMsgView {
        match *self {
            WasmMsg::Execute { contract_addr, msg, funds } => WasmMsgView::Execute {
                contract_addr: contract_addr@,
                msg: msg@,
                funds: coins_view(funds@),
            },
        }
    }
}

/// An instruction for the host to carry out once the call has returned.
#[derive(Debug, PartialEq)]
pub enum CosmosMsg {
    Bank(BankMsg),
    Wasm(WasmMsg),
}

/// `CosmosMsg` as the contracts see it: every text by its characters.
pub enum CosmosMsgView {
    Bank(BankMsgView),
    Wasm(WasmMsgView),
}

impl View for CosmosMsg {
    type V = CosmosMsgView;

    open spec fn view(&self) -> CosmosMsgView {
        match *self {
            CosmosMsg::Bank(m) => CosmosMsgView::Bank(m@),
            CosmosMsg::Wasm(m) => CosmosMsgView::Wasm(m@),
        }
    }
}

/// A key and value reported in the call's log.
#[derive(Debug, PartialEq)]
pub struct Attribute {
    pub key: String,
    pub value: String,
}

/// `Attribute` as the contracts see it: every text by its characters.
pub struct AttributeView {
    pub key: Seq<char>,
    pub value: Seq<char>,
}

impl View for Attribute {
    type V = AttributeView;

    open spec fn view(&self) -> AttributeView {
        AttributeView { key: self.key@, value: self.value@ }
    }
}

/// What an accepted call hands back: the instructions for the host, in the
/// order in which it is to carry them out, and the log attributes.
#[derive(Debug, PartialEq)]
pub struct Response {
    pub messages: Vec<CosmosMsg>,
    pub attributes: Vec<Attribute>,
}

/// `Response` as the contracts see it: every text by its characters.
pub struct ResponseView {
    pub messages: Seq<CosmosMsgView>,
    pub attributes: Seq<AttributeView>,
}

impl View for Response {
    type V = ResponseView;

    open spec fn view(&self) -> ResponseView {
        ResponseView {
            messages: self.messages@.map_values(|m: CosmosMsg| m@),
            attributes: self.attributes@.map_values(|a: Attribute| a@),
        }
    }
}

/// The response with no instruction and no attribute.
pub open spec fn empty_response() -> ResponseView {
    ResponseView { messages: Seq::empty(), attributes: Seq::empty() }
}

impl Response {
    /// A response with no instruction and no attribute.
    pub fn new() -> (r: Self)
        ensures
            r@ == empty_response(),
    {
        let r = Response { messages: Vec::new(), attributes: Vec::new() };
        assert(r@.messages =~= Seq::empty());
        assert(r@.attributes =~= Seq::empty());
        r
    }

    /// Appends an instruction.
    pub fn add_message(self, msg: CosmosMsg) -> (r: Self)
        ensures
            r@.messages == self@.messages.push(msg@),
            r@.attributes == self@.attributes,
    {
        let mut r = self;
        r.messages.push(msg);
        assert(r@.messages =~= self@.messages.push(msg@));
        r
    }

    /// Appends a log attribute.
    pub fn add_attribute(self, key: String, value: String) -> (r: Self)
        ensures
            r@.messages == self@.messages,
            r@.attributes == self@.attributes.push(AttributeView { key: key@, value: value@ }),
    {
        let mut r = self;
        r.attributes.push(Attribute { key, value });
        assert(r@.attributes =~= self@.attributes.push(AttributeView { key: key@, value: value@ }));
        r
    }
}

impl Default for Response {
    fn default() -> (r: Self)
        ensures
            r@ == empty_response(),
    {
        Response::new()
    }
}

} // verus!
