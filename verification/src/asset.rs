//! Currency-tagged amounts, and how they are paid out.

use vstd::prelude::*;
use vstd::string::StringExecFns;
use vstd::utf8::encode_utf8;
use crate::contract::{attached_amount, wasm_execute};
use crate::decimal::{decimal, decimal_string};
use crate::host::{coins_view, BankMsg, Coin, CoinView, CosmosMsg, MessageInfo};
use crate::rules::{attached, coin_payment, token_payment};
use crate::wire::transfer_binary;

verus! {

/// The currency of an amount: a token contract or a native denomination.
#[derive(Debug, PartialEq)]
pub enum AssetInfo {
    Token { contract_addr: String },
    NativeToken { denom: String },
}

/// `AssetInfo` as the contracts see it: every text by its characters.
pub enum AssetInfoView {
    Token { contract_addr: Seq<char> },
    NativeToken { denom: Seq<char> },
}

impl AssetInfoView {
    /// The text that identifies the currency under its tag: the address of
    /// the token contract, or the denomination.
    pub open spec fn text(self) -> Seq<char> {
        match self {
            AssetInfoView::Token { contract_addr } => contract_addr,
            AssetInfoView::NativeToken { denom } => denom,
        }
    }
}

impl View for AssetInfo {
    type V = AssetInfoView;

    open spec fn view(&self) -> AssetInfoView {
        match *self {
            AssetInfo::Token { contract_addr } => AssetInfoView::Token {
                contract_addr: contract_addr@,
            },
            AssetInfo::NativeToken { denom } => AssetInfoView::NativeToken { denom: denom@ },
        }
    }
}

impl Clone for AssetInfo {
    fn clone(&self) -> (res: Self)
        ensures
            res == *self,
    {
        match self {
            AssetInfo::Token { contract_addr } => AssetInfo::Token {
                contract_addr: contract_addr.clone(),
            },
            AssetInfo::NativeToken { denom } => AssetInfo::NativeToken { denom: denom.clone() },
        }
    }
}

impl AssetInfo {
    /// The identifying text.
    pub fn to_string(&self) -> (s: String)
        ensures
            s@ == self@.text(),
    {
        match self {
            AssetInfo::NativeToken { denom } => denom.clone(),
            AssetInfo::Token { contract_addr } => contract_addr.clone(),
        }
    }

    /// Whether this is a native denomination.
    pub fn is_native_token(&self) -> (b: bool)
        ensures
            b == (self@ is NativeToken),
    {
        match self {
            AssetInfo::NativeToken { .. } => true,
            AssetInfo::Token { .. } => false,
        }
    }

    /// The identifying text in UTF-8.
    pub fn as_bytes(&self) -> (bytes: &[u8])
        ensures
            bytes@ == encode_utf8(self@.text()),
    {
        match self {
            AssetInfo::NativeToken { denom } => denom.as_str().as_bytes(),
            AssetInfo::Token { contract_addr } => contract_addr.as_str().as_bytes(),
        }
    }

    /// Whether both currencies carry the same tag and the same identifying
    /// text.
    pub fn equal(&self, asset: &AssetInfo) -> (b: bool)
        ensures
            b == (self@ == asset@),
    {
        match self {
            AssetInfo::Token { contract_addr, .. } => {
                let self_contract_addr = contract_addr;
                match asset {
                    AssetInfo::Token { contract_addr, .. } => *self_contract_addr == *contract_addr,
                    AssetInfo::NativeToken { .. } => false,
                }
            },
            AssetInfo::NativeToken { denom, .. } => {
                let self_denom = denom;
                match asset {
                    AssetInfo::Token { .. } => false,
                    AssetInfo::NativeToken { denom, .. } => *self_denom == *denom,
                }
            },
        }
    }
}

/// An amount of a currency.
#[derive(Debug, PartialEq)]
pub struct Asset {
    pub info: AssetInfo,
    pub amount: u128,
}

/// `Asset` as the contracts see it: every text by its characters.
pub struct AssetView {
    pub info: AssetInfoView,
    pub amount: u128,
}

impl View for Asset {
    type V = AssetView;

    open spec fn view(&self) -> AssetView {
        AssetView { info: self.info@, amount: self.amount }
    }
}

impl Clone for Asset {
    fn clone(&self) -> (res: Self)
        ensures
            res == *self,
    {
        Asset { info: self.info.clone(), amount: self.amount }
    }
}

/// Whether the coins sent along agree with the asset: for a native
/// denomination, the amount sent in it is the asset's amount, nothing sent
/// counting as zero. A token amount agrees with any coins.
pub open spec fn sent_balance_matches(asset: AssetView, funds: Seq<CoinView>) -> bool {
    asset.info matches AssetInfoView::NativeToken { denom } ==> asset.amount == attached(funds, denom)
}

/// The host library's generic error that carries the message `msg`.
pub uninterp spec fn generic_error(msg: Seq<char>) -> cosmwasm_std::StdError;

/// The message of the error for coins that do not agree with an asset.
pub open spec fn balance_mismatch() -> Seq<char> {
    "Native token balance mismatch between the argument and the transferred"@
}

/// Calls `cosmwasm_std::StdError::generic_err`, which builds the host
/// library's generic error around `msg` and reads nothing else.
#[verifier::external_body]
fn generic_err(msg: &str) -> (e: cosmwasm_std::StdError)
    ensures
        e == generic_error(msg@),
{
    cosmwasm_std::StdError::generic_err(msg)
}

impl Asset {
    /// The amount in decimal, followed by the currency's identifying text.
    pub fn to_string(&self) -> (s: String)
        ensures
            s@ == decimal(self@.amount as nat) + self@.info.text(),
    {
        let mut s = decimal_string(self.amount);
        let info = self.info.to_string();
        s.append(info.as_str());
        s
    }

    /// Checks that the coins sent along with a call agree with this asset.
    /// Where they do not, the error is the host library's generic error with
    /// the message `balance_mismatch`.
    pub fn assert_sent_native_token_balance(&self, message_info: &MessageInfo) -> (r: Result<
        (),
        cosmwasm_std::StdError,
    >)
        ensures
            match r {
                Ok(_) => sent_balance_matches(self@, message_info@.funds),
                Err(e) => !sent_balance_matches(self@, message_info@.funds) && e == generic_error(
                    balance_mismatch(),
                ),
            },
    {
        if let AssetInfo::NativeToken { denom } = &self.info {
            if self.amount == attached_amount(&message_info.funds, denom) {
                Ok(())
            } else {
                Err(
                    generic_err(
                        "Native token balance mismatch between the argument and the transferred",
                    ),
                )
            }
        } else {
            Ok(())
        }
    }

    /// The instruction that pays this asset to `recipient`: a payment by the
    /// bank for a native denomination, and for a token the call of its
    /// contract with the transfer that the host library encodes.
    pub fn into_msg(self, recipient: String) -> (r: Result<CosmosMsg, cosmwasm_std::StdError>)
        ensures
            match self@.info {
                AssetInfoView::NativeToken { denom } => r matches Ok(m) && m@ == coin_payment(
                    recipient@,
                    denom,
                    self@.amount,
                ),
                AssetInfoView::Token { contract_addr } => r matches Ok(m) && m@ == token_payment(
                    contract_addr,
                    recipient@,
                    self@.amount,
                ),
            },
    {
        let amount = self.amount;
        match self.info {
            AssetInfo::Token { contract_addr } => wasm_execute(
                contract_addr,
                transfer_binary(&recipient, amount),
            ),
            AssetInfo::NativeToken { denom } => {
                let mut coins: Vec<Coin> = Vec::new();
                coins.push(Coin { denom, amount });
                assert(coins_view(coins@) =~= seq![coins@[0]@]);
                Ok(CosmosMsg::Bank(BankMsg::Send { to_address: recipient, amount: coins }))
            },
        }
    }
}

} // verus!
