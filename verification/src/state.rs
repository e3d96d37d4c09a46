//! What the marketplace keeps between calls: the configuration record and the
//! offering store.

use vstd::prelude::*;
use crate::error::ContractError;
use crate::store::OfferingStore;

verus! {

/// A share of the host's 18-digit fixed-point type. The marketplace only
/// carries such values; it never reads them.
#[verifier::external_type_specification]
#[verifier::external_body]
pub struct ExDecimal(cosmwasm_std::Decimal);

/// The configuration record: who owns the marketplace, which two contracts it
/// trusts, and how many offering ids it has handed out.
#[derive(Debug, PartialEq)]
pub struct State {
    pub owner: String,
    pub token_address: String,
    pub nft_address: String,
    pub offering_id: u64,
}

/// `State` as the contracts see it: every text by its characters.
pub struct StateView {
    pub owner: Seq<char>,
    pub token_address: Seq<char>,
    pub nft_address: Seq<char>,
    pub offering_id: u64,
}

impl View for State {
    type V = StateView;

    open spec fn view(&self) -> StateView {
        StateView {
            owner: self.owner@,
            token_address: self.token_address@,
            nft_address: self.nft_address@,
            offering_id: self.offering_id,
        }
    }
}

impl Clone for State {
    fn clone(&self) -> (res: Self)
        ensures
            res == *self,
    {
        State {
            owner: self.owner.clone(),
            token_address: self.token_address.clone(),
            nft_address: self.nft_address.clone(),
            offering_id: self.offering_id,
        }
    }
}

/// A price: an amount of the currency that `denom` names.
#[derive(Debug, PartialEq)]
pub struct Asset {
    pub denom: String,
    pub amount: u128,
}

/// `Asset` as the contracts see it: every text by its characters.
pub struct PriceView {
    pub denom: Seq<char>,
    pub amount: u128,
}

impl View for Asset {
    type V = PriceView;

    open spec fn view(&self) -> PriceView {
        PriceView { denom: self.denom@, amount: self.amount }
    }
}

impl Clone for Asset {
    fn clone(&self) -> (res: Self)
        ensures
            res == *self,
    {
        Asset { denom: self.denom.clone(), amount: self.amount }
    }
}

/// An item in custody, for sale at a fixed price.
#[derive(Debug, PartialEq)]
pub struct Offering {
    pub token_id: String,
    pub seller: String,
    pub list_price: Asset,
}

/// `Offering` as the contracts see it: every text by its characters.
pub struct OfferingView {
    pub token_id: Seq<char>,
    pub seller: Seq<char>,
    pub list_price: PriceView,
}

impl View for Offering {
    type V = OfferingView;

    open spec fn view(&self) -> OfferingView {
        OfferingView {
            token_id: self.token_id@,
            seller: self.seller@,
            list_price: self.list_price@,
        }
    }
}

impl Clone for Offering {
    fn clone(&self) -> (res: Self)
        ensures
            res == *self,
    {
        Offering {
            token_id: self.token_id.clone(),
            seller: self.seller.clone(),
            list_price: self.list_price.clone(),
        }
    }
}

/// A member of the admin list with its share.
#[derive(Debug)]
pub struct UserInfo {
    pub address: String,
    pub portion: cosmwasm_std::Decimal,
}

/// Everything the marketplace keeps between calls.
pub struct Storage {
    /// The configuration record; `None` until the marketplace is set up.
    pub config: Option<State>,
    /// The offerings that are listed.
    pub offerings: OfferingStore,
}

/// `Storage` as the contracts see it: the configuration record, if it has
/// been written, and the offerings as a map from id to offering.
pub struct StorageView {
    pub config: Option<StateView>,
    pub offerings: Map<Seq<char>, OfferingView>,
}

impl View for Storage {
    type V = StorageView;

    open spec fn view(&self) -> StorageView {
        StorageView {
            config: match self.config {
                Some(state) => Some(state@),
                None => None,
            },
            offerings: self.offerings@,
        }
    }
}

impl Storage {
    /// A storage in which nothing has been written.
    pub fn new() -> (storage: Self)
        ensures
            storage@ == (StorageView { config: None, offerings: Map::empty() }),
    {
        Storage { config: None, offerings: OfferingStore::new() }
    }

    /// The configuration record.
    pub fn load(&self) -> (r: Result<State, ContractError>)
        ensures
            match r {
                Ok(state) => self@.config == Some(state@),
                Err(e) => self@.config is None && e == (ContractError::Uninitialized {}),
            },
    {
        match &self.config {
            Some(state) => Ok(state.clone()),
            None => Err(ContractError::Uninitialized {}),
        }
    }

    /// Writes the configuration record, in place of the one that was there.
    pub fn save(&mut self, state: State)
        ensures
            final(self)@ == (StorageView { config: Some(state@), ..old(self)@ }),
    {
        self.config = Some(state);
    }
}

} // verus!
