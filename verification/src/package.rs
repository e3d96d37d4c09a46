//! The answers to queries about offerings.

use vstd::prelude::*;
use crate::state::{Asset, PriceView, State};

verus! {

/// One offering as a query reports it.
#[derive(Debug, PartialEq)]
pub struct QueryOfferingsResult {
    pub id: String,
    pub token_id: String,
    pub list_price: Asset,
    pub seller: String,
}

/// `QueryOfferingsResult` as the contracts see it: every text by its characters.
pub struct QueryOfferingsResultView {
    pub id: Seq<char>,
    pub token_id: Seq<char>,
    pub list_price: PriceView,
    pub seller: Seq<char>,
}

impl View for QueryOfferingsResult {
    type V = QueryOfferingsResultView;

    open spec fn view(&self) -> QueryOfferingsResultView {
        QueryOfferingsResultView {
            id: self.id@,
            token_id: self.token_id@,
            list_price: self.list_price@,
            seller: self.seller@,
        }
    }
}

/// Every offering, in the store's order.
#[derive(Debug, PartialEq)]
pub struct OfferingsResponse {
    pub offerings: Vec<QueryOfferingsResult>,
}

impl View for OfferingsResponse {
    type V = Seq<QueryOfferingsResultView>;

    open spec fn view(&self) -> Seq<QueryOfferingsResultView> {
        self.offerings@.map_values(|o: QueryOfferingsResult| o@)
    }
}

/// The answer to a query.
#[derive(Debug, PartialEq)]
pub enum QueryResponse {
    StateInfo(State),
    Offerings(OfferingsResponse),
}

} // verus!
