//! The requests that the directory serves, and its responses.

use vstd::prelude::*;
use crate::model::{Buyer, BuyerView, Seller, SellerView, Session, UserType};

verus! {

/// A request to the directory.
#[derive(Debug)]
pub enum CustomerDbRequest {
    CreateSeller { seller_name: String, password: String },
    CreateBuyer { buyer_name: String, password: String },
    GetSellerByName { seller_name: String },
    GetBuyerByName { buyer_name: String },
    GetSeller { seller_id: u128 },
    UpdateSeller { seller: Seller },
    GetBuyer { buyer_id: u128 },
    UpdateBuyer { buyer: Buyer },
    CreateSession { user_id: u128, user_type: UserType },
    GetSession { session_id: u128 },
    DeleteSession { session_id: u128 },
    CleanupSessions,
}

/// The directory's response to one request.
#[derive(Debug)]
pub enum CustomerDbResponse {
    SellerCreated(u128),
    BuyerCreated(u128),
    Seller(Option<Seller>),
    Buyer(Option<Buyer>),
    SellerUpdated,
    BuyerUpdated,
    /// The id of the new session and the instant at which it expires.
    SessionCreated(u128, i64),
    Session(Option<Session>),
    SessionDeleted,
    /// How many sessions the sweep removed.
    SessionsCleaned(usize),
    Error(String),
}

/// What a response says, with its records and its message as they read.
pub enum ResponseView {
    SellerCreated(u128),
    BuyerCreated(u128),
    Seller(Option<SellerView>),
    Buyer(Option<BuyerView>),
    SellerUpdated,
    BuyerUpdated,
    SessionCreated(u128, i64),
    Session(Option<Session>),
    SessionDeleted,
    SessionsCleaned(usize),
    Error(Seq<char>),
}

impl View for CustomerDbResponse {
    type V = ResponseView;

    open spec fn view(&self) -> ResponseView {
        match *self {
            CustomerDbResponse::SellerCreated(id) => ResponseView::SellerCreated(id),
            CustomerDbResponse::BuyerCreated(id) => ResponseView::BuyerCreated(id),
            CustomerDbResponse::Seller(found) => ResponseView::Seller(
                match found {
                    Some(seller) => Some(seller@),
                    None => None,
                },
            ),
            CustomerDbResponse::Buyer(found) => ResponseView::Buyer(
                match found {
                    Some(buyer) => Some(buyer@),
                    None => None,
                },
            ),
            CustomerDbResponse::SellerUpdated => ResponseView::SellerUpdated,
            CustomerDbResponse::BuyerUpdated => ResponseView::BuyerUpdated,
            CustomerDbResponse::SessionCreated(id, expiration) => ResponseView::SessionCreated(
                id,
                expiration,
            ),
            CustomerDbResponse::Session(found) => ResponseView::Session(found),
            CustomerDbResponse::SessionDeleted => ResponseView::SessionDeleted,
            CustomerDbResponse::SessionsCleaned(count) => ResponseView::SessionsCleaned(count),
            CustomerDbResponse::Error(message) => ResponseView::Error(message@),
        }
    }
}

} // verus!
