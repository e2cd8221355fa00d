//! Records held by the directory, and their mathematical views.

use vstd::prelude::*;

verus! {

/// Which account collection a session's user id resolves against.
#[derive(Debug, Clone, Copy, PartialEq, Eq, Structural)]
pub enum UserType {
    Buyer,
    Seller,
}

/// The condition of an item that is for sale.
#[derive(Debug, Clone, Copy, PartialEq, Eq, Structural)]
pub enum Condition {
    New,
    Used,
}

/// Feedback tally of a seller.
#[derive(Debug, Clone, Copy, PartialEq, Eq, Structural)]
pub struct Feedback {
    pub thumbs_up: i32,
    pub thumbs_down: i32,
}

/// A session: a time-limited credential that binds a session id to one account.
#[derive(Debug, Clone, Copy, PartialEq, Eq, Structural)]
pub struct Session {
    pub session_id: u128,
    pub user_id: u128,
    pub user_type: UserType,
    /// Absolute expiration instant, in seconds since the Unix epoch.
    pub expiration: i64,
}

/// A seller account.
#[derive(Debug)]
pub struct Seller {
    pub seller_id: u128,
    pub seller_name: String,
    pub feedback: Feedback,
    pub items_sold: i32,
    pub password: String,
}

/// What a seller account is, with its strings as character sequences.
pub struct SellerView {
    pub seller_id: u128,
    pub seller_name: Seq<char>,
    pub feedback: Feedback,
    pub items_sold: i32,
    pub password: Seq<char>,
}

impl View for Seller {
    type V = SellerView;

    open spec fn view(&self) -> SellerView {
        SellerView {
            seller_id: self.seller_id,
            seller_name: self.seller_name@,
            feedback: self.feedback,
            items_sold: self.items_sold,
            password: self.password@,
        }
    }
}

impl Clone for Seller {
    fn clone(&self) -> (copy: Seller)
        ensures
            copy == *self,
    {
        Seller {
            seller_id: self.seller_id,
            seller_name: self.seller_name.clone(),
            feedback: self.feedback,
            items_sold: self.items_sold,
            password: self.password.clone(),
        }
    }
}

/// A buyer account.
#[derive(Debug)]
pub struct Buyer {
    pub buyer_id: u128,
    pub buyer_name: String,
    pub items_purchased: i32,
    pub password: String,
}

/// What a buyer account is, with its strings as character sequences.
pub struct BuyerView {
    pub buyer_id: u128,
    pub buyer_name: Seq<char>,
    pub items_purchased: i32,
    pub password: Seq<char>,
}

impl View for Buyer {
    type V = BuyerView;

    open spec fn view(&self) -> BuyerView {
        BuyerView {
            buyer_id: self.buyer_id,
            buyer_name: self.buyer_name@,
            items_purchased: self.items_purchased,
            password: self.password@,
        }
    }
}

impl Clone for Buyer {
    fn clone(&self) -> (copy: Buyer)
        ensures
            copy == *self,
    {
        Buyer {
            buyer_id: self.buyer_id,
            buyer_name: self.buyer_name.clone(),
            items_purchased: self.items_purchased,
            password: self.password.clone(),
        }
    }
}

/// The record of a seller who has just been created: nothing sold, no feedback.
pub open spec fn new_seller(id: u128, name: Seq<char>, password: Seq<char>) -> SellerView {
    SellerView {
        seller_id: id,
        seller_name: name,
        feedback: Feedback { thumbs_up: 0, thumbs_down: 0 },
        items_sold: 0,
        password,
    }
}

/// The record of a buyer who has just been created: nothing purchased.
pub open spec fn new_buyer(id: u128, name: Seq<char>, password: Seq<char>) -> BuyerView {
    BuyerView { buyer_id: id, buyer_name: name, items_purchased: 0, password }
}

/// What one slot of a table holds. All three collections share this type, so
/// that each operation of the underlying map is given its meaning once.
#[derive(Debug)]
pub enum Record {
    Seller(Seller),
    Buyer(Buyer),
    Session(Session),
}

impl Clone for Record {
    fn clone(&self) -> (copy: Record)
        ensures
            copy == *self,
    {
        match self {
            Record::Seller(s) => Record::Seller(s.clone()),
            Record::Buyer(b) => Record::Buyer(b.clone()),
            Record::Session(s) => Record::Session(*s),
        }
    }
}

} // verus!
