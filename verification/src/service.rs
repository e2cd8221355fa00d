//! The directory as a whole, and the dispatch of requests to it.

use vstd::prelude::*;
use vstd::string::StringExecFns;
use crate::accounts::{buyers_filed_by_id, sellers_filed_by_id, AccountDirectory};
use crate::clock::{is_clock_reading, unix_now};
use crate::ids::{is_first_vacant, random_id};
use crate::model::{new_buyer, new_seller, BuyerView, SellerView, Session};
use crate::protocol::{CustomerDbRequest, CustomerDbResponse};
use crate::sessions::{
    expired_ids, found_at, opened, read_at, sessions_filed_by_id, swept, SessionStore, SESSION_TTL,
};

verus! {

/// The accounts and the sessions that requests are served from.
pub struct CustomerDb {
    pub accounts: AccountDirectory,
    pub sessions: SessionStore,
}

/// What the directory holds.
pub struct DbState {
    pub sellers: Map<u128, SellerView>,
    pub buyers: Map<u128, BuyerView>,
    pub sessions: Map<u128, Session>,
}

impl DbState {
    /// Whether the state can be what a directory holds: each collection is
    /// finite and files every record under the record's own id.
    pub open spec fn filed_by_id(self) -> bool {
        &&& sellers_filed_by_id(self.sellers)
        &&& buyers_filed_by_id(self.buyers)
        &&& sessions_filed_by_id(self.sessions)
    }
}

impl View for CustomerDb {
    type V = DbState;

    open spec fn view(&self) -> DbState {
        DbState {
            sellers: self.accounts.sellers(),
            buyers: self.accounts.buyers(),
            sessions: self.sessions.sessions(),
        }
    }
}

/// Whether serving the request takes a reading of the clock.
pub open spec fn reads_clock(request: CustomerDbRequest) -> bool {
    request is CreateSession || request is GetSession || request is CleanupSessions
}

/// Whether serving the request sets an expiration, `SESSION_TTL` after the
/// reading of the clock.
pub open spec fn sets_expiration(request: CustomerDbRequest) -> bool {
    request is CreateSession || request is GetSession
}

/// Whether serving the request takes a fresh id.
pub open spec fn takes_id(request: CustomerDbRequest) -> bool {
    request is CreateSeller || request is CreateBuyer || request is CreateSession
}

/// Whether `response` and `post` are what serving `request` gives in the
/// state `pre`, when the clock reads `now` and ids are looked for from
/// `candidate` on.
pub open spec fn serves(
    pre: DbState,
    request: CustomerDbRequest,
    now: i64,
    candidate: u128,
    post: DbState,
    response: CustomerDbResponse,
) -> bool {
    match request {
        CustomerDbRequest::CreateSeller { seller_name, password } => {
            &&& response matches CustomerDbResponse::SellerCreated(id)
            &&& is_first_vacant(pre.sellers.dom(), candidate, id)
            &&& post == DbState {
                sellers: pre.sellers.insert(id, new_seller(id, seller_name@, password@)),
                ..pre
            }
        },
        CustomerDbRequest::CreateBuyer { buyer_name, password } => {
            &&& response matches CustomerDbResponse::BuyerCreated(id)
            &&& is_first_vacant(pre.buyers.dom(), candidate, id)
            &&& post == DbState {
                buyers: pre.buyers.insert(id, new_buyer(id, buyer_name@, password@)),
                ..pre
            }
        },
        CustomerDbRequest::GetSellerByName { seller_name } => {
            &&& post == pre
            &&& response matches CustomerDbResponse::Seller(found)
            &&& match found {
                Some(seller) => pre.sellers.contains_key(seller.seller_id)
                    && pre.sellers[seller.seller_id] == seller@ && seller.seller_name@
                    == seller_name@,
                None => forall|k: u128|
                    pre.sellers.contains_key(k) ==> pre.sellers[k].seller_name != seller_name@,
            }
        },
        CustomerDbRequest::GetBuyerByName { buyer_name } => {
            &&& post == pre
            &&& response matches CustomerDbResponse::Buyer(found)
            &&& match found {
                Some(buyer) => pre.buyers.contains_key(buyer.buyer_id)
                    && pre.buyers[buyer.buyer_id] == buyer@ && buyer.buyer_name@ == buyer_name@,
                None => forall|k: u128|
                    pre.buyers.contains_key(k) ==> pre.buyers[k].buyer_name != buyer_name@,
            }
        },
        CustomerDbRequest::GetSeller { seller_id } => {
            &&& post == pre
            &&& response matches CustomerDbResponse::Seller(found)
            &&& match found {
                Some(seller) => pre.sellers.contains_key(seller_id) && seller@
                    == pre.sellers[seller_id],
                None => !pre.sellers.contains_key(seller_id),
            }
        },
        CustomerDbRequest::UpdateSeller { seller } => {
            &&& response is SellerUpdated
            &&& post == DbState { sellers: pre.sellers.insert(seller.seller_id, seller@), ..pre }
        },
        CustomerDbRequest::GetBuyer { buyer_id } => {
            &&& post == pre
            &&& response matches CustomerDbResponse::Buyer(found)
            &&& match found {
                Some(buyer) => pre.buyers.contains_key(buyer_id) && buyer@ == pre.buyers[buyer_id],
                None => !pre.buyers.contains_key(buyer_id),
            }
        },
        CustomerDbRequest::UpdateBuyer { buyer } => {
            &&& response is BuyerUpdated
            &&& post == DbState { buyers: pre.buyers.insert(buyer.buyer_id, buyer@), ..pre }
        },
        CustomerDbRequest::CreateSession { user_id, user_type } => {
            &&& response matches CustomerDbResponse::SessionCreated(id, expiration)
            &&& is_first_vacant(pre.sessions.dom(), candidate, id)
            &&& expiration == now + SESSION_TTL
            &&& post == DbState {
                sessions: pre.sessions.insert(id, opened(id, user_id, user_type, now)),
                ..pre
            }
        },
        CustomerDbRequest::GetSession { session_id } => {
            &&& post == DbState { sessions: read_at(pre.sessions, session_id, now), ..pre }
            &&& response matches CustomerDbResponse::Session(found)
            &&& found == found_at(pre.sessions, session_id, now)
        },
        CustomerDbRequest::DeleteSession { session_id } => {
            &&& response is SessionDeleted
            &&& post == DbState { sessions: pre.sessions.remove(session_id), ..pre }
        },
        CustomerDbRequest::CleanupSessions => {
            &&& response matches CustomerDbResponse::SessionsCleaned(count)
            &&& count == expired_ids(pre.sessions, now).len()
            &&& post == DbState { sessions: swept(pre.sessions, now), ..pre }
        },
    }
}

/// The message that answers a line which is no request, given why it is none.
pub open spec fn rejection(reason: Seq<char>) -> Seq<char> {
    "Invalid request: "@ + reason
}

impl CustomerDb {
    /// What a directory holds is finite, and every record is filed under its
    /// own id.
    pub proof fn lemma_filed_by_id(&self)
        ensures
            self@.filed_by_id(),
    {
        self.accounts.lemma_accounts_filed_by_id();
        self.sessions.lemma_sessions_filed_by_id();
    }

    /// A directory without accounts or sessions.
    pub fn new() -> (db: CustomerDb)
        ensures
            forall|id: u128| !db@.sellers.contains_key(id),
            forall|id: u128| !db@.buyers.contains_key(id),
            forall|id: u128| !db@.sessions.contains_key(id),
    {
        CustomerDb { accounts: AccountDirectory::new(), sessions: SessionStore::new() }
    }

    /// Serves one request, with the clock at `now` and with ids looked for
    /// from `candidate` on.
    pub fn handle_request_at(
        &mut self,
        request: CustomerDbRequest,
        now: i64,
        candidate: u128,
    ) -> (response: CustomerDbResponse)
        requires
            sets_expiration(request) ==> now + SESSION_TTL <= i64::MAX,
        ensures
            serves(old(self)@, request, now, candidate, final(self)@, response),
    {
        match request {
            CustomerDbRequest::CreateSeller { seller_name, password } => {
                let id: u128 = self.accounts.create_seller_with(
                    candidate,
                    seller_name,
                    password,
                );
                CustomerDbResponse::SellerCreated(id)
            },
            CustomerDbRequest::CreateBuyer { buyer_name, password } => {
                let id: u128 = self.accounts.create_buyer_with(
                    candidate,
                    buyer_name,
                    password,
                );
                CustomerDbResponse::BuyerCreated(id)
            },
            CustomerDbRequest::GetSellerByName { seller_name } => {
                CustomerDbResponse::Seller(self.accounts.get_seller_by_name(&seller_name))
            },
            CustomerDbRequest::GetBuyerByName { buyer_name } => {
                CustomerDbResponse::Buyer(self.accounts.get_buyer_by_name(&buyer_name))
            },
            CustomerDbRequest::GetSeller { seller_id } => {
                CustomerDbResponse::Seller(self.accounts.get_seller_by_id(seller_id))
            },
            CustomerDbRequest::UpdateSeller { seller } => {
                self.accounts.update_seller(seller);
                CustomerDbResponse::SellerUpdated
            },
            CustomerDbRequest::GetBuyer { buyer_id } => {
                CustomerDbResponse::Buyer(self.accounts.get_buyer_by_id(buyer_id))
            },
            CustomerDbRequest::UpdateBuyer { buyer } => {
                self.accounts.update_buyer(buyer);
                CustomerDbResponse::BuyerUpdated
            },
            CustomerDbRequest::CreateSession { user_id, user_type } => {
                let (id, expiration): (u128, i64) = self.sessions.create_session_at(
                    candidate,
                    user_id,
                    user_type,
                    now,
                );
                CustomerDbResponse::SessionCreated(id, expiration)
            },
            CustomerDbRequest::GetSession { session_id } => {
                CustomerDbResponse::Session(self.sessions.get_session_at(session_id, now))
            },
            CustomerDbRequest::DeleteSession { session_id } => {
                self.sessions.delete_session(session_id);
                CustomerDbResponse::SessionDeleted
            },
            CustomerDbRequest::CleanupSessions => {
                CustomerDbResponse::SessionsCleaned(self.sessions.sweep_expired(now))
            },
        }
    }

    /// Serves one request. The clock is read where the request needs the
    /// time, and a random id is drawn where it needs an id.
    pub fn handle_request(&mut self, request: CustomerDbRequest) -> (response: CustomerDbResponse)
        ensures
            exists|now: i64, candidate: u128|
                is_clock_reading(now) && serves(
                    old(self)@,
                    request,
                    now,
                    candidate,
                    final(self)@,
                    response,
                ),
    {
        let now: i64 = if needs_clock(&request) {
            unix_now()
        } else {
            0
        };
        let candidate: u128 = if needs_id(&request) {
            random_id()
        } else {
            0
        };
        self.handle_request_at(request, now, candidate)
    }

    /// Answers one line of a connection, as it was decoded. A request is
    /// served. A line that is no request changes nothing and is answered
    /// with an error that says why, after which the next line is taken.
    pub fn handle_decoded(
        &mut self,
        decoded: Result<CustomerDbRequest, String>,
    ) -> (response: CustomerDbResponse)
        ensures
            (match decoded {
                Ok(request) => exists|now: i64, candidate: u128|
                    is_clock_reading(now) && serves(
                        old(self)@,
                        request,
                        now,
                        candidate,
                        final(self)@,
                        response,
                    ),
                Err(reason) => {
                    &&& final(self)@ == old(self)@
                    &&& response matches CustomerDbResponse::Error(message)
                    &&& message@ == rejection(reason@)
                },
            }),
    {
        match decoded {
            Ok(request) => self.handle_request(request),
            Err(reason) => CustomerDbResponse::Error(
                String::from_str("Invalid request: ").concat(reason.as_str()),
            ),
        }
    }
}

/// Whether serving the request takes a reading of the clock.
pub fn needs_clock(request: &CustomerDbRequest) -> (needed: bool)
    ensures
        needed == reads_clock(*request),
{
    match request {
        CustomerDbRequest::CreateSession { .. } => true,
        CustomerDbRequest::GetSession { .. } => true,
        CustomerDbRequest::CleanupSessions => true,
        _ => false,
    }
}

/// Whether serving the request takes a fresh id.
pub fn needs_id(request: &CustomerDbRequest) -> (needed: bool)
    ensures
        needed == takes_id(*request),
{
    match request {
        CustomerDbRequest::CreateSeller { .. } => true,
        CustomerDbRequest::CreateBuyer { .. } => true,
        CustomerDbRequest::CreateSession { .. } => true,
        _ => false,
    }
}

} // verus!
