//! What holds of the directory across several operations.

use vstd::prelude::*;
use vstd::set_lib::*;
use crate::ids::{first_vacancy_at, is_first_vacant, lemma_first_vacant_unique, nth_after};
use crate::model::{BuyerView, SellerView, Session, UserType};
use crate::protocol::{CustomerDbRequest, CustomerDbResponse};
use crate::service::{serves, DbState};
use crate::sessions::{
    expired_ids, found_at, is_expired, is_live, opened, read_at, swept, SESSION_TTL,
};

verus! {

/// An id that is handed out is one that the collection did not have, and if
/// the candidate itself is not in use, it is the candidate that is handed out.
pub proof fn law_new_id_is_unused(taken: Set<u128>, candidate: u128, id: u128)
    requires
        is_first_vacant(taken, candidate, id),
    ensures
        !taken.contains(id),
        !taken.contains(candidate) ==> id == candidate,
{
    let n: nat = choose|n: nat|
        first_vacancy_at(taken, candidate, n) && id == nth_after(candidate, n);
    if !taken.contains(candidate) && n > 0 {
        assert(taken.contains(nth_after(candidate, 0)));
    }
}

/// A session that is read no earlier than it was created never has its
/// expiration moved back. A read within `SESSION_TTL` seconds of the creation
/// finds it, and returns it with an expiration no earlier than the one that
/// the creation gave. A later read finds nothing and leaves it as it was.
pub proof fn law_renewal_never_goes_backward(
    sessions: Map<u128, Session>,
    id: u128,
    user_id: u128,
    user_type: UserType,
    created_at: i64,
    read_time: i64,
)
    requires
        created_at <= read_time,
        read_time + SESSION_TTL <= i64::MAX,
    ensures
        ({
            let created = sessions.insert(id, opened(id, user_id, user_type, created_at));
            let read = read_at(created, id, read_time);
            let found = found_at(created, id, read_time);
            &&& created[id].expiration == created_at + SESSION_TTL
            &&& read.contains_key(id)
            &&& read[id].expiration >= created[id].expiration
            &&& found is Some <==> read_time <= created_at + SESSION_TTL
            &&& found matches Some(session) ==> {
                &&& session == read[id]
                &&& session.expiration == read_time + SESSION_TTL
                &&& session.expiration >= created[id].expiration
                &&& session.session_id == id
                &&& session.user_id == user_id
                &&& session.user_type == user_type
            }
            &&& found is None ==> read == created
        }),
{
}

/// A read of a session that is past its expiration finds nothing and changes
/// nothing: the session does not come back to life, and the next sweep at
/// that time or later removes it.
pub proof fn law_expired_session_stays_expired(
    sessions: Map<u128, Session>,
    id: u128,
    read_time: i64,
    sweep_time: i64,
)
    requires
        sessions.contains_key(id),
        is_expired(sessions[id], read_time),
        read_time <= sweep_time,
    ensures
        found_at(sessions, id, read_time) is None,
        read_at(sessions, id, read_time) == sessions,
        is_expired(read_at(sessions, id, read_time)[id], sweep_time),
        !swept(read_at(sessions, id, read_time), sweep_time).contains_key(id),
        expired_ids(read_at(sessions, id, read_time), read_time).contains(id),
{
}

/// A read of an id that no session has finds nothing and changes nothing.
pub proof fn law_read_of_unknown_session_finds_nothing(
    sessions: Map<u128, Session>,
    id: u128,
    now: i64,
)
    requires
        !sessions.contains_key(id),
    ensures
        found_at(sessions, id, now) is None,
        read_at(sessions, id, now) == sessions,
{
}

/// A sweep removes exactly the sessions that are past their expiration, and
/// leaves every other session as it was. The sessions removed and the
/// sessions left make up the sessions there were.
pub proof fn law_sweep_removes_the_expired(sessions: Map<u128, Session>, now: i64)
    requires
        sessions.dom().finite(),
    ensures
        forall|id: u128|
            sessions.contains_key(id) && is_expired(sessions[id], now) ==> !swept(
                sessions,
                now,
            ).contains_key(id),
        forall|id: u128|
            sessions.contains_key(id) && !is_expired(sessions[id], now) ==> swept(
                sessions,
                now,
            ).contains_key(id) && swept(sessions, now)[id] == sessions[id],
        forall|id: u128| swept(sessions, now).contains_key(id) ==> sessions.contains_key(id),
        expired_ids(sessions, now).finite(),
        swept(sessions, now).dom().finite(),
        expired_ids(sessions, now).len() + swept(sessions, now).dom().len()
            == sessions.dom().len(),
        expired_ids(sessions, now).len() <= sessions.dom().len(),
{
    let gone = expired_ids(sessions, now);
    let left = swept(sessions, now).dom();
    lemma_len_subset(gone, sessions.dom());
    lemma_len_subset(left, sessions.dom());
    assert(gone.disjoint(left));
    assert(gone + left =~= sessions.dom());
    lemma_set_disjoint_lens(gone, left);
}

/// A session that was live when it was read at `read_time`, and has not been
/// read since, stays through every sweep up to `SESSION_TTL` seconds later,
/// and goes in any sweep after that.
pub proof fn law_renewed_session_lives_for_ttl(
    sessions: Map<u128, Session>,
    id: u128,
    read_time: i64,
    sweep_time: i64,
)
    requires
        is_live(sessions, id, read_time),
        read_time + SESSION_TTL <= i64::MAX,
    ensures
        found_at(sessions, id, read_time) is Some,
        swept(read_at(sessions, id, read_time), sweep_time).contains_key(id) <==> sweep_time
            <= read_time + SESSION_TTL,
        sweep_time == read_time + SESSION_TTL - 1 ==> swept(
            read_at(sessions, id, read_time),
            sweep_time,
        ).contains_key(id),
        sweep_time == read_time + SESSION_TTL + 1 ==> !swept(
            read_at(sessions, id, read_time),
            sweep_time,
        ).contains_key(id),
{
}

/// To delete a session that is not there changes nothing, and to delete
/// twice is to delete once.
pub proof fn law_delete_is_idempotent(sessions: Map<u128, Session>, id: u128)
    ensures
        !sessions.contains_key(id) ==> sessions.remove(id) == sessions,
        sessions.remove(id).remove(id) == sessions.remove(id),
        !sessions.remove(id).contains_key(id),
{
    assert(sessions.remove(id).remove(id) =~= sessions.remove(id));
    if !sessions.contains_key(id) {
        assert(sessions.remove(id) =~= sessions);
    }
}

/// After an update the seller is there under its id, exactly as given,
/// whether or not the id was known before; every other seller is as before.
pub proof fn law_update_seller_upserts(sellers: Map<u128, SellerView>, seller: SellerView)
    ensures
        sellers.insert(seller.seller_id, seller).contains_key(seller.seller_id),
        sellers.insert(seller.seller_id, seller)[seller.seller_id] == seller,
        forall|id: u128|
            id != seller.seller_id ==> (sellers.insert(seller.seller_id, seller).contains_key(id)
                <==> sellers.contains_key(id)),
        forall|id: u128|
            id != seller.seller_id && sellers.contains_key(id) ==> sellers.insert(
                seller.seller_id,
                seller,
            )[id] == sellers[id],
{
}

/// After an update the buyer is there under its id, exactly as given,
/// whether or not the id was known before; every other buyer is as before.
pub proof fn law_update_buyer_upserts(buyers: Map<u128, BuyerView>, buyer: BuyerView)
    ensures
        buyers.insert(buyer.buyer_id, buyer).contains_key(buyer.buyer_id),
        buyers.insert(buyer.buyer_id, buyer)[buyer.buyer_id] == buyer,
        forall|id: u128|
            id != buyer.buyer_id ==> (buyers.insert(buyer.buyer_id, buyer).contains_key(id)
                <==> buyers.contains_key(id)),
        forall|id: u128|
            id != buyer.buyer_id && buyers.contains_key(id) ==> buyers.insert(
                buyer.buyer_id,
                buyer,
            )[id] == buyers[id],
{
}

/// Every kind of request has one kind of response, and no request that is
/// served is answered with an error.
pub proof fn law_each_request_has_its_response(
    pre: DbState,
    request: CustomerDbRequest,
    now: i64,
    candidate: u128,
    post: DbState,
    response: CustomerDbResponse,
)
    requires
        serves(pre, request, now, candidate, post, response),
    ensures
        !(response is Error),
        request is CreateSeller <==> response is SellerCreated,
        request is CreateBuyer <==> response is BuyerCreated,
        request is GetSeller || request is GetSellerByName <==> response is Seller,
        request is GetBuyer || request is GetBuyerByName <==> response is Buyer,
        request is UpdateSeller <==> response is SellerUpdated,
        request is UpdateBuyer <==> response is BuyerUpdated,
        request is CreateSession <==> response is SessionCreated,
        request is GetSession <==> response is Session,
        request is DeleteSession <==> response is SessionDeleted,
        request is CleanupSessions <==> response is SessionsCleaned,
{
}

/// Serving a request keeps every collection finite and every record filed
/// under its own id.
pub proof fn law_serving_keeps_records_filed_by_id(
    pre: DbState,
    request: CustomerDbRequest,
    now: i64,
    candidate: u128,
    post: DbState,
    response: CustomerDbResponse,
)
    requires
        pre.filed_by_id(),
        serves(pre, request, now, candidate, post, response),
    ensures
        post.filed_by_id(),
{
    match request {
        CustomerDbRequest::GetSession { session_id } => {
            assert(post.sessions.dom() =~= pre.sessions.dom());
        },
        CustomerDbRequest::CleanupSessions => {
            lemma_len_subset(post.sessions.dom(), pre.sessions.dom());
        },
        _ => {},
    }
}

/// What a request does to the directory is settled by the request, the
/// reading of the clock and the candidate id. So is the response, but for a
/// lookup by name, where several accounts may share the name.
pub proof fn law_serving_is_determined(
    pre: DbState,
    request: CustomerDbRequest,
    now: i64,
    candidate: u128,
    post_a: DbState,
    response_a: CustomerDbResponse,
    post_b: DbState,
    response_b: CustomerDbResponse,
)
    requires
        serves(pre, request, now, candidate, post_a, response_a),
        serves(pre, request, now, candidate, post_b, response_b),
    ensures
        post_a == post_b,
        !(request is GetSellerByName) && !(request is GetBuyerByName) ==> response_a@
            == response_b@,
{
    match request {
        CustomerDbRequest::CreateSeller { .. } => {
            lemma_first_vacant_unique(
                pre.sellers.dom(),
                candidate,
                response_a->SellerCreated_0,
                response_b->SellerCreated_0,
            );
        },
        CustomerDbRequest::CreateBuyer { .. } => {
            lemma_first_vacant_unique(
                pre.buyers.dom(),
                candidate,
                response_a->BuyerCreated_0,
                response_b->BuyerCreated_0,
            );
        },
        CustomerDbRequest::CreateSession { .. } => {
            lemma_first_vacant_unique(
                pre.sessions.dom(),
                candidate,
                response_a->SessionCreated_0,
                response_b->SessionCreated_0,
            );
        },
        _ => {},
    }
}

} // verus!
