use customer_db::model::{Buyer, Feedback, Seller, Session, UserType};
use customer_db::protocol::{CustomerDbRequest, CustomerDbResponse};
use customer_db::service::{needs_clock, needs_id, CustomerDb};

fn created_buyer(response: CustomerDbResponse) -> u128 {
    match response {
        CustomerDbResponse::BuyerCreated(id) => id,
        other => panic!("unexpected response {:?}", other),
    }
}

fn created_seller(response: CustomerDbResponse) -> u128 {
    match response {
        CustomerDbResponse::SellerCreated(id) => id,
        other => panic!("unexpected response {:?}", other),
    }
}

fn created_session(response: CustomerDbResponse) -> (u128, i64) {
    match response {
        CustomerDbResponse::SessionCreated(id, expiration) => (id, expiration),
        other => panic!("unexpected response {:?}", other),
    }
}

fn session_in(response: CustomerDbResponse) -> Option<Session> {
    match response {
        CustomerDbResponse::Session(found) => found,
        other => panic!("unexpected response {:?}", other),
    }
}

fn seller_in(response: CustomerDbResponse) -> Option<Seller> {
    match response {
        CustomerDbResponse::Seller(found) => found,
        other => panic!("unexpected response {:?}", other),
    }
}

fn buyer_in(response: CustomerDbResponse) -> Option<Buyer> {
    match response {
        CustomerDbResponse::Buyer(found) => found,
        other => panic!("unexpected response {:?}", other),
    }
}

fn cleaned(response: CustomerDbResponse) -> usize {
    match response {
        CustomerDbResponse::SessionsCleaned(count) => count,
        other => panic!("unexpected response {:?}", other),
    }
}

#[test]
fn a_buyer_logs_in_reads_the_session_and_lets_it_expire() {
    let t0: i64 = 1_700_000_000;
    let mut db = CustomerDb::new();
    let b = created_buyer(db.handle_request_at(
        CustomerDbRequest::CreateBuyer { buyer_name: "alice".to_string(), password: "p".to_string() },
        t0,
        0xB0B,
    ));
    assert_eq!(b, 0xB0B);
    let (s, expiration) = created_session(db.handle_request_at(
        CustomerDbRequest::CreateSession { user_id: b, user_type: UserType::Buyer },
        t0,
        0x5E55,
    ));
    assert_eq!(s, 0x5E55);
    assert_eq!(expiration, t0 + 300);
    let read = session_in(db.handle_request_at(
        CustomerDbRequest::GetSession { session_id: s },
        t0 + 100,
        0,
    ))
    .unwrap();
    assert_eq!(read.session_id, s);
    assert_eq!(read.user_id, b);
    assert_eq!(read.user_type, UserType::Buyer);
    assert_eq!(read.expiration, t0 + 400);
    assert_eq!(cleaned(db.handle_request_at(CustomerDbRequest::CleanupSessions, t0 + 100, 0)), 0);
    assert_eq!(cleaned(db.handle_request_at(CustomerDbRequest::CleanupSessions, t0 + 500, 0)), 1);
    let gone =
        session_in(db.handle_request_at(CustomerDbRequest::GetSession { session_id: s }, t0 + 500, 0));
    assert!(gone.is_none());
}

#[test]
fn a_line_that_is_no_request_is_answered_and_the_next_one_is_served() {
    let mut db = CustomerDb::new();
    let id = created_seller(db.handle_request_at(
        CustomerDbRequest::CreateSeller { seller_name: "ann".to_string(), password: "pw".to_string() },
        0,
        1,
    ));
    let reason = serde_json::from_str::<serde_json::Value>("not json").unwrap_err().to_string();
    match db.handle_decoded(Err(reason.clone())) {
        CustomerDbResponse::Error(message) => {
            assert_eq!(message, format!("Invalid request: {}", reason));
            assert!(message.starts_with("Invalid request: "));
            assert!(message.len() > "Invalid request: ".len());
        }
        other => panic!("unexpected response {:?}", other),
    }
    match db.handle_decoded(Err(String::new())) {
        CustomerDbResponse::Error(message) => assert_eq!(message, "Invalid request: "),
        other => panic!("unexpected response {:?}", other),
    }
    let found = seller_in(db.handle_decoded(Ok(CustomerDbRequest::GetSeller { seller_id: id })));
    assert_eq!(found.unwrap().seller_name, "ann");
    assert!(seller_in(db.handle_decoded(Ok(CustomerDbRequest::GetSeller { seller_id: id + 1 })))
        .is_none());
}

#[test]
fn create_seller_answers_with_the_new_id() {
    let mut db = CustomerDb::new();
    let request =
        CustomerDbRequest::CreateSeller { seller_name: "ann".to_string(), password: "pw".to_string() };
    let id = created_seller(db.handle_request_at(request, 0, 20));
    assert_eq!(id, 20);
    let request =
        CustomerDbRequest::CreateSeller { seller_name: "ben".to_string(), password: "pw".to_string() };
    assert_eq!(created_seller(db.handle_request_at(request, 0, 20)), 21);
    let stored =
        seller_in(db.handle_request_at(CustomerDbRequest::GetSeller { seller_id: 20 }, 0, 0)).unwrap();
    assert_eq!(stored.seller_id, 20);
    assert_eq!(stored.seller_name, "ann");
    assert_eq!(stored.password, "pw");
    assert_eq!(stored.items_sold, 0);
    assert_eq!(stored.feedback, Feedback { thumbs_up: 0, thumbs_down: 0 });
    assert!(buyer_in(db.handle_request_at(CustomerDbRequest::GetBuyer { buyer_id: 20 }, 0, 0))
        .is_none());
}

#[test]
fn lookups_by_name_answer_with_the_record_or_nothing() {
    let mut db = CustomerDb::new();
    db.handle_request_at(
        CustomerDbRequest::CreateSeller { seller_name: "ann".to_string(), password: "a".to_string() },
        0,
        1,
    );
    db.handle_request_at(
        CustomerDbRequest::CreateBuyer { buyer_name: "bob".to_string(), password: "b".to_string() },
        0,
        2,
    );
    let ann = seller_in(db.handle_request_at(
        CustomerDbRequest::GetSellerByName { seller_name: "ann".to_string() },
        0,
        0,
    ))
    .unwrap();
    assert_eq!(ann.seller_id, 1);
    assert_eq!(ann.password, "a");
    let bob = buyer_in(db.handle_request_at(
        CustomerDbRequest::GetBuyerByName { buyer_name: "bob".to_string() },
        0,
        0,
    ))
    .unwrap();
    assert_eq!(bob.buyer_id, 2);
    assert_eq!(bob.password, "b");
    assert!(seller_in(db.handle_request_at(
        CustomerDbRequest::GetSellerByName { seller_name: "bob".to_string() },
        0,
        0,
    ))
    .is_none());
    assert!(buyer_in(db.handle_request_at(
        CustomerDbRequest::GetBuyerByName { buyer_name: "ann".to_string() },
        0,
        0,
    ))
    .is_none());
}

#[test]
fn updates_answer_and_upsert() {
    let mut db = CustomerDb::new();
    let seller = Seller {
        seller_id: 77,
        seller_name: "zed".to_string(),
        feedback: Feedback { thumbs_up: 8, thumbs_down: 2 },
        items_sold: 5,
        password: "pw".to_string(),
    };
    let response = db.handle_request_at(CustomerDbRequest::UpdateSeller { seller }, 0, 0);
    assert!(matches!(response, CustomerDbResponse::SellerUpdated));
    let stored =
        seller_in(db.handle_request_at(CustomerDbRequest::GetSeller { seller_id: 77 }, 0, 0)).unwrap();
    assert_eq!(stored.seller_name, "zed");
    assert_eq!(stored.feedback, Feedback { thumbs_up: 8, thumbs_down: 2 });
    assert_eq!(stored.items_sold, 5);

    let buyer = Buyer {
        buyer_id: 78,
        buyer_name: "yan".to_string(),
        items_purchased: 6,
        password: "pw".to_string(),
    };
    let response = db.handle_request_at(CustomerDbRequest::UpdateBuyer { buyer }, 0, 0);
    assert!(matches!(response, CustomerDbResponse::BuyerUpdated));
    let stored =
        buyer_in(db.handle_request_at(CustomerDbRequest::GetBuyer { buyer_id: 78 }, 0, 0)).unwrap();
    assert_eq!(stored.buyer_name, "yan");
    assert_eq!(stored.items_purchased, 6);
}

#[test]
fn delete_session_answers_whether_or_not_the_session_is_there() {
    let mut db = CustomerDb::new();
    let (s, _) = created_session(db.handle_request_at(
        CustomerDbRequest::CreateSession { user_id: 1, user_type: UserType::Seller },
        50,
        9,
    ));
    for _ in 0..2 {
        let response = db.handle_request_at(CustomerDbRequest::DeleteSession { session_id: s }, 60, 0);
        assert!(matches!(response, CustomerDbResponse::SessionDeleted));
        let found =
            session_in(db.handle_request_at(CustomerDbRequest::GetSession { session_id: s }, 60, 0));
        assert!(found.is_none());
    }
    let response = db.handle_request_at(CustomerDbRequest::DeleteSession { session_id: 12345 }, 60, 0);
    assert!(matches!(response, CustomerDbResponse::SessionDeleted));
    assert_eq!(cleaned(db.handle_request_at(CustomerDbRequest::CleanupSessions, i64::MAX, 0)), 0);
}

#[test]
fn requests_say_whether_they_need_the_clock_or_an_id() {
    let create_seller =
        CustomerDbRequest::CreateSeller { seller_name: String::new(), password: String::new() };
    let create_buyer =
        CustomerDbRequest::CreateBuyer { buyer_name: String::new(), password: String::new() };
    let create_session = CustomerDbRequest::CreateSession { user_id: 1, user_type: UserType::Buyer };
    let get_session = CustomerDbRequest::GetSession { session_id: 1 };
    let delete_session = CustomerDbRequest::DeleteSession { session_id: 1 };
    let get_seller = CustomerDbRequest::GetSeller { seller_id: 1 };
    let get_buyer = CustomerDbRequest::GetBuyer { buyer_id: 1 };
    let by_name = CustomerDbRequest::GetSellerByName { seller_name: String::new() };
    assert!(needs_id(&create_seller) && !needs_clock(&create_seller));
    assert!(needs_id(&create_buyer) && !needs_clock(&create_buyer));
    assert!(needs_id(&create_session) && needs_clock(&create_session));
    assert!(!needs_id(&get_session) && needs_clock(&get_session));
    assert!(!needs_id(&CustomerDbRequest::CleanupSessions));
    assert!(needs_clock(&CustomerDbRequest::CleanupSessions));
    for request in [delete_session, get_seller, get_buyer, by_name] {
        assert!(!needs_id(&request) && !needs_clock(&request));
    }
}

#[test]
fn requests_are_served_by_the_clock_and_with_random_ids() {
    let mut db = CustomerDb::new();
    let b = created_buyer(db.handle_request(CustomerDbRequest::CreateBuyer {
        buyer_name: "alice".to_string(),
        password: "p".to_string(),
    }));
    assert_eq!((b >> 76) & 0xF, 4);
    let before = chrono::Utc::now().timestamp();
    let (s, expiration) = created_session(
        db.handle_request(CustomerDbRequest::CreateSession { user_id: b, user_type: UserType::Buyer }),
    );
    let after = chrono::Utc::now().timestamp();
    assert!(before + 300 <= expiration && expiration <= after + 300);
    let read = session_in(db.handle_request(CustomerDbRequest::GetSession { session_id: s })).unwrap();
    assert_eq!(read.user_id, b);
    assert!(read.expiration >= expiration);
    db.handle_request_at(CustomerDbRequest::CreateSession { user_id: b, user_type: UserType::Buyer }, 0, 1);
    assert_eq!(cleaned(db.handle_request(CustomerDbRequest::CleanupSessions)), 1);
    assert_eq!(cleaned(db.handle_request(CustomerDbRequest::CleanupSessions)), 0);
    let found = buyer_in(db.handle_request(CustomerDbRequest::GetBuyerByName {
        buyer_name: "alice".to_string(),
    }));
    assert_eq!(found.unwrap().buyer_id, b);
}

#[test]
fn the_parts_of_the_directory_can_be_used_directly() {
    let mut db = CustomerDb::new();
    let id = db.accounts.create_seller_with(4, "ann".to_string(), "pw".to_string());
    let (s, _) = db.sessions.create_session_at(4, id, UserType::Seller, 100);
    let read = session_in(db.handle_request_at(CustomerDbRequest::GetSession { session_id: s }, 100, 0));
    assert_eq!(read.unwrap().user_id, id);
    let found = seller_in(db.handle_request_at(CustomerDbRequest::GetSeller { seller_id: id }, 0, 0));
    assert_eq!(found.unwrap().seller_name, "ann");
}

#[test]
fn a_session_that_is_past_its_expiration_is_not_found_and_not_renewed() {
    let mut db = CustomerDb::new();
    let (s, expiration) = created_session(db.handle_request_at(
        CustomerDbRequest::CreateSession { user_id: 7, user_type: UserType::Seller },
        1_000,
        40,
    ));
    assert_eq!((s, expiration), (40, 1_300));
    let read = session_in(db.handle_request_at(CustomerDbRequest::GetSession { session_id: s }, 1_301, 0));
    assert!(read.is_none());
    let read = session_in(db.handle_request_at(CustomerDbRequest::GetSession { session_id: s }, 1_200, 0));
    assert_eq!(read.unwrap().expiration, 1_500);
    let read = session_in(db.handle_request_at(CustomerDbRequest::GetSession { session_id: s }, 9_000, 0));
    assert!(read.is_none());
    assert_eq!(cleaned(db.handle_request_at(CustomerDbRequest::CleanupSessions, 1_500, 0)), 0);
    assert_eq!(cleaned(db.handle_request_at(CustomerDbRequest::CleanupSessions, 9_000, 0)), 1);
    assert_eq!(cleaned(db.handle_request_at(CustomerDbRequest::CleanupSessions, 9_000, 0)), 0);
}

#[test]
fn a_session_made_long_ago_is_not_found_by_the_clock() {
    let mut db = CustomerDb::new();
    let (s, _) = created_session(db.handle_request_at(
        CustomerDbRequest::CreateSession { user_id: 7, user_type: UserType::Seller },
        0,
        40,
    ));
    assert!(session_in(db.handle_request(CustomerDbRequest::GetSession { session_id: s })).is_none());
    assert!(session_in(db.handle_decoded(Ok(CustomerDbRequest::GetSession { session_id: s }))).is_none());
    assert_eq!(cleaned(db.handle_request(CustomerDbRequest::CleanupSessions)), 1);
}
