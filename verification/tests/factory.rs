//! Registry-level behaviour: creation, id assignment, queries, pagination,
//! the creation counts, and the event log.

use token_registry::registry::Registry;
use token_registry::types::{Event, TokenError, SENTINEL};

const ALICE: u128 = 10;
const BOB: u128 = 20;
const CAROL: u128 = 30;

#[test]
fn test_factory_create_token() {
    let mut factory = Registry::new();

    let token_id = factory
        .create_token(
            ALICE,
            String::from("MyToken"),
            String::from("MTK"),
            18,
            1000000,
        )
        .unwrap();

    assert_eq!(token_id, 0);
    assert_eq!(factory.get_token_count(), 1);
    assert_eq!(factory.get_token_info(token_id).unwrap().creator, ALICE);
}

#[test]
fn test_multiple_users_create_tokens() {
    let mut factory = Registry::new();

    let token_a = factory
        .create_token(
            ALICE,
            String::from("TokenA"),
            String::from("TKA"),
            18,
            1000000,
        )
        .unwrap();

    let _user_b: u128 = 1;

    assert_eq!(factory.get_token_count(), 1);
    assert_eq!(token_a, 0);
}

#[test]
fn ids_are_dense_and_monotonic_across_callers() {
    let mut r = Registry::new();
    let id0 = r
        .create_token(ALICE, String::from("One"), String::from("ONE"), 18, 100)
        .unwrap();
    let id1 = r
        .create_token(BOB, String::from("Two"), String::from("TWO"), 6, 200)
        .unwrap();
    let id2 = r
        .create_token(ALICE, String::from("Three"), String::from("THR"), 0, 300)
        .unwrap();
    assert_eq!((id0, id1, id2), (0, 1, 2));
    assert_eq!(r.get_token_count(), 3);
}

#[test]
fn failed_creation_consumes_no_id() {
    let mut r = Registry::new();
    assert_eq!(
        r.create_token(ALICE, String::new(), String::from("TK"), 18, 5),
        Err(TokenError::InvalidInput)
    );
    let id = r
        .create_token(ALICE, String::from("Tk"), String::from("TK"), 18, 5)
        .unwrap();
    assert_eq!(id, 0);
}

#[test]
fn creator_counts_tally_creations() {
    let mut r = Registry::new();
    r.create_token(ALICE, String::from("A1"), String::from("A1"), 18, 1)
        .unwrap();
    r.create_token(ALICE, String::from("A2"), String::from("A2"), 18, 1)
        .unwrap();
    r.create_token(BOB, String::from("B1"), String::from("B1"), 18, 1)
        .unwrap();
    assert_eq!(r.creator_counts.get(ALICE), 2);
    assert_eq!(r.creator_counts.get(BOB), 1);
    assert_eq!(r.creator_counts.get(CAROL), 0);
}

#[test]
fn get_token_info_reports_identity() {
    let mut r = Registry::new();
    r.create_token(ALICE, String::from("MyToken"), String::from("MTK"), 18, 777)
        .unwrap();
    let info = r.get_token_info(0).unwrap();
    assert_eq!(info.name, "MyToken");
    assert_eq!(info.symbol, "MTK");
    assert_eq!(info.decimals, 18);
    assert_eq!(info.total_supply, 777);
    assert_eq!(info.creator, ALICE);
    assert_eq!(r.get_token_info(1), Err(TokenError::InvalidToken));
}

#[test]
fn get_tokens_paginates_and_clips() {
    let mut r = Registry::new();
    for (n, s) in [("One", "ONE"), ("Two", "TWO"), ("Three", "THR")] {
        r.create_token(ALICE, String::from(n), String::from(s), 18, 9)
            .unwrap();
    }
    let page = r.get_tokens(0, 2);
    assert_eq!(page.len(), 2);
    assert_eq!(page[0].name, "One");
    assert_eq!(page[1].name, "Two");
    let tail = r.get_tokens(1, 10);
    assert_eq!(tail.len(), 2);
    assert_eq!(tail[1].name, "Three");
    assert_eq!(r.get_tokens(3, 4).len(), 0);
    assert_eq!(r.get_tokens(10, 1).len(), 0);
    assert_eq!(r.get_tokens(1, 0).len(), 0);
}

#[test]
fn creation_appends_notice_and_credit_events() {
    let mut r = Registry::new();
    r.create_token(ALICE, String::from("Tok"), String::from("TOK"), 18, 400)
        .unwrap();
    assert_eq!(
        r.events,
        vec![
            Event::Created { creator: ALICE, token_id: 0, initial_supply: 400 },
            Event::Transfer { from: SENTINEL, to: ALICE, amount: 400 },
        ]
    );
}

#[test]
fn operations_append_their_events() {
    let mut r = Registry::new();
    r.create_token(ALICE, String::from("Tok"), String::from("TOK"), 18, 400)
        .unwrap();
    r.transfer(ALICE, 0, BOB, 25).unwrap();
    r.approve(ALICE, 0, CAROL, 60).unwrap();
    r.increase_allowance(ALICE, 0, CAROL, 15).unwrap();
    r.decrease_allowance(ALICE, 0, CAROL, 5).unwrap();
    r.transfer_from(CAROL, 0, ALICE, BOB, 70).unwrap();
    assert_eq!(
        &r.events[2..],
        &[
            Event::Transfer { from: ALICE, to: BOB, amount: 25 },
            Event::Approval { owner: ALICE, spender: CAROL, amount: 60 },
            Event::Approval { owner: ALICE, spender: CAROL, amount: 75 },
            Event::Approval { owner: ALICE, spender: CAROL, amount: 70 },
            Event::Transfer { from: ALICE, to: BOB, amount: 70 },
        ]
    );
}

#[test]
fn failed_operation_appends_no_event() {
    let mut r = Registry::new();
    r.create_token(ALICE, String::from("Tok"), String::from("TOK"), 18, 10)
        .unwrap();
    let before = r.events.len();
    assert!(r.transfer(ALICE, 0, BOB, 11).is_err());
    assert!(r.transfer(ALICE, 5, BOB, 1).is_err());
    assert_eq!(r.events.len(), before);
}
