//! Every error kind, the inputs that provoke it, and the guarantee that a
//! failed call leaves the stored state as if it had never been made.

use token_registry::registry::Registry;
use token_registry::types::{TokenError, MAX_LABEL_LEN, SENTINEL};

const ALICE: u128 = 10;
const BOB: u128 = 20;

fn one_token() -> Registry {
    let mut r = Registry::new();
    r.create_token(ALICE, String::from("Tok"), String::from("TOK"), 18, 1000)
        .unwrap();
    r
}

#[test]
fn unknown_token_queries_return_zero() {
    let r = one_token();
    assert!(r.token_exists(0));
    assert!(!r.token_exists(7));
    assert_eq!(r.balance_of(7, ALICE), 0);
    assert_eq!(r.allowance(7, ALICE, BOB), 0);
}

#[test]
fn unknown_token_mutations_fail() {
    let mut r = one_token();
    assert_eq!(r.transfer(ALICE, 7, BOB, 1), Err(TokenError::InvalidToken));
    assert_eq!(r.approve(ALICE, 7, BOB, 1), Err(TokenError::InvalidToken));
    assert_eq!(
        r.transfer_from(BOB, 7, ALICE, BOB, 1),
        Err(TokenError::InvalidToken)
    );
    assert_eq!(
        r.increase_allowance(ALICE, 7, BOB, 1),
        Err(TokenError::InvalidToken)
    );
    assert_eq!(
        r.decrease_allowance(ALICE, 7, BOB, 1),
        Err(TokenError::InvalidToken)
    );
    assert_eq!(r.balance_of(0, ALICE), 1000);
}

#[test]
fn sentinel_participants_are_rejected() {
    let mut r = one_token();
    assert_eq!(r.transfer(SENTINEL, 0, BOB, 1), Err(TokenError::InvalidSender));
    assert_eq!(r.transfer(ALICE, 0, SENTINEL, 1), Err(TokenError::InvalidRecipient));
    assert_eq!(r.approve(SENTINEL, 0, BOB, 1), Err(TokenError::InvalidSender));
    assert_eq!(r.approve(ALICE, 0, SENTINEL, 1), Err(TokenError::InvalidRecipient));
    assert_eq!(r.balance_of(0, ALICE), 1000);
}

#[test]
fn sentinel_recipient_rejected_even_when_a_no_op() {
    let mut r = one_token();
    // amount 0 would move nothing, yet the sentinel recipient still fails
    assert_eq!(r.transfer(ALICE, 0, SENTINEL, 0), Err(TokenError::InvalidRecipient));
}

#[test]
fn insufficient_balance_reports_have_and_want() {
    let mut r = one_token();
    assert_eq!(
        r.transfer(ALICE, 0, BOB, 1001),
        Err(TokenError::InsufficientBalance { have: 1000, want: 1001 })
    );
    assert_eq!(r.balance_of(0, ALICE), 1000);
    assert_eq!(r.balance_of(0, BOB), 0);
}

#[test]
fn insufficient_allowance_reports_have_and_want() {
    let mut r = one_token();
    r.approve(ALICE, 0, BOB, 30).unwrap();
    assert_eq!(
        r.transfer_from(BOB, 0, ALICE, BOB, 31),
        Err(TokenError::InsufficientAllowance { have: 30, want: 31 })
    );
    assert_eq!(
        r.decrease_allowance(ALICE, 0, BOB, 31),
        Err(TokenError::InsufficientAllowance { have: 30, want: 31 })
    );
    assert_eq!(r.allowance(0, ALICE, BOB), 30);
}

#[test]
fn sentinel_creator_is_rejected() {
    let mut r = Registry::new();
    assert_eq!(
        r.create_token(SENTINEL, String::from("Tok"), String::from("TOK"), 18, 1),
        Err(TokenError::InvalidSender)
    );
    assert_eq!(r.get_token_count(), 0);
}

#[test]
fn label_bounds_are_enforced() {
    let mut r = Registry::new();
    assert_eq!(
        r.create_token(ALICE, String::new(), String::from("TOK"), 18, 1),
        Err(TokenError::InvalidInput)
    );
    assert_eq!(
        r.create_token(ALICE, String::from("Tok"), String::new(), 18, 1),
        Err(TokenError::InvalidInput)
    );
    let long = "x".repeat(MAX_LABEL_LEN + 1);
    assert_eq!(
        r.create_token(ALICE, long.clone(), String::from("TOK"), 18, 1),
        Err(TokenError::InvalidInput)
    );
    assert_eq!(
        r.create_token(ALICE, String::from("Tok"), long, 18, 1),
        Err(TokenError::InvalidInput)
    );
    let widest = "y".repeat(MAX_LABEL_LEN);
    assert!(r.create_token(ALICE, widest, String::from("TOK"), 18, 1).is_ok());
    assert_eq!(r.get_token_count(), 1);
}

#[test]
fn increase_allowance_overflow_is_invalid_input() {
    let mut r = one_token();
    r.approve(ALICE, 0, BOB, 1).unwrap();
    assert_eq!(
        r.increase_allowance(ALICE, 0, BOB, u128::MAX),
        Err(TokenError::InvalidInput)
    );
    assert_eq!(r.allowance(0, ALICE, BOB), 1);
}
