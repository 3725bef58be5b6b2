//! Token-record-level behaviour: the accounting engine on one ledger.

use token_registry::token::TokenRecord;
use token_registry::types::TokenError;

const CREATOR: u128 = 10;
const RECIPIENT: u128 = 1;
const SPENDER: u128 = 2;

fn fresh(name: &str, symbol: &str, supply: u128) -> TokenRecord {
    TokenRecord::initialize(String::from(name), String::from(symbol), 18, supply, CREATOR)
        .unwrap()
}

#[test]
fn test_token_initialization() {
    let token = fresh("MyToken", "MTK", 1000000);

    assert_eq!(token.name(), "MyToken");
    assert_eq!(token.symbol(), "MTK");
    assert_eq!(token.decimals(), 18);
    assert_eq!(token.total_supply(), 1000000);
    assert_eq!(token.balance_of(CREATOR), 1000000);
    assert_eq!(token.creator(), CREATOR);
}

#[test]
fn test_transfer() {
    let mut token = fresh("Test", "TST", 1000);

    assert!(token.transfer(CREATOR, RECIPIENT, 100).is_ok());
    assert_eq!(token.balance_of(RECIPIENT), 100);
    assert_eq!(token.balance_of(CREATOR), 900);
}

#[test]
fn test_approve_and_transfer_from() {
    let mut token = fresh("Test", "TST", 1000);

    assert!(token.approve(CREATOR, SPENDER, 500).is_ok());
    assert_eq!(token.allowance(CREATOR, SPENDER), 500);
}

#[test]
fn transfer_moves_exactly_the_pair() {
    let mut token = fresh("Test", "TST", 1000);
    token.transfer(CREATOR, RECIPIENT, 300).unwrap();
    token.transfer(RECIPIENT, SPENDER, 120).unwrap();
    assert_eq!(token.balance_of(CREATOR), 700);
    assert_eq!(token.balance_of(RECIPIENT), 180);
    assert_eq!(token.balance_of(SPENDER), 120);
    // conservation, summed by hand over every account ever touched
    assert_eq!(
        token.balance_of(CREATOR) + token.balance_of(RECIPIENT) + token.balance_of(SPENDER),
        token.total_supply()
    );
}

#[test]
fn self_transfer_is_a_no_op() {
    let mut token = fresh("Test", "TST", 1000);
    assert!(token.transfer(CREATOR, CREATOR, 400).is_ok());
    assert_eq!(token.balance_of(CREATOR), 1000);
}

#[test]
fn zero_amount_transfer_succeeds() {
    let mut token = fresh("Test", "TST", 1000);
    assert!(token.transfer(CREATOR, RECIPIENT, 0).is_ok());
    assert_eq!(token.balance_of(CREATOR), 1000);
    assert_eq!(token.balance_of(RECIPIENT), 0);
}

#[test]
fn approve_overwrites_never_accumulates() {
    let mut token = fresh("Test", "TST", 1000);
    token.approve(CREATOR, SPENDER, 5).unwrap();
    token.approve(CREATOR, SPENDER, 3).unwrap();
    assert_eq!(token.allowance(CREATOR, SPENDER), 3);
}

#[test]
fn allowances_are_per_ordered_pair() {
    let mut token = fresh("Test", "TST", 1000);
    token.approve(CREATOR, SPENDER, 40).unwrap();
    token.approve(CREATOR, RECIPIENT, 7).unwrap();
    assert_eq!(token.allowance(CREATOR, SPENDER), 40);
    assert_eq!(token.allowance(CREATOR, RECIPIENT), 7);
    assert_eq!(token.allowance(SPENDER, CREATOR), 0);
}

#[test]
fn increase_and_decrease_adjust_the_allowance() {
    let mut token = fresh("Test", "TST", 1000);
    token.increase_allowance(CREATOR, SPENDER, 5).unwrap();
    token.increase_allowance(CREATOR, SPENDER, 3).unwrap();
    assert_eq!(token.allowance(CREATOR, SPENDER), 8);
    token.decrease_allowance(CREATOR, SPENDER, 2).unwrap();
    assert_eq!(token.allowance(CREATOR, SPENDER), 6);
}

#[test]
fn decrease_below_zero_is_rejected_unchanged() {
    let mut token = fresh("Test", "TST", 1000);
    token.approve(CREATOR, SPENDER, 6).unwrap();
    assert_eq!(
        token.decrease_allowance(CREATOR, SPENDER, 10),
        Err(TokenError::InsufficientAllowance { have: 6, want: 10 })
    );
    assert_eq!(token.allowance(CREATOR, SPENDER), 6);
}

#[test]
fn increase_beyond_range_is_rejected_unchanged() {
    let mut token = fresh("Test", "TST", 1000);
    token.approve(CREATOR, SPENDER, 2).unwrap();
    assert_eq!(
        token.increase_allowance(CREATOR, SPENDER, u128::MAX - 1),
        Err(TokenError::InvalidInput)
    );
    assert_eq!(token.allowance(CREATOR, SPENDER), 2);
}

#[test]
fn transfer_from_spends_allowance_exactly() {
    let mut token = fresh("Test", "TST", 1000);
    token.approve(CREATOR, SPENDER, 500).unwrap();
    assert!(token.transfer_from(SPENDER, CREATOR, RECIPIENT, 200).is_ok());
    assert_eq!(token.allowance(CREATOR, SPENDER), 300);
    assert_eq!(token.balance_of(CREATOR), 800);
    assert_eq!(token.balance_of(RECIPIENT), 200);
}

#[test]
fn transfer_from_short_balance_rolls_back_allowance() {
    let mut token = fresh("Test", "TST", 100);
    // allowance larger than the owner's whole balance
    token.approve(CREATOR, SPENDER, 500).unwrap();
    assert_eq!(
        token.transfer_from(SPENDER, CREATOR, RECIPIENT, 200),
        Err(TokenError::InsufficientBalance { have: 100, want: 200 })
    );
    assert_eq!(token.allowance(CREATOR, SPENDER), 500);
    assert_eq!(token.balance_of(CREATOR), 100);
    assert_eq!(token.balance_of(RECIPIENT), 0);
}

#[test]
fn zero_supply_token_is_legal() {
    let token = fresh("Empty", "NIL", 0);
    assert_eq!(token.total_supply(), 0);
    assert_eq!(token.balance_of(CREATOR), 0);
}

#[test]
fn identical_labels_make_distinct_tokens() {
    let a = fresh("Same", "SAME", 1);
    let b = fresh("Same", "SAME", 2);
    assert_eq!(a.name(), b.name());
    assert_eq!(a.total_supply(), 1);
    assert_eq!(b.total_supply(), 2);
}
