use atomic_swap_escrow::address::Address;
use atomic_swap_escrow::error::EscrowError;
use atomic_swap_escrow::ledger::{Account, Ledger, TokenAccount};

fn at(tag: u8) -> Address {
    Address::new([tag; 32])
}

fn two_balances(first: u64, second: u64) -> Ledger {
    let mut ledger = Ledger::new();
    ledger.create_token_account(at(1), at(50), at(10)).unwrap();
    ledger.create_token_account(at(2), at(50), at(20)).unwrap();
    if first > 0 {
        ledger.mint_to(at(1), first).unwrap();
    }
    if second > 0 {
        ledger.mint_to(at(2), second).unwrap();
    }
    ledger
}

#[test]
fn new_ledger_is_empty() {
    let ledger = Ledger::new();
    assert_eq!(ledger.get(&at(1)), None);
    assert_eq!(ledger.token_account(&at(1)), None);
    assert_eq!(ledger.escrow(&at(1)), None);
}

#[test]
fn created_balance_is_empty() {
    let mut ledger = Ledger::new();
    assert_eq!(ledger.create_token_account(at(1), at(50), at(10)), Ok(()));
    let expected = TokenAccount { mint: at(50), owner: at(10), amount: 0 };
    assert_eq!(ledger.token_account(&at(1)), Some(expected));
    assert_eq!(ledger.get(&at(1)), Some(Account::Token(expected)));
    assert_eq!(ledger.escrow(&at(1)), None);
    assert_eq!(ledger.create_token_account(at(1), at(51), at(11)), Err(EscrowError::AddressInUse));
    assert_eq!(ledger.token_account(&at(1)), Some(expected));
}

#[test]
fn mint_to_adds_to_the_balance() {
    let mut ledger = two_balances(0, 0);
    assert_eq!(ledger.mint_to(at(1), 5), Ok(()));
    assert_eq!(ledger.mint_to(at(1), 7), Ok(()));
    assert_eq!(ledger.token_account(&at(1)).unwrap().amount, 12);
    assert_eq!(ledger.token_account(&at(2)).unwrap().amount, 0);
    assert_eq!(ledger.mint_to(at(3), 5), Err(EscrowError::AccountMissing));
    assert_eq!(ledger.mint_to(at(1), u64::MAX - 11), Err(EscrowError::Overflow));
    assert_eq!(ledger.mint_to(at(1), u64::MAX - 12), Ok(()));
    assert_eq!(ledger.token_account(&at(1)).unwrap().amount, u64::MAX);
}

#[test]
fn transfer_moves_the_amount() {
    let mut ledger = two_balances(10, 1);
    assert_eq!(ledger.transfer(at(1), at(2), at(10), 4), Ok(()));
    assert_eq!(ledger.token_account(&at(1)), Some(TokenAccount { mint: at(50), owner: at(10), amount: 6 }));
    assert_eq!(ledger.token_account(&at(2)), Some(TokenAccount { mint: at(50), owner: at(20), amount: 5 }));
    assert_eq!(ledger.transfer(at(1), at(2), at(10), 6), Ok(()));
    assert_eq!(ledger.token_account(&at(1)).unwrap().amount, 0);
    assert_eq!(ledger.token_account(&at(2)).unwrap().amount, 11);
}

#[test]
fn transfer_rejections_change_nothing() {
    let mut ledger = two_balances(10, 1);
    ledger.create_token_account(at(3), at(51), at(10)).unwrap();
    assert_eq!(ledger.transfer(at(1), at(2), at(10), 11), Err(EscrowError::InsufficientFunds));
    assert_eq!(ledger.transfer(at(1), at(3), at(10), 1), Err(EscrowError::MintMismatch));
    assert_eq!(ledger.transfer(at(1), at(2), at(20), 1), Err(EscrowError::OwnerMismatch));
    assert_eq!(ledger.transfer(at(1), at(9), at(10), 1), Err(EscrowError::AccountMissing));
    assert_eq!(ledger.transfer(at(9), at(2), at(10), 1), Err(EscrowError::AccountMissing));
    ledger.mint_to(at(2), u64::MAX - 1).unwrap();
    assert_eq!(ledger.transfer(at(1), at(2), at(10), 1), Err(EscrowError::Overflow));
    assert_eq!(ledger.token_account(&at(1)).unwrap().amount, 10);
    assert_eq!(ledger.token_account(&at(2)).unwrap().amount, u64::MAX);
    assert_eq!(ledger.token_account(&at(3)).unwrap().amount, 0);
}

#[test]
fn transfer_order_of_complaints() {
    let mut ledger = two_balances(10, 1);
    ledger.create_token_account(at(3), at(51), at(10)).unwrap();
    assert_eq!(ledger.transfer(at(1), at(3), at(20), 11), Err(EscrowError::InsufficientFunds));
    assert_eq!(ledger.transfer(at(1), at(3), at(20), 1), Err(EscrowError::MintMismatch));
}

#[test]
fn transfer_to_itself_changes_nothing() {
    let mut ledger = two_balances(10, 1);
    assert_eq!(ledger.transfer(at(1), at(1), at(10), 10), Ok(()));
    assert_eq!(ledger.token_account(&at(1)).unwrap().amount, 10);
    assert_eq!(ledger.transfer(at(1), at(1), at(10), 11), Err(EscrowError::InsufficientFunds));
    assert_eq!(ledger.transfer(at(1), at(1), at(20), 1), Err(EscrowError::OwnerMismatch));
}

#[test]
fn close_removes_an_empty_balance() {
    let mut ledger = two_balances(10, 0);
    assert_eq!(ledger.close_token_account(at(1), at(10), at(10)), Err(EscrowError::NonZeroBalance));
    assert_eq!(ledger.close_token_account(at(2), at(10), at(10)), Err(EscrowError::OwnerMismatch));
    assert_eq!(ledger.close_token_account(at(9), at(10), at(10)), Err(EscrowError::AccountMissing));
    assert!(ledger.token_account(&at(2)).is_some());
    assert_eq!(ledger.close_token_account(at(2), at(20), at(20)), Ok(()));
    assert_eq!(ledger.get(&at(2)), None);
    assert_eq!(ledger.token_account(&at(1)).unwrap().amount, 10);
    assert_eq!(ledger.close_token_account(at(2), at(20), at(20)), Err(EscrowError::AccountMissing));
    assert_eq!(ledger.create_token_account(at(2), at(50), at(20)), Ok(()));
}

#[test]
fn native_funds_start_at_nothing_and_add_up() {
    let mut ledger = Ledger::new();
    assert_eq!(ledger.native_balance(&at(1)), 0);
    assert_eq!(ledger.fund(at(1), 5), Ok(()));
    assert_eq!(ledger.fund(at(1), 7), Ok(()));
    assert_eq!(ledger.native_balance(&at(1)), 12);
    assert_eq!(ledger.native_balance(&at(2)), 0);
    assert_eq!(ledger.fund(at(1), u64::MAX - 11), Err(EscrowError::Overflow));
    assert_eq!(ledger.native_balance(&at(1)), 12);
    assert_eq!(ledger.fund(at(1), u64::MAX - 12), Ok(()));
    assert_eq!(ledger.native_balance(&at(1)), u64::MAX);
    assert_eq!(ledger.get(&at(1)), None);
}

#[test]
fn close_hands_the_storage_deposit_to_the_destination() {
    let mut ledger = two_balances(0, 0);
    ledger.fund(at(1), 30).unwrap();
    ledger.fund(at(2), 4).unwrap();
    ledger.fund(at(77), 100).unwrap();
    assert_eq!(ledger.close_token_account(at(1), at(77), at(10)), Ok(()));
    assert_eq!(ledger.native_balance(&at(77)), 130);
    assert_eq!(ledger.native_balance(&at(1)), 0);
    assert_eq!(ledger.native_balance(&at(2)), 4);
    assert_eq!(ledger.native_balance(&at(10)), 0);
    assert_eq!(ledger.get(&at(1)), None);
    assert_eq!(ledger.close_token_account(at(2), at(78), at(20)), Ok(()));
    assert_eq!(ledger.native_balance(&at(78)), 4);
    assert_eq!(ledger.native_balance(&at(2)), 0);
}

#[test]
fn close_rejects_a_destination_that_cannot_take_the_deposit() {
    let mut ledger = two_balances(0, 0);
    ledger.fund(at(1), 30).unwrap();
    ledger.fund(at(77), u64::MAX - 29).unwrap();
    assert_eq!(ledger.close_token_account(at(1), at(1), at(10)), Err(EscrowError::InvalidDestination));
    assert_eq!(ledger.close_token_account(at(1), at(77), at(10)), Err(EscrowError::Overflow));
    assert!(ledger.token_account(&at(1)).is_some());
    assert_eq!(ledger.native_balance(&at(1)), 30);
    assert_eq!(ledger.native_balance(&at(77)), u64::MAX - 29);
    ledger.fund(at(78), u64::MAX - 30).unwrap();
    assert_eq!(ledger.close_token_account(at(1), at(78), at(10)), Ok(()));
    assert_eq!(ledger.native_balance(&at(78)), u64::MAX);
}

#[test]
fn close_order_of_complaints() {
    let mut ledger = two_balances(10, 0);
    assert_eq!(ledger.close_token_account(at(1), at(1), at(20)), Err(EscrowError::NonZeroBalance));
    assert_eq!(ledger.close_token_account(at(2), at(2), at(10)), Err(EscrowError::OwnerMismatch));
    assert_eq!(ledger.close_token_account(at(2), at(2), at(20)), Err(EscrowError::InvalidDestination));
}

#[test]
fn snapshot_is_independent() {
    let mut ledger = two_balances(10, 1);
    let saved = ledger.snapshot();
    ledger.transfer(at(1), at(2), at(10), 4).unwrap();
    ledger.close_token_account(at(1), at(10), at(10)).unwrap_err();
    ledger.fund(at(1), 3).unwrap();
    assert_eq!(saved.native_balance(&at(1)), 0);
    assert_eq!(saved.token_account(&at(1)).unwrap().amount, 10);
    assert_eq!(saved.token_account(&at(2)).unwrap().amount, 1);
    assert_eq!(ledger.token_account(&at(1)).unwrap().amount, 6);
}

#[test]
fn removal_in_the_middle_keeps_the_rest() {
    let mut ledger = Ledger::new();
    for tag in 1..=5u8 {
        ledger.create_token_account(at(tag), at(50), at(10)).unwrap();
        ledger.mint_to(at(tag), tag as u64).unwrap();
    }
    ledger.transfer(at(3), at(4), at(10), 3).unwrap();
    ledger.close_token_account(at(3), at(10), at(10)).unwrap();
    assert_eq!(ledger.get(&at(3)), None);
    assert_eq!(ledger.token_account(&at(1)).unwrap().amount, 1);
    assert_eq!(ledger.token_account(&at(2)).unwrap().amount, 2);
    assert_eq!(ledger.token_account(&at(4)).unwrap().amount, 7);
    assert_eq!(ledger.token_account(&at(5)).unwrap().amount, 5);
}
