use std::str::FromStr;

use anchor_lang::prelude::Pubkey;
use solana_counter::address::same_address;
use solana_counter::{
    derive_address, initialize, ping, read_count, Counter, CounterError, Initialize, LedgerAccount, Ping,
};

const RENT: u64 = 1_000;

fn program_id() -> [u8; 32] {
    Pubkey::from_str("7ezV5kY1bu3mcHpZQUJWU5YJWGobyxe9RA6EJV9LJ5aL").unwrap().to_bytes()
}

fn counter_key() -> [u8; 32] {
    derive_address("counter", &program_id()).unwrap().0
}

fn fresh_slot(key: [u8; 32]) -> LedgerAccount {
    LedgerAccount { key, owner: [0u8; 32], lamports: 0, data: Vec::new(), is_signer: false }
}

fn payer(lamports: u64, is_signer: bool) -> LedgerAccount {
    LedgerAccount { key: [7u8; 32], owner: [0u8; 32], lamports, data: Vec::new(), is_signer }
}

fn initialized() -> LedgerAccount {
    let mut accounts = Initialize { counter: fresh_slot(counter_key()), user: payer(5_000, true) };
    initialize(&program_id(), &mut accounts, RENT).unwrap();
    accounts.counter
}

fn holding(count: u64) -> LedgerAccount {
    LedgerAccount {
        key: counter_key(),
        owner: program_id(),
        lamports: RENT,
        data: Counter { count }.to_account_data(),
        is_signer: false,
    }
}

fn ping_n(counter: LedgerAccount, n: u64) -> LedgerAccount {
    let mut accounts = Ping { counter };
    for _ in 0..n {
        ping(&program_id(), &mut accounts).unwrap();
    }
    accounts.counter
}

#[test]
fn derivation_is_repeatable() {
    let pid = program_id();
    let first = derive_address("counter", &pid);
    let second = derive_address("counter", &pid);
    assert!(first.is_some());
    assert_eq!(first, second);
}

#[test]
fn derivation_matches_ledger_search() {
    let pid = program_id();
    let (address, bump) = Pubkey::find_program_address(&[b"counter"], &Pubkey::new_from_array(pid));
    assert_eq!(derive_address("counter", &pid), Some((address.to_bytes(), bump)));
    assert_ne!(address.to_bytes(), pid);
}

#[test]
fn derivation_depends_on_seed() {
    let pid = program_id();
    assert_ne!(derive_address("counter", &pid).unwrap().0, derive_address("other", &pid).unwrap().0);
}

#[test]
fn derivation_refuses_long_seed() {
    let long = "a seed that runs past thirty-two bytes";
    assert_eq!(derive_address(long, &program_id()), None);
}

#[test]
fn initialize_then_read_is_zero() {
    let counter = initialized();
    assert_eq!(read_count(&program_id(), &counter), Ok(0));
}

#[test]
fn initialize_creates_the_account() {
    let mut accounts = Initialize { counter: fresh_slot(counter_key()), user: payer(5_000, true) };
    assert_eq!(initialize(&program_id(), &mut accounts, RENT), Ok(()));
    assert_eq!(accounts.counter.owner, program_id());
    assert_eq!(accounts.counter.lamports, RENT);
    assert_eq!(accounts.counter.data.len(), 16);
    assert_eq!(accounts.user.lamports, 4_000);
    let digest = anchor_lang::solana_program::hash::hash(b"account:Counter").to_bytes();
    assert_eq!(&accounts.counter.data[..8], &digest[..8]);
    assert_eq!(&accounts.counter.data[8..], &[0u8; 8]);
}

#[test]
fn initialize_tops_up_a_funded_slot() {
    let mut slot = fresh_slot(counter_key());
    slot.lamports = 600;
    let mut accounts = Initialize { counter: slot, user: payer(5_000, true) };
    assert_eq!(initialize(&program_id(), &mut accounts, RENT), Ok(()));
    assert_eq!(accounts.counter.lamports, RENT);
    assert_eq!(accounts.user.lamports, 4_600);
}

#[test]
fn initialize_on_richly_funded_slot_costs_nothing() {
    let mut slot = fresh_slot(counter_key());
    slot.lamports = 3_000;
    let mut accounts = Initialize { counter: slot, user: payer(0, true) };
    assert_eq!(initialize(&program_id(), &mut accounts, RENT), Ok(()));
    assert_eq!(accounts.counter.lamports, 3_000);
    assert_eq!(accounts.user.lamports, 0);
}

#[test]
fn initialize_twice_fails() {
    let mut accounts = Initialize { counter: fresh_slot(counter_key()), user: payer(5_000, true) };
    initialize(&program_id(), &mut accounts, RENT).unwrap();
    let after_first_counter = accounts.counter.clone();
    let after_first_user = accounts.user.clone();
    assert_eq!(initialize(&program_id(), &mut accounts, RENT), Err(CounterError::AccountAlreadyInitialized));
    assert_eq!(accounts.counter, after_first_counter);
    assert_eq!(accounts.user, after_first_user);
}

#[test]
fn initialize_on_foreign_owned_slot_fails() {
    let mut slot = fresh_slot(counter_key());
    slot.owner = [9u8; 32];
    let mut accounts = Initialize { counter: slot, user: payer(5_000, true) };
    assert_eq!(initialize(&program_id(), &mut accounts, RENT), Err(CounterError::AccountAlreadyInitialized));
}

#[test]
fn initialize_unsigned_fails() {
    let mut accounts = Initialize { counter: fresh_slot(counter_key()), user: payer(5_000, false) };
    assert_eq!(initialize(&program_id(), &mut accounts, RENT), Err(CounterError::Unauthorized));
    assert_eq!(accounts.counter, fresh_slot(counter_key()));
    assert_eq!(accounts.user, payer(5_000, false));
}

#[test]
fn initialize_at_wrong_address_fails() {
    let mut accounts = Initialize { counter: fresh_slot([3u8; 32]), user: payer(5_000, true) };
    assert_eq!(initialize(&program_id(), &mut accounts, RENT), Err(CounterError::InvalidAccountDerivation));
    assert_eq!(accounts.counter, fresh_slot([3u8; 32]));
}

#[test]
fn initialize_with_poor_payer_fails() {
    let mut accounts = Initialize { counter: fresh_slot(counter_key()), user: payer(999, true) };
    assert_eq!(initialize(&program_id(), &mut accounts, RENT), Err(CounterError::InsufficientFunds));
    assert_eq!(accounts.counter, fresh_slot(counter_key()));
    assert_eq!(accounts.user, payer(999, true));
}

#[test]
fn ping_once() {
    let counter = ping_n(initialized(), 1);
    assert_eq!(read_count(&program_id(), &counter), Ok(1));
}

#[test]
fn ping_ten_times() {
    let counter = ping_n(initialized(), 10);
    assert_eq!(read_count(&program_id(), &counter), Ok(10));
}

#[test]
fn ping_a_thousand_times() {
    let counter = ping_n(initialized(), 1000);
    assert_eq!(read_count(&program_id(), &counter), Ok(1000));
    assert_eq!(counter.data, Counter { count: 1000 }.to_account_data());
    assert_eq!(counter.lamports, RENT);
}

#[test]
fn ping_before_initialize_fails() {
    let mut accounts = Ping { counter: fresh_slot(counter_key()) };
    assert_eq!(ping(&program_id(), &mut accounts), Err(CounterError::AccountNotInitialized));
    assert_eq!(accounts.counter, fresh_slot(counter_key()));
}

#[test]
fn ping_at_wrong_address_fails() {
    let mut counter = holding(5);
    counter.key = [3u8; 32];
    let mut accounts = Ping { counter: counter.clone() };
    assert_eq!(ping(&program_id(), &mut accounts), Err(CounterError::InvalidAccountDerivation));
    assert_eq!(accounts.counter, counter);
    let mut empty = Ping { counter: fresh_slot([3u8; 32]) };
    assert_eq!(ping(&program_id(), &mut empty), Err(CounterError::InvalidAccountDerivation));
}

#[test]
fn ping_on_other_data_fails() {
    let mut counter = holding(5);
    counter.data[0] ^= 1;
    let mut accounts = Ping { counter: counter.clone() };
    assert_eq!(ping(&program_id(), &mut accounts), Err(CounterError::TypeMismatch));
    assert_eq!(accounts.counter, counter);
}

#[test]
fn ping_at_max_overflows() {
    let mut accounts = Ping { counter: holding(u64::MAX) };
    assert_eq!(ping(&program_id(), &mut accounts), Err(CounterError::ArithmeticOverflow));
    assert_eq!(read_count(&program_id(), &accounts.counter), Ok(u64::MAX));
}

#[test]
fn ping_just_below_max() {
    let mut accounts = Ping { counter: holding(u64::MAX - 1) };
    assert_eq!(ping(&program_id(), &mut accounts), Ok(()));
    assert_eq!(read_count(&program_id(), &accounts.counter), Ok(u64::MAX));
}

#[test]
fn account_data_layout() {
    let data = Counter { count: 0x0102_0304_0506_0708 }.to_account_data();
    assert_eq!(data.len(), 16);
    assert_eq!(&data[8..], &[8, 7, 6, 5, 4, 3, 2, 1]);
    assert_eq!(Counter::from_account_data(&data), Some(Counter { count: 0x0102_0304_0506_0708 }));
}

#[test]
fn account_data_of_wrong_length_is_refused() {
    let mut data = Counter { count: 3 }.to_account_data();
    data.push(0);
    assert_eq!(Counter::from_account_data(&data), None);
    assert_eq!(Counter::from_account_data(&Vec::new()), None);
}

#[test]
fn addresses_compare_by_bytes() {
    let mut other = counter_key();
    assert!(same_address(&counter_key(), &other));
    other[31] ^= 1;
    assert!(!same_address(&counter_key(), &other));
}
