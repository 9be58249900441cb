//! The two operations of the program, `initialize` and `ping`, with the checks
//! that guard them. Every check runs before any account is changed, so a
//! failed operation leaves every account as it was.

use crate::account::{counter_layout, decode_counter, AccountView, Counter, LedgerAccount};
use crate::address::{check_counter_address, is_counter_address, same_address};
use vstd::prelude::*;

verus! {

/// Why an operation was refused.
#[derive(Debug, Clone, Copy, PartialEq, Eq, Structural)]
pub enum CounterError {
    /// The account is not at the canonical address of the counter.
    InvalidAccountDerivation,
    /// `initialize` found the account already in use.
    AccountAlreadyInitialized,
    /// The account is not owned by this program.
    AccountNotInitialized,
    /// The payer did not sign.
    Unauthorized,
    /// The payer cannot fund the new account.
    InsufficientFunds,
    /// The count is already at its largest value.
    ArithmeticOverflow,
    /// The account is owned by this program but does not hold a counter.
    TypeMismatch,
}

/// The address of the ledger's system program: thirty-two zero bytes.
pub open spec fn system_program_key() -> Seq<u8> {
    Seq::new(32, |i: int| 0u8)
}

/// Relies on `anchor_lang::system_program::ID`, declared from the base-58 text
/// of thirty-two `1`s, which decodes to thirty-two zero bytes.
#[verifier::external_body]
fn system_program_id() -> (r: [u8; 32])
    ensures
        r@ == system_program_key(),
{
    anchor_lang::system_program::ID.to_bytes()
}

/// The accounts of `initialize`: the counter account to create, and the
/// payer who signs and funds it.
pub struct Initialize {
    pub counter: LedgerAccount,
    pub user: LedgerAccount,
}

/// The account of `ping`: the counter account.
pub struct Ping {
    pub counter: LedgerAccount,
}

/// The account holds data or belongs to a program other than the system
/// program, so it cannot be created afresh.
pub open spec fn in_use(v: AccountView) -> bool {
    v.data.len() != 0 || v.owner != system_program_key()
}

/// What the payer must add so that an account holding `lamports` reaches
/// `minimum`.
pub open spec fn amount_due(lamports: u64, minimum: u64) -> u64 {
    if lamports >= minimum {
        0
    } else {
        (minimum - lamports) as u64
    }
}

/// The counter account and the payer after `initialize`, or why it fails.
pub open spec fn initialize_result(
    program_id: Seq<u8>,
    counter: AccountView,
    user: AccountView,
    rent_exempt_minimum: u64,
) -> Result<(AccountView, AccountView), CounterError> {
    let due = amount_due(counter.lamports, rent_exempt_minimum);
    if !user.is_signer {
        Err(CounterError::Unauthorized)
    } else if !is_counter_address(program_id, counter.key) {
        Err(CounterError::InvalidAccountDerivation)
    } else if in_use(counter) {
        Err(CounterError::AccountAlreadyInitialized)
    } else if user.lamports < due {
        Err(CounterError::InsufficientFunds)
    } else {
        Ok(
            (
                AccountView {
                    key: counter.key,
                    owner: program_id,
                    lamports: (counter.lamports + due) as u64,
                    data: counter_layout(0),
                    is_signer: counter.is_signer,
                },
                AccountView {
                    key: user.key,
                    owner: user.owner,
                    lamports: (user.lamports - due) as u64,
                    data: user.data,
                    is_signer: user.is_signer,
                },
            ),
        )
    }
}

/// The count held by the counter account, or why it cannot be read.
pub open spec fn read_result(program_id: Seq<u8>, counter: AccountView) -> Result<u64, CounterError> {
    if !is_counter_address(program_id, counter.key) {
        Err(CounterError::InvalidAccountDerivation)
    } else if counter.owner != program_id {
        Err(CounterError::AccountNotInitialized)
    } else {
        match decode_counter(counter.data) {
            Some(n) => Ok(n),
            None => Err(CounterError::TypeMismatch),
        }
    }
}

/// The counter account after `ping`, or why it fails.
pub open spec fn ping_result(program_id: Seq<u8>, counter: AccountView) -> Result<AccountView, CounterError> {
    match read_result(program_id, counter) {
        Err(e) => Err(e),
        Ok(n) => if n == u64::MAX {
            Err(CounterError::ArithmeticOverflow)
        } else {
            Ok(
                AccountView {
                    key: counter.key,
                    owner: counter.owner,
                    lamports: counter.lamports,
                    data: counter_layout((n + 1) as u64),
                    is_signer: counter.is_signer,
                },
            )
        },
    }
}

/// Creates the counter account at its canonical address, funded by the payer
/// up to `rent_exempt_minimum` lamports, owned by the program and holding
/// a count of zero.
pub fn initialize(program_id: &[u8; 32], accounts: &mut Initialize, rent_exempt_minimum: u64) -> (r: Result<(), CounterError>)
    ensures
        match initialize_result(program_id@, old(accounts).counter@, old(accounts).user@, rent_exempt_minimum) {
            Ok((c, u)) => r is Ok && final(accounts).counter@ == c && final(accounts).user@ == u,
            Err(e) => r == Err::<(), CounterError>(e) && final(accounts).counter@ == old(accounts).counter@
                && final(accounts).user@ == old(accounts).user@,
        },
{
    if !accounts.user.is_signer {
        return Err(CounterError::Unauthorized);
    }
    if !check_counter_address(program_id, &accounts.counter.key) {
        return Err(CounterError::InvalidAccountDerivation);
    }
    let system = system_program_id();
    if accounts.counter.data.len() != 0 || !same_address(&accounts.counter.owner, &system) {
        return Err(CounterError::AccountAlreadyInitialized);
    }
    let due: u64 = if accounts.counter.lamports >= rent_exempt_minimum {
        0
    } else {
        rent_exempt_minimum - accounts.counter.lamports
    };
    if accounts.user.lamports < due {
        return Err(CounterError::InsufficientFunds);
    }
    accounts.user.lamports = accounts.user.lamports - due;
    accounts.counter.lamports = accounts.counter.lamports + due;
    accounts.counter.owner = *program_id;
    accounts.counter.data = Counter { count: 0 }.to_account_data();
    Ok(())
}

/// Reads the count held by the counter account.
pub fn read_count(program_id: &[u8; 32], counter: &LedgerAccount) -> (r: Result<u64, CounterError>)
    ensures
        r == read_result(program_id@, counter@),
{
    if !check_counter_address(program_id, &counter.key) {
        return Err(CounterError::InvalidAccountDerivation);
    }
    if !same_address(&counter.owner, program_id) {
        return Err(CounterError::AccountNotInitialized);
    }
    match Counter::from_account_data(&counter.data) {
        Some(c) => Ok(c.count),
        None => Err(CounterError::TypeMismatch),
    }
}

/// Adds one to the count held by the counter account.
pub fn ping(program_id: &[u8; 32], accounts: &mut Ping) -> (r: Result<(), CounterError>)
    ensures
        match ping_result(program_id@, old(accounts).counter@) {
            Ok(c) => r is Ok && final(accounts).counter@ == c,
            Err(e) => r == Err::<(), CounterError>(e) && final(accounts).counter@ == old(accounts).counter@,
        },
{
    let count = match read_count(program_id, &accounts.counter) {
        Ok(n) => n,
        Err(e) => return Err(e),
    };
    let next = match count.checked_add(1) {
        Some(n) => n,
        None => return Err(CounterError::ArithmeticOverflow),
    };
    accounts.counter.data = Counter { count: next }.to_account_data();
    Ok(())
}

} // verus!
