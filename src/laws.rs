//! Properties of derivation and of the two operations, stated over the
//! models that the operations' contracts use.

use crate::account::{lemma_decode_layout, AccountView};
use crate::address::{address_view, is_counter_address, program_address_of};
use crate::instructions::{initialize_result, ping_result, read_result, CounterError};
use vstd::prelude::*;

verus! {

/// The counter account after `n` pings in a row, or the first refusal.
pub open spec fn ping_times(program_id: Seq<u8>, counter: AccountView, n: nat) -> Result<AccountView, CounterError>
    decreases n,
{
    if n == 0 {
        Ok(counter)
    } else {
        match ping_times(program_id, counter, (n - 1) as nat) {
            Ok(c) => ping_result(program_id, c),
            Err(e) => Err(e),
        }
    }
}

/// Two derivations from the same seed and program id give the same address
/// and the same bump.
pub proof fn derivation_is_deterministic(
    seed: Seq<char>,
    program_id: Seq<u8>,
    first: Option<([u8; 32], u8)>,
    second: Option<([u8; 32], u8)>,
)
    requires
        address_view(first) == program_address_of(seed, program_id),
        address_view(second) == program_address_of(seed, program_id),
    ensures
        first == second,
{
    broadcast use vstd::array::group_array_axioms;

    if let (Some((a1, _)), Some((a2, _))) = (first, second) {
        assert(a1@ == a2@);
        assert(a1 == a2);
    }
}

/// Right after `initialize` succeeds, the counter reads zero.
pub proof fn initialize_then_read_is_zero(
    program_id: Seq<u8>,
    counter: AccountView,
    user: AccountView,
    rent_exempt_minimum: u64,
)
    requires
        initialize_result(program_id, counter, user, rent_exempt_minimum) is Ok,
    ensures
        read_result(program_id, initialize_result(program_id, counter, user, rent_exempt_minimum)->Ok_0.0)
            == Ok::<u64, CounterError>(0),
{
    lemma_decode_layout(0);
}

/// A second `initialize` on the account that the first one created fails
/// with `AccountAlreadyInitialized`, whatever signing payer it names.
pub proof fn initialize_twice_fails(
    program_id: Seq<u8>,
    counter: AccountView,
    user: AccountView,
    rent_exempt_minimum: u64,
    payer: AccountView,
    second_minimum: u64,
)
    requires
        initialize_result(program_id, counter, user, rent_exempt_minimum) is Ok,
        payer.is_signer,
    ensures
        initialize_result(
            program_id,
            initialize_result(program_id, counter, user, rent_exempt_minimum)->Ok_0.0,
            payer,
            second_minimum,
        ) == Err::<(AccountView, AccountView), CounterError>(CounterError::AccountAlreadyInitialized),
{
    lemma_decode_layout(0);
}

/// From a freshly initialized counter, `n` pings succeed and leave the count
/// at `n`.
pub proof fn pings_count_up(
    program_id: Seq<u8>,
    counter: AccountView,
    user: AccountView,
    rent_exempt_minimum: u64,
    n: nat,
)
    requires
        initialize_result(program_id, counter, user, rent_exempt_minimum) is Ok,
        n <= u64::MAX,
    ensures
        ping_times(
            program_id,
            initialize_result(program_id, counter, user, rent_exempt_minimum)->Ok_0.0,
            n,
        ) is Ok,
        read_result(
            program_id,
            ping_times(
                program_id,
                initialize_result(program_id, counter, user, rent_exempt_minimum)->Ok_0.0,
                n,
            )->Ok_0,
        ) == Ok::<u64, CounterError>(n as u64),
    decreases n,
{
    let fresh = initialize_result(program_id, counter, user, rent_exempt_minimum)->Ok_0.0;
    if n == 0 {
        initialize_then_read_is_zero(program_id, counter, user, rent_exempt_minimum);
    } else {
        pings_count_up(program_id, counter, user, rent_exempt_minimum, (n - 1) as nat);
        let before = ping_times(program_id, fresh, (n - 1) as nat)->Ok_0;
        lemma_decode_layout(n as u64);
        assert(ping_times(program_id, fresh, n) == ping_result(program_id, before));
    }
}

/// `ping` on the counter's address before the program owns the account fails
/// with `AccountNotInitialized`.
pub proof fn ping_before_initialize_fails(program_id: Seq<u8>, counter: AccountView)
    requires
        is_counter_address(program_id, counter.key),
        counter.owner != program_id,
    ensures
        ping_result(program_id, counter) == Err::<AccountView, CounterError>(CounterError::AccountNotInitialized),
{
}

/// `ping` on any account away from the canonical address fails with
/// `InvalidAccountDerivation`, whatever the account holds.
pub proof fn ping_elsewhere_fails(program_id: Seq<u8>, counter: AccountView)
    requires
        !is_counter_address(program_id, counter.key),
    ensures
        ping_result(program_id, counter) == Err::<AccountView, CounterError>(CounterError::InvalidAccountDerivation),
{
}

/// `initialize` with a payer who did not sign fails with `Unauthorized`.
pub proof fn initialize_unsigned_fails(
    program_id: Seq<u8>,
    counter: AccountView,
    user: AccountView,
    rent_exempt_minimum: u64,
)
    requires
        !user.is_signer,
    ensures
        initialize_result(program_id, counter, user, rent_exempt_minimum)
            == Err::<(AccountView, AccountView), CounterError>(CounterError::Unauthorized),
{
}

/// `ping` on a counter at the largest count fails with `ArithmeticOverflow`.
pub proof fn ping_at_max_fails(program_id: Seq<u8>, counter: AccountView)
    requires
        read_result(program_id, counter) == Ok::<u64, CounterError>(u64::MAX),
    ensures
        ping_result(program_id, counter) == Err::<AccountView, CounterError>(CounterError::ArithmeticOverflow),
{
}

} // verus!
