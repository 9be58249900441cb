//! Program-derived addresses: the canonical address of the counter account.

use vstd::prelude::*;

verus! {

/// What the ledger's program-address search returns for a seed and a program
/// id: the address and its bump, or `None` when no bump gives an address
/// off the curve.
pub uninterp spec fn program_address_of(seed: Seq<char>, program_id: Seq<u8>) -> Option<(Seq<u8>, u8)>;

/// Relies on `Pubkey::try_find_program_address`, called with the one seed
/// `seed`: the result depends on the seed's bytes and the program id alone.
#[verifier::external_body]
fn find_program_address(seed: &str, program_id: &[u8; 32]) -> (r: Option<([u8; 32], u8)>)
    ensures
        address_view(r) == program_address_of(seed@, program_id@),
{
    let program = anchor_lang::prelude::Pubkey::new_from_array(*program_id);
    anchor_lang::prelude::Pubkey::try_find_program_address(&[seed.as_bytes()], &program)
        .map(|(a, b)| (a.to_bytes(), b))
}

/// The seed that places the counter account.
pub open spec fn counter_seed() -> Seq<char> {
    "counter"@
}

/// An address and bump, seen as a byte sequence and a bump.
pub open spec fn address_view(r: Option<([u8; 32], u8)>) -> Option<(Seq<u8>, u8)> {
    match r {
        Some((a, b)) => Some((a@, b)),
        None => None,
    }
}

/// `key` is the canonical address of the counter account of `program_id`.
pub open spec fn is_counter_address(program_id: Seq<u8>, key: Seq<u8>) -> bool {
    match program_address_of(counter_seed(), program_id) {
        Some((a, _)) => a == key,
        None => false,
    }
}

/// Derives the program address of `program_id` for `seed`, with its bump.
pub fn derive_address(seed: &str, program_id: &[u8; 32]) -> (r: Option<([u8; 32], u8)>)
    ensures
        address_view(r) == program_address_of(seed@, program_id@),
{
    find_program_address(seed, program_id)
}

/// Whether two addresses are the same.
pub fn same_address(a: &[u8; 32], b: &[u8; 32]) -> (r: bool)
    ensures
        r == (a@ == b@),
{
    let mut i: usize = 0;
    while i < 32
        invariant
            i <= 32,
            a@.len() == 32,
            b@.len() == 32,
            forall|j: int| 0 <= j < i ==> a@[j] == b@[j],
        decreases 32 - i,
    {
        if a[i] != b[i] {
            return false;
        }
        i = i + 1;
    }
    assert(a@ =~= b@);
    true
}

/// Whether `key` is the canonical address of the counter account of `program_id`.
pub fn check_counter_address(program_id: &[u8; 32], key: &[u8; 32]) -> (r: bool)
    ensures
        r == is_counter_address(program_id@, key@),
{
    match derive_address("counter", program_id) {
        Some((a, _)) => same_address(&a, key),
        None => false,
    }
}

} // verus!
