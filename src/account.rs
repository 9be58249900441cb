//! Accounts as the ledger holds them, and the byte layout of the counter
//! account: an 8-byte type tag followed by the count in little-endian order.

use vstd::bytes::{spec_u64_from_le_bytes, spec_u64_to_le_bytes, u64_from_le_bytes, u64_to_le_bytes};
use vstd::prelude::*;
use vstd::slice::slice_subrange;

verus! {

/// SHA-256 of the UTF-8 bytes of a text.
pub uninterp spec fn sha256_of(text: Seq<char>) -> Seq<u8>;

/// Relies on `solana_program::hash::hash` over the text's UTF-8 bytes: the
/// SHA-256 digest, which depends on the text alone.
#[verifier::external_body]
fn sha256(text: &str) -> (r: [u8; 32])
    ensures
        r@ == sha256_of(text@),
{
    anchor_lang::solana_program::hash::hash(text.as_bytes()).to_bytes()
}

/// The tag that opens the data of every counter account: the first eight
/// bytes of the SHA-256 digest of `account:Counter`.
pub open spec fn counter_tag() -> Seq<u8> {
    Seq::new(8, |i: int| sha256_of("account:Counter"@)[i])
}

/// The data of a counter account that holds `count`.
pub open spec fn counter_layout(count: u64) -> Seq<u8> {
    counter_tag() + spec_u64_to_le_bytes(count)
}

/// The count that `data` holds, when it is laid out as a counter account.
pub open spec fn decode_counter(data: Seq<u8>) -> Option<u64> {
    if data.len() == 16 && data.subrange(0, 8) == counter_tag() {
        Some(spec_u64_from_le_bytes(data.subrange(8, 16)))
    } else {
        None
    }
}

/// Reading back the data of a counter gives its count.
pub proof fn lemma_decode_layout(count: u64)
    ensures
        counter_layout(count).len() == 16,
        decode_counter(counter_layout(count)) == Some(count),
{
    vstd::bytes::lemma_auto_spec_u64_to_from_le_bytes();
    let d = counter_layout(count);
    assert(d.subrange(0, 8) =~= counter_tag());
    assert(d.subrange(8, 16) =~= spec_u64_to_le_bytes(count));
}

/// The tag bytes of a counter account.
fn counter_tag_bytes() -> (r: Vec<u8>)
    ensures
        r@ == counter_tag(),
{
    let digest = sha256("account:Counter");
    let mut r: Vec<u8> = Vec::new();
    let mut i: usize = 0;
    while i < 8
        invariant
            i <= 8,
            digest@ == sha256_of("account:Counter"@),
            r@ == Seq::new(i as nat, |j: int| digest@[j]),
        decreases 8 - i,
    {
        r.push(digest[i]);
        i = i + 1;
        assert(r@ =~= Seq::new(i as nat, |j: int| digest@[j]));
    }
    assert(r@ =~= counter_tag());
    r
}

/// The persistent state of the counter.
#[derive(Debug, Clone, Copy, PartialEq, Eq, Structural)]
pub struct Counter {
    pub count: u64,
}

impl Counter {
    /// The account data that holds this counter.
    pub fn to_account_data(&self) -> (r: Vec<u8>)
        ensures
            r@ == counter_layout(self.count),
    {
        let mut r = counter_tag_bytes();
        let mut le = u64_to_le_bytes(self.count);
        r.append(&mut le);
        r
    }

    /// Reads a counter from account data: `None` unless the data is exactly
    /// the tag followed by eight bytes.
    pub fn from_account_data(data: &Vec<u8>) -> (r: Option<Counter>)
        ensures
            match r {
                Some(c) => decode_counter(data@) == Some(c.count),
                None => decode_counter(data@) is None,
            },
    {
        if data.len() != 16 {
            return None;
        }
        let tag = counter_tag_bytes();
        let mut i: usize = 0;
        while i < 8
            invariant
                i <= 8,
                data@.len() == 16,
                tag@ == counter_tag(),
                forall|j: int| 0 <= j < i ==> data@[j] == tag@[j],
            decreases 8 - i,
        {
            if data[i] != tag[i] {
                assert(data@.subrange(0, 8)[i as int] != counter_tag()[i as int]);
                return None;
            }
            i = i + 1;
        }
        assert(data@.subrange(0, 8) =~= counter_tag());
        let count = u64_from_le_bytes(slice_subrange(data.as_slice(), 8, 16));
        Some(Counter { count })
    }
}

/// An account as the ledger hands it to the program.
#[derive(Debug, Clone, PartialEq, Eq)]
pub struct LedgerAccount {
    pub key: [u8; 32],
    pub owner: [u8; 32],
    pub lamports: u64,
    pub data: Vec<u8>,
    pub is_signer: bool,
}

/// The contents of a `LedgerAccount`, as values.
pub struct AccountView {
    pub key: Seq<u8>,
    pub owner: Seq<u8>,
    pub lamports: u64,
    pub data: Seq<u8>,
    pub is_signer: bool,
}

impl View for LedgerAccount {
    type V = AccountView;

    open spec fn view(&self) -> AccountView {
        AccountView {
            key: self.key@,
            owner: self.owner@,
            lamports: self.lamports,
            data: self.data@,
            is_signer: self.is_signer,
        }
    }
}

} // verus!
