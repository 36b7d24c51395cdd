//! Canonical message layouts.
//!
//! Every signed message is the raw concatenation of fixed-width fields:
//! 32-byte digests and handles, 16-byte nonces, and big-endian 64-bit
//! heights. There are no length prefixes and no framing; the schema of each
//! signature is fixed by the verb that produces it.

use vstd::prelude::*;
use crate::bytes::{be64, extend_bytes, u64_to_be_bytes, zero_bytes};
use crate::crypto::{hash_of, sha256};

verus! {

/// The all-zero digest: the genesis predecessor of every ledger.
pub open spec fn zero_digest() -> Seq<u8> {
    Seq::new(32, |i: int| 0u8)
}

/// The distinguished 32-byte identifier that stands in place of a handle in
/// view-ledger messages.
pub open spec fn view_id() -> Seq<u8> {
    Seq::new(32, |i: int| 0xffu8)
}

/// The preimage hashed at ledger creation: `0^32 ‖ handle ‖ 0^64`.
pub open spec fn genesis_msg(handle: Seq<u8>) -> Seq<u8> {
    zero_digest() + handle + be64(0)
}

/// The tail of a freshly created ledger.
pub open spec fn genesis_tail(handle: Seq<u8>) -> Seq<u8> {
    hash_of(genesis_msg(handle))
}

/// The preimage hashed at each append: `tail_old ‖ block_hash ‖ height_new_be64`.
pub open spec fn chain_msg(tail: Seq<u8>, block: Seq<u8>, height: u64) -> Seq<u8> {
    tail + block + be64(height)
}

/// The tail after appending `block` at the new height.
pub open spec fn next_tail(tail: Seq<u8>, block: Seq<u8>, height: u64) -> Seq<u8> {
    hash_of(chain_msg(tail, block, height))
}

/// The message signed for creations and appends: `tail ‖ id ‖ height_be64`,
/// where `id` is the ledger handle or the view identifier.
pub open spec fn append_msg(tail: Seq<u8>, id: Seq<u8>, height: u64) -> Seq<u8> {
    tail + id + be64(height)
}

/// The message signed for reads: `tail ‖ height_be64 ‖ nonce`.
pub open spec fn read_msg(tail: Seq<u8>, height: u64, nonce: Seq<u8>) -> Seq<u8> {
    tail + be64(height) + nonce
}

/// Concatenate three byte strings.
pub fn concat3(a: &Vec<u8>, b: &Vec<u8>, c: &Vec<u8>) -> (r: Vec<u8>)
    ensures
        r@ == a@ + b@ + c@,
{
    let mut r: Vec<u8> = Vec::new();
    extend_bytes(&mut r, a);
    extend_bytes(&mut r, b);
    extend_bytes(&mut r, c);
    proof {
        assert(r@ =~= a@ + b@ + c@);
    }
    r
}

/// The all-zero digest as bytes.
pub fn zero_digest_bytes() -> (r: Vec<u8>)
    ensures
        r@ == zero_digest(),
{
    zero_bytes(32)
}

/// The view-ledger identifier as bytes.
pub fn view_id_bytes() -> (r: Vec<u8>)
    ensures
        r@ == view_id(),
{
    let mut r: Vec<u8> = Vec::new();
    let mut i: usize = 0;
    while i < 32
        invariant
            i <= 32,
            r@ == Seq::new(i as nat, |j: int| 0xffu8),
        decreases 32 - i,
    {
        r.push(0xffu8);
        proof {
            assert(r@ =~= Seq::new(i as nat + 1, |j: int| 0xffu8));
        }
        i += 1;
    }
    r
}

/// Build the signed message for a creation or an append.
pub fn build_append_msg(tail: &Vec<u8>, id: &Vec<u8>, height: u64) -> (r: Vec<u8>)
    ensures
        r@ == append_msg(tail@, id@, height),
{
    let h = u64_to_be_bytes(height);
    concat3(tail, id, &h)
}

/// Build the signed message for a read.
pub fn build_read_msg(tail: &Vec<u8>, height: u64, nonce: &Vec<u8>) -> (r: Vec<u8>)
    ensures
        r@ == read_msg(tail@, height, nonce@),
{
    let h = u64_to_be_bytes(height);
    concat3(tail, &h, nonce)
}

/// Compute the genesis tail of a ledger: `H(0^32 ‖ handle ‖ 0^64)`.
pub fn compute_genesis_tail(handle: &Vec<u8>) -> (r: Vec<u8>)
    ensures
        r@ == genesis_tail(handle@),
        r@.len() == 32,
{
    let z = zero_digest_bytes();
    let m = build_append_msg(&z, handle, 0);
    sha256(&m)
}

/// Compute the tail after an append: `H(tail_old ‖ block_hash ‖ height_new_be64)`.
pub fn compute_next_tail(tail: &Vec<u8>, block: &Vec<u8>, height: u64) -> (r: Vec<u8>)
    ensures
        r@ == next_tail(tail@, block@, height),
        r@.len() == 32,
{
    let m = build_append_msg(tail, block, height);
    sha256(&m)
}

} // verus!
