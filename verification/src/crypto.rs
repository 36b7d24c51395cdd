//! Cryptographic primitives: the system hash and the endorser's signing
//! scheme, each reached through a small trusted boundary.
//!
//! The digest of a message, the public key derived from a seed, and the
//! signature over a message are each given an opaque name; every contract in
//! the crate speaks of those names, and only the wrappers below tie a name to
//! the outside call that computes it.

use vstd::prelude::*;

verus! {

/// The 32-byte collision-resistant digest of a message.
pub uninterp spec fn hash_of(m: Seq<u8>) -> Seq<u8>;

/// The public key derived from a 32-byte signing seed.
pub uninterp spec fn pk_of(seed: Seq<u8>) -> Seq<u8>;

/// The deterministic signature over a message under a 32-byte signing seed.
pub uninterp spec fn sig_of(seed: Seq<u8>, m: Seq<u8>) -> Seq<u8>;

/// Whether a signature verifies under a public key over a message.
pub uninterp spec fn sig_ok(pk: Seq<u8>, m: Seq<u8>, sig: Seq<u8>) -> bool;

/// Relies on sha2::Sha256::digest: a 32-byte digest that is a function of the
/// message bytes alone.
#[verifier::external_body]
pub(crate) fn sha256(m: &Vec<u8>) -> (r: Vec<u8>)
    ensures
        r@ == hash_of(m@),
        r@.len() == 32,
{
    <sha2::Sha256 as sha2::Digest>::digest(m.as_slice()).to_vec()
}

/// Relies on ed25519_dalek::SigningKey::from_bytes and
/// ed25519_dalek::SigningKey::verifying_key: the 32-byte public key is a
/// function of the 32-byte seed alone.
#[verifier::external_body]
pub(crate) fn ed25519_public_key(seed: &Vec<u8>) -> (r: Vec<u8>)
    requires
        seed@.len() == 32,
    ensures
        r@ == pk_of(seed@),
        r@.len() == 32,
{
    let mut s = [0u8; 32];
    s.copy_from_slice(seed.as_slice());
    ed25519_dalek::SigningKey::from_bytes(&s).verifying_key().to_bytes().to_vec()
}

/// Relies on ed25519_dalek::SigningKey::sign: Ed25519 signing is
/// deterministic, so the 64-byte signature is a function of the seed and the
/// message alone, and it passes verification under the matching public key.
#[verifier::external_body]
pub(crate) fn ed25519_sign(seed: &Vec<u8>, m: &Vec<u8>) -> (r: Vec<u8>)
    requires
        seed@.len() == 32,
    ensures
        r@ == sig_of(seed@, m@),
        r@.len() == 64,
        sig_ok(pk_of(seed@), m@, r@),
{
    let mut s = [0u8; 32];
    s.copy_from_slice(seed.as_slice());
    let key = ed25519_dalek::SigningKey::from_bytes(&s);
    ed25519_dalek::Signer::sign(&key, m.as_slice()).to_bytes().to_vec()
}

/// Relies on ed25519_dalek::VerifyingKey::verify: verification is a function
/// of the public-key bytes, the message and the signature bytes alone;
/// malformed keys and signatures are rejected.
#[verifier::external_body]
pub(crate) fn ed25519_verify(pk: &Vec<u8>, m: &Vec<u8>, sig: &Vec<u8>) -> (r: bool)
    ensures
        r == sig_ok(pk@, m@, sig@),
{
    let pk_arr: [u8; 32] = match pk.as_slice().try_into() {
        Ok(a) => a,
        Err(_) => return false,
    };
    let key = match ed25519_dalek::VerifyingKey::from_bytes(&pk_arr) {
        Ok(k) => k,
        Err(_) => return false,
    };
    let parsed = match ed25519_dalek::Signature::from_slice(sig.as_slice()) {
        Ok(s) => s,
        Err(_) => return false,
    };
    ed25519_dalek::Verifier::verify(&key, m.as_slice(), &parsed).is_ok()
}

/// Relies on rand::random: 32 bytes drawn from the thread-local
/// cryptographically secure generator; nothing is promised of their values.
#[verifier::external_body]
pub(crate) fn random_seed_bytes() -> (r: Vec<u8>)
    ensures
        r@.len() == 32,
{
    rand::random::<[u8; 32]>().to_vec()
}

/// Verify a signature over a message under a public key.
pub fn verify_signature(pk: &Vec<u8>, m: &Vec<u8>, sig: &Vec<u8>) -> (r: bool)
    ensures
        r == sig_ok(pk@, m@, sig@),
{
    ed25519_verify(pk, m, sig)
}

} // verus!
