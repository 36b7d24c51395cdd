//! The endorser service: the request/response surface over the store.
//!
//! Each verb validates its plain-value request, forwards to the store, and
//! hands back the store's signed answer; transport framing and the listener
//! live outside this crate.

use vstd::prelude::*;
use crate::crypto::{pk_of, random_seed_bytes, sig_of, sig_ok};
use crate::endorser_state::{
    append_spec, append_view_spec, initialize_state_spec, new_ledger_spec, read_latest_spec,
    read_view_spec, tail_map_wf, EndorserState, LedgerTailMapEntry,
};
use crate::errors::EndorserError;
use crate::messages::zero_digest;

verus! {

/// The endorser service state: one store holding all per-handle state and
/// the signing key.
pub struct EndorserServiceState {
    state: EndorserState,
}

impl EndorserServiceState {
    /// The wrapped store (specification-only).
    pub closed spec fn store(self) -> EndorserState {
        self.state
    }

    /// A fresh service over an uninitialized, unlocked store with a signing
    /// key drawn at startup.
    pub fn new() -> (s: EndorserServiceState)
        ensures
            s.store().wf(),
            s.store().entries().len() == 0,
            s.store().view_tail_spec() == zero_digest(),
            s.store().view_height_spec() == 0,
            !s.store().is_initialized(),
            !s.store().is_locked(),
    {
        EndorserServiceState { state: EndorserState::new(random_seed_bytes()) }
    }

    /// A fresh service signing under the given 32-byte seed.
    pub fn with_seed(seed: Vec<u8>) -> (s: EndorserServiceState)
        requires
            seed@.len() == 32,
        ensures
            s.store().wf(),
            s.store().key_seed() == seed@,
            s.store().entries().len() == 0,
            s.store().view_tail_spec() == zero_digest(),
            s.store().view_height_spec() == 0,
            !s.store().is_initialized(),
            !s.store().is_locked(),
    {
        EndorserServiceState { state: EndorserState::new(seed) }
    }

    /// The endorser's public key and its self-signature.
    pub fn get_endorser_public_key(&self) -> (r: (Vec<u8>, Vec<u8>))
        requires
            self.store().wf(),
        ensures
            r.0@ == pk_of(self.store().key_seed()),
            r.1@ == sig_of(self.store().key_seed(), pk_of(self.store().key_seed())),
            sig_ok(r.0@, r.0@, r.1@),
    {
        self.state.get_public_key()
    }

    /// Create the ledger named by `handle`.
    pub fn new_ledger(&mut self, handle: Vec<u8>) -> (r: Result<Vec<u8>, EndorserError>)
        requires
            old(self).store().wf(),
            handle@.len() == 32,
        ensures
            final(self).store().wf(),
            new_ledger_spec(old(self).store(), handle@, final(self).store(), r),
    {
        self.state.new_ledger(handle)
    }

    /// Append `block_hash` to the ledger named by `handle` under the strict
    /// conditional tail.
    pub fn append_to_ledger(
        &mut self,
        handle: &Vec<u8>,
        block_hash: &Vec<u8>,
        cond_tail: &Vec<u8>,
    ) -> (r: Result<(Vec<u8>, u64, Vec<u8>), EndorserError>)
        requires
            old(self).store().wf(),
            handle@.len() == 32,
            block_hash@.len() == 32,
            cond_tail@.len() == 32,
        ensures
            final(self).store().wf(),
            append_spec(
                old(self).store(),
                handle@,
                block_hash@,
                cond_tail@,
                final(self).store(),
                r,
            ),
    {
        self.state.append(handle, block_hash, cond_tail)
    }

    /// Read the current signed tail of the ledger named by `handle`.
    pub fn read_latest(&self, handle: &Vec<u8>, nonce: &Vec<u8>) -> (r: Result<
        (Vec<u8>, Vec<u8>, Vec<u8>),
        EndorserError,
    >)
        requires
            self.store().wf(),
            handle@.len() == 32,
            nonce@.len() == 16,
        ensures
            read_latest_spec(self.store(), handle@, nonce@, r),
    {
        self.state.read_latest(handle, nonce)
    }

    /// Install a ledger-tail snapshot and the view ledger, and perform the
    /// first view-ledger append.
    pub fn initialize_state(
        &mut self,
        ledger_tail_map: &Vec<LedgerTailMapEntry>,
        view_tail: &Vec<u8>,
        view_height: u64,
        block_hash: &Vec<u8>,
        cond_tail: &Vec<u8>,
    ) -> (r: Result<Vec<u8>, EndorserError>)
        requires
            old(self).store().wf(),
            tail_map_wf(ledger_tail_map@),
            view_tail@.len() == 32,
            block_hash@.len() == 32,
            cond_tail@.len() == 32,
        ensures
            final(self).store().wf(),
            initialize_state_spec(
                old(self).store(),
                ledger_tail_map@,
                view_tail@,
                view_height,
                block_hash@,
                cond_tail@,
                final(self).store(),
                r,
            ),
    {
        self.state.initialize_state(ledger_tail_map, view_tail, view_height, block_hash, cond_tail)
    }

    /// Append to the view ledger, flipping the endorser lock on success.
    pub fn append_view_ledger(&mut self, block_hash: &Vec<u8>, cond_tail: &Vec<u8>) -> (r: Result<
        Vec<u8>,
        EndorserError,
    >)
        requires
            old(self).store().wf(),
            block_hash@.len() == 32,
            cond_tail@.len() == 32,
        ensures
            final(self).store().wf(),
            append_view_spec(old(self).store(), block_hash@, cond_tail@, final(self).store(), r),
    {
        self.state.append_view_ledger(block_hash, cond_tail)
    }

    /// Read the view ledger's current signed tail.
    pub fn read_latest_view_ledger(&self, nonce: &Vec<u8>) -> (r: Result<
        (Vec<u8>, Vec<u8>, Vec<u8>),
        EndorserError,
    >)
        requires
            self.store().wf(),
            nonce@.len() == 16,
        ensures
            read_view_spec(self.store(), nonce@, r),
    {
        self.state.read_latest_view_ledger(nonce)
    }
}

} // verus!
