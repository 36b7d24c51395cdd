//! A trust-minimized verifiable append-only ledger core.
//!
//! An endorser maintains per-handle ledger state (a chained tail digest and a
//! height) and signs every state transition; a coordinator fans requests out
//! to a set of endorsers and aggregates their signatures into receipts.

pub mod bytes;
pub mod coordinator;
pub mod crypto;
pub mod endorser;
pub mod endorser_state;
pub mod errors;
pub mod messages;
pub mod receipt;
