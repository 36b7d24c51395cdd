//! Error kinds at both tiers: the endorser state machine and the
//! coordinator's fan-out engine.

use vstd::prelude::*;

verus! {

/// Errors returned by the endorser state machine.
#[derive(Clone, Copy, Debug, PartialEq, Eq, Structural)]
pub enum EndorserError {
    /// returned if the supplied ledger name is invalid
    InvalidLedgerName,
    /// returned if one attempts to create a ledger that already exists
    LedgerExists,
    /// returned if the increment results in overflow of ledger height
    LedgerHeightOverflow,
    /// returned if the state of the endorser is not initialized
    NotInitialized,
    /// returned if the state of the endorser is already initialized
    AlreadyInitialized,
    /// returned if the requested tail height is less than the expected height
    InvalidTailHeight,
    /// returned if the requested tail height is more than the expected height
    OutOfOrderAppend,
    /// returned if the endorser is locked
    IsLocked,
}

/// Errors returned by the coordinator.
#[derive(Clone, Copy, Debug, PartialEq, Eq, Structural)]
pub enum CoordinatorError {
    /// the supplied host name cannot be resolved
    CannotResolveHostName,
    /// the endorser cannot be reached
    FailedToConnectToEndorser,
    /// the endorser's public key cannot be retrieved or does not check out
    UnableToRetrievePublicKey,
    /// a caller-supplied public key names no known endorser
    InvalidEndorserPublicKey,
    /// the connection map's read lock cannot be acquired
    FailedToAcquireReadLock,
    /// the connection map's write lock cannot be acquired
    FailedToAcquireWriteLock,
    /// some endorser failed the initialize-state verb
    FailedToInitializeEndorser,
    /// some endorser failed the create-ledger verb
    FailedToCreateLedger,
    /// some endorser failed the append verb
    FailedToAppendLedger,
    /// some endorser failed the read verb
    FailedToReadLedger,
    /// some endorser failed the view-ledger append verb
    FailedToAppendViewLedger,
    /// some endorser failed the view-ledger read verb
    FailedToReadViewLedger,
}

} // verus!
