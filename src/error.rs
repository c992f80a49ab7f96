//! Errors of ledger operations.
use vstd::prelude::*;
use crate::delegation::DelegationError;
use crate::fees::FeeError;

verus! {

/// Why a ledger operation was refused. A refused operation changes nothing.
#[derive(Debug, Clone, Copy, PartialEq, Eq, Structural)]
pub enum LedgerError {
    /// An entry for this owner exists already.
    EntryExists,
    /// No entry has this id.
    UnknownEntry,
    /// No transfer record has this id.
    UnknownTransfer,
    /// The caller is not the entry's owner.
    InvalidAuthority,
    /// The signer of an execution is not the transfer's sender.
    InvalidProxySigner,
    /// The nonce given with an execution is not the transfer's replay nonce.
    InvalidNonce,
    /// The entry is paused and accepts no transfers.
    EntryInactive,
    /// Pausing an entry that is paused already.
    AlreadyPaused,
    /// Resuming an entry that is active already.
    AlreadyActive,
    /// The running total would overflow.
    Overflow,
    /// The entry has a computation request in flight.
    RequestAlreadyPending,
    /// Every correlation id has been handed out.
    CorrelationIdsExhausted,
    /// The sender used this replay nonce before.
    ReplayRejected,
    /// The transfer was executed before.
    TransferAlreadyCompleted,
    /// A value movement of the transfer failed.
    InsufficientFunds,
    /// The fee split refused the amount or the rates.
    Fee(FeeError),
    /// The delegation transition is not allowed from the current state.
    Delegation(DelegationError),
}

/// A callback named a request that is not the one in flight for its entry,
/// or carried a result that does not fit it. It is discarded.
#[derive(Debug, Clone, Copy, PartialEq, Eq, Structural)]
pub struct StaleOrUnknownCallback {
    pub correlation_id: u64,
}

/// The transfer-execution collaborator could not move the value.
#[derive(Debug, Clone, Copy, PartialEq, Eq, Structural)]
pub struct InsufficientFunds;

} // verus!
