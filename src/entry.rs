//! A ledger entry and the steps of the confidential-computation protocol on it.
use vstd::prelude::*;
use crate::error::{LedgerError, StaleOrUnknownCallback};

verus! {

/// The confidential running aggregate (count, volume, fees) as ciphertext.
/// The ledger stores and forwards it and never reads its bytes.
#[derive(Debug, Clone, Copy, PartialEq, Eq)]
pub struct AggregateState {
    pub ciphertexts: [[u8; 32]; 3],
}

/// A fact about the aggregate that a reveal request asks the compute service
/// to disclose in the clear.
#[derive(Debug, Clone, Copy, PartialEq, Eq, Structural)]
pub enum RevealQuery {
    /// Whether the total volume has reached the threshold.
    VolumeThreshold { threshold: u64 },
    /// The number of payments counted so far.
    PaymentCount,
}

/// The plaintext answer to a reveal request.
#[derive(Debug, Clone, Copy, PartialEq, Eq, Structural)]
pub enum RevealAnswer {
    MeetsThreshold(bool),
    PaymentCount(u64),
}

/// What an in-flight computation request will deliver.
#[derive(Debug, Clone, Copy, PartialEq, Eq, Structural)]
pub enum RequestKind {
    /// A new aggregate state.
    Aggregation,
    /// The answer to a reveal query.
    Reveal(RevealQuery),
}

/// The computation request in flight for an entry.
#[derive(Debug, Clone, Copy, PartialEq, Eq, Structural)]
pub struct PendingRequest {
    pub correlation_id: u64,
    pub kind: RequestKind,
    pub issued_at: i64,
}

/// The ledger record of one owning subject.
#[derive(Debug, Clone, Copy)]
pub struct Entry {
    pub owner: u64,
    pub active: bool,
    pub running_total: u64,
    /// `None` until the compute service has delivered a first aggregate.
    pub aggregate_state: Option<AggregateState>,
    pub aggregate_version: u64,
    pub pending: Option<PendingRequest>,
    /// The correlation id of the latest request that the compute service
    /// aborted, for whoever polls the entry; the update it carried is missing
    /// from the aggregate.
    pub last_aborted: Option<u64>,
}

/// The entry of `owner` as it is created: active, with nothing processed,
/// no aggregate and no request in flight.
pub open spec fn fresh_entry(owner: u64) -> Entry {
    Entry {
        owner,
        active: true,
        running_total: 0,
        aggregate_state: None,
        aggregate_version: 0,
        pending: None,
        last_aborted: None,
    }
}

/// Whether `correlation_id` names the request in flight for `e`.
pub open spec fn pending_is(e: Entry, correlation_id: u64) -> bool {
    e.pending matches Some(p) && p.correlation_id == correlation_id
}

/// Whether `answer` answers the query of `kind`.
pub open spec fn answer_fits(kind: RequestKind, answer: RevealAnswer) -> bool {
    match kind {
        RequestKind::Reveal(RevealQuery::VolumeThreshold { .. }) => answer is MeetsThreshold,
        RequestKind::Reveal(RevealQuery::PaymentCount) => answer is PaymentCount,
        RequestKind::Aggregation => false,
    }
}

/// Issuing a request: refused while another is in flight; otherwise the
/// request becomes the entry's pending one.
pub open spec fn begin_step(e: Entry, correlation_id: u64, kind: RequestKind, issued_at: i64) -> Result<
    Entry,
    LedgerError,
> {
    if e.pending is Some {
        Err(LedgerError::RequestAlreadyPending)
    } else {
        Ok(Entry { pending: Some(PendingRequest { correlation_id, kind, issued_at }), ..e })
    }
}

/// Applying a delivered aggregate: accepted only for the pending aggregation
/// request and a version above the current one; it installs the state and
/// version and clears the pending request.
pub open spec fn apply_step(
    e: Entry,
    correlation_id: u64,
    state: AggregateState,
    version: u64,
) -> Result<Entry, StaleOrUnknownCallback> {
    if pending_is(e, correlation_id) && e.pending->0.kind == RequestKind::Aggregation && version
        > e.aggregate_version {
        Ok(Entry { aggregate_state: Some(state), aggregate_version: version, pending: None, ..e })
    } else {
        Err(StaleOrUnknownCallback { correlation_id })
    }
}

/// An abort of the pending request clears it and records it as the latest
/// aborted request; the aggregate and its version stay as they were.
pub open spec fn abort_step(e: Entry, correlation_id: u64) -> Result<Entry, StaleOrUnknownCallback> {
    if pending_is(e, correlation_id) {
        Ok(Entry { pending: None, last_aborted: Some(correlation_id), ..e })
    } else {
        Err(StaleOrUnknownCallback { correlation_id })
    }
}

/// A delivered reveal answer is accepted for the pending reveal request whose
/// query it answers; it clears the pending request and nothing else.
pub open spec fn reveal_step(e: Entry, correlation_id: u64, answer: RevealAnswer) -> Result<
    Entry,
    StaleOrUnknownCallback,
> {
    if pending_is(e, correlation_id) && answer_fits(e.pending->0.kind, answer) {
        Ok(Entry { pending: None, ..e })
    } else {
        Err(StaleOrUnknownCallback { correlation_id })
    }
}

/// A result for any request but the pending one is refused, so the aggregate
/// state and version stay as they were.
pub proof fn stale_result_is_refused(
    e: Entry,
    correlation_id: u64,
    state: AggregateState,
    version: u64,
)
    requires
        !pending_is(e, correlation_id),
    ensures
        apply_step(e, correlation_id, state, version) is Err,
        abort_step(e, correlation_id) is Err,
{
}

} // verus!
