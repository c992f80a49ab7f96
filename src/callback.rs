//! The single entry point through which the compute service delivers the
//! terminal result of a request.
use vstd::prelude::*;
use crate::entry::{
    AggregateState,
    Entry,
    RevealAnswer,
    abort_step,
    apply_step,
    begin_step,
    pending_is,
    reveal_step,
    RequestKind,
};
use crate::ledger::{Ledger, begin_error, same_but_entries};

verus! {

/// The terminal result of a computation request.
#[derive(Debug, Clone, Copy, PartialEq, Eq)]
pub enum ComputationOutcome {
    /// A new aggregate and its version.
    Success { state: AggregateState, version: u64 },
    /// The answer to a reveal query.
    Revealed(RevealAnswer),
    /// The service gave up on the request.
    Aborted,
}

/// What became of a delivered result.
#[derive(Debug, Clone, Copy, PartialEq, Eq, Structural)]
pub enum CallbackStatus {
    /// The new aggregate was installed.
    Applied,
    /// The answer was taken and is handed on.
    Revealed(RevealAnswer),
    /// The request was withdrawn; the aggregate misses this update and the
    /// caller may issue a new request.
    Aborted,
    /// Stale, unknown or redelivered: discarded without a change.
    Rejected,
}

/// The status of delivering `outcome` for `correlation_id` to entry `entry`,
/// and the entries after it.
pub open spec fn callback_result(
    entries: Seq<Entry>,
    entry: int,
    correlation_id: u64,
    outcome: ComputationOutcome,
) -> (CallbackStatus, Seq<Entry>) {
    if !(0 <= entry < entries.len()) {
        (CallbackStatus::Rejected, entries)
    } else {
        match outcome {
            ComputationOutcome::Success { state, version } => match apply_step(
                entries[entry],
                correlation_id,
                state,
                version,
            ) {
                Ok(e) => (CallbackStatus::Applied, entries.update(entry, e)),
                Err(_) => (CallbackStatus::Rejected, entries),
            },
            ComputationOutcome::Revealed(answer) => match reveal_step(
                entries[entry],
                correlation_id,
                answer,
            ) {
                Ok(e) => (CallbackStatus::Revealed(answer), entries.update(entry, e)),
                Err(_) => (CallbackStatus::Rejected, entries),
            },
            ComputationOutcome::Aborted => match abort_step(entries[entry], correlation_id) {
                Ok(e) => (CallbackStatus::Aborted, entries.update(entry, e)),
                Err(_) => (CallbackStatus::Rejected, entries),
            },
        }
    }
}

/// Delivers `outcome` for the request `correlation_id` of entry `entry`.
/// Only the entry's pending request is acted on, once; every other delivery
/// is rejected and changes nothing.
pub fn handle_callback(
    ledger: &mut Ledger,
    entry: usize,
    correlation_id: u64,
    outcome: ComputationOutcome,
) -> (r: CallbackStatus)
    requires
        old(ledger).wf(),
    ensures
        final(ledger).wf(),
        r == callback_result(old(ledger).entries(), entry as int, correlation_id, outcome).0,
        final(ledger).entries() == callback_result(
            old(ledger).entries(),
            entry as int,
            correlation_id,
            outcome,
        ).1,
        same_but_entries(*final(ledger), *old(ledger)),
{
    match outcome {
        ComputationOutcome::Success { state, version } => {
            match ledger.apply_aggregation_result(entry, correlation_id, state, version) {
                Ok(()) => CallbackStatus::Applied,
                Err(_) => CallbackStatus::Rejected,
            }
        },
        ComputationOutcome::Revealed(answer) => {
            match ledger.apply_reveal_result(entry, correlation_id, answer) {
                Ok(a) => CallbackStatus::Revealed(a),
                Err(_) => CallbackStatus::Rejected,
            }
        },
        ComputationOutcome::Aborted => {
            match ledger.abort_request(entry, correlation_id) {
                Ok(()) => CallbackStatus::Aborted,
                Err(_) => CallbackStatus::Rejected,
            }
        },
    }
}

/// Delivering the same result a second time is rejected and changes nothing,
/// whatever the first delivery did.
pub proof fn redelivery_is_rejected(
    entries: Seq<Entry>,
    entry: int,
    correlation_id: u64,
    outcome: ComputationOutcome,
)
    ensures
        callback_result(
            callback_result(entries, entry, correlation_id, outcome).1,
            entry,
            correlation_id,
            outcome,
        ) == (CallbackStatus::Rejected, callback_result(entries, entry, correlation_id, outcome).1),
{
}

/// A result for anything but the entry's pending request is rejected and
/// leaves every entry, its aggregate and version included, as it was.
pub proof fn stale_delivery_changes_nothing(
    entries: Seq<Entry>,
    entry: int,
    correlation_id: u64,
    outcome: ComputationOutcome,
)
    requires
        !(0 <= entry < entries.len() && pending_is(entries[entry], correlation_id)),
    ensures
        callback_result(entries, entry, correlation_id, outcome) == (
        CallbackStatus::Rejected,
        entries,
        ),
{
}

/// An abort of the pending request clears it, keeps the aggregate and its
/// version, leaves the abort visible on the entry, and lets the next request
/// on the entry through.
pub proof fn abort_clears_pending(
    entries: Seq<Entry>,
    entry: int,
    correlation_id: u64,
    next: u64,
    kind: RequestKind,
    issued_at: i64,
)
    requires
        0 <= entry < entries.len(),
        pending_is(entries[entry], correlation_id),
        next < u64::MAX,
    ensures
        ({
            let (status, after) = callback_result(
                entries,
                entry,
                correlation_id,
                ComputationOutcome::Aborted,
            );
            &&& status == CallbackStatus::Aborted
            &&& after.len() == entries.len()
            &&& after[entry].pending is None
            &&& after[entry].aggregate_state == entries[entry].aggregate_state
            &&& after[entry].aggregate_version == entries[entry].aggregate_version
            &&& after[entry].last_aborted == Some(correlation_id)
            &&& forall|j: int| 0 <= j < entries.len() && j != entry ==> after[j] == entries[j]
            &&& begin_error(after, next, entry) is None
            &&& begin_step(after[entry], next, kind, issued_at) is Ok
        }),
{
}

} // verus!
