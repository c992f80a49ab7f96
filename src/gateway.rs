//! Outbound computation requests: a request leaves only once its entry is
//! marked pending.
use vstd::prelude::*;
use crate::entry::{AggregateState, RequestKind, RevealQuery, begin_step};
use crate::error::LedgerError;
use crate::ledger::{Ledger, begin_error, reveal_error, same_but_ids_and_entries};

verus! {

/// An encrypted amount to fold into the aggregate, with what the compute
/// service needs to decrypt it.
#[derive(Debug, Clone, Copy, PartialEq, Eq)]
pub struct EncryptedDelta {
    pub public_key: [u8; 32],
    pub nonce: u128,
    pub ciphertext: [u8; 32],
}

/// What the compute service is asked to do.
#[derive(Debug, Clone, Copy, PartialEq, Eq)]
pub enum RequestPayload {
    /// Fold the delta into the aggregate and deliver the new aggregate.
    Aggregation(EncryptedDelta),
    /// Reveal a fact about the aggregate.
    Reveal(RevealQuery),
}

/// A request for the compute service: everything it needs, tagged with the
/// correlation id that its callback must carry.
#[derive(Debug, Clone, Copy, PartialEq, Eq)]
pub struct ComputationRequest {
    pub correlation_id: u64,
    pub entry: usize,
    pub current_state: Option<AggregateState>,
    pub current_version: u64,
    pub payload: RequestPayload,
}

/// The request that goes out for `payload` on entry `entry` of `l`, under
/// the correlation id `l` hands out next.
pub open spec fn request_for(l: Ledger, entry: usize, payload: RequestPayload) -> ComputationRequest {
    ComputationRequest {
        correlation_id: l.next_id(),
        entry,
        current_state: l.entries()[entry as int].aggregate_state,
        current_version: l.entries()[entry as int].aggregate_version,
        payload,
    }
}

/// Issues an aggregation update of entry `entry` by `delta`: marks the entry
/// pending and returns the request to send. Where the ledger refuses to mark
/// it, no request is returned, so none can be sent.
pub fn issue_aggregation(ledger: &mut Ledger, entry: usize, delta: EncryptedDelta, issued_at: i64) -> (r:
    Result<ComputationRequest, LedgerError>)
    requires
        old(ledger).wf(),
    ensures
        final(ledger).wf(),
        match begin_error(old(ledger).entries(), old(ledger).next_id(), entry as int) {
            Some(e) => r == Err::<ComputationRequest, LedgerError>(e) && *final(ledger) == *old(
                ledger,
            ),
            None => {
                &&& r == Ok::<ComputationRequest, LedgerError>(
                    request_for(*old(ledger), entry, RequestPayload::Aggregation(delta)),
                )
                &&& final(ledger).entries() == old(ledger).entries().update(
                    entry as int,
                    begin_step(
                        old(ledger).entries()[entry as int],
                        old(ledger).next_id(),
                        RequestKind::Aggregation,
                        issued_at,
                    )->Ok_0,
                )
                &&& final(ledger).next_id() == old(ledger).next_id() + 1
                &&& same_but_ids_and_entries(*final(ledger), *old(ledger))
            },
        },
{
    let current = ledger.entry(entry);
    match ledger.begin_aggregation_request(entry, issued_at) {
        Ok(id) => {
            let e = current.unwrap();
            Ok(
                ComputationRequest {
                    correlation_id: id,
                    entry,
                    current_state: e.aggregate_state,
                    current_version: e.aggregate_version,
                    payload: RequestPayload::Aggregation(delta),
                },
            )
        },
        Err(e) => Err(e),
    }
}

/// Issues, on behalf of `caller`, a request that reveals `query` about the
/// aggregate of entry `entry`, in the same way. Only the entry's owner may.
pub fn issue_reveal(
    ledger: &mut Ledger,
    caller: u64,
    entry: usize,
    query: RevealQuery,
    issued_at: i64,
) -> (r: Result<ComputationRequest, LedgerError>)
    requires
        old(ledger).wf(),
    ensures
        final(ledger).wf(),
        match reveal_error(old(ledger).entries(), old(ledger).next_id(), caller, entry as int) {
            Some(e) => r == Err::<ComputationRequest, LedgerError>(e) && *final(ledger) == *old(
                ledger,
            ),
            None => {
                &&& r == Ok::<ComputationRequest, LedgerError>(
                    request_for(*old(ledger), entry, RequestPayload::Reveal(query)),
                )
                &&& final(ledger).entries() == old(ledger).entries().update(
                    entry as int,
                    begin_step(
                        old(ledger).entries()[entry as int],
                        old(ledger).next_id(),
                        RequestKind::Reveal(query),
                        issued_at,
                    )->Ok_0,
                )
                &&& final(ledger).next_id() == old(ledger).next_id() + 1
                &&& same_but_ids_and_entries(*final(ledger), *old(ledger))
            },
        },
{
    let current = ledger.entry(entry);
    match ledger.begin_reveal_request(caller, entry, query, issued_at) {
        Ok(id) => {
            let e = current.unwrap();
            Ok(
                ComputationRequest {
                    correlation_id: id,
                    entry,
                    current_state: e.aggregate_state,
                    current_version: e.aggregate_version,
                    payload: RequestPayload::Reveal(query),
                },
            )
        },
        Err(e) => Err(e),
    }
}

} // verus!
