//! The ledger: entries, transfer records and the replay record of transfer
//! nonces. Every mutation goes through it.
use vstd::prelude::*;
use crate::delegation::{DelegationOp, DelegationState};
use crate::entry::{
    AggregateState,
    Entry,
    PendingRequest,
    RequestKind,
    RevealAnswer,
    RevealQuery,
    abort_step,
    apply_step,
    begin_step,
    fresh_entry,
    pending_is,
    reveal_step,
};
use crate::error::{InsufficientFunds, LedgerError, StaleOrUnknownCallback};
use crate::fees::{FeeSplit, FeeSplitter, split_result, split_sums_to};
use crate::replay::UniqueGuard;
use crate::transfer::{
    Movement,
    TransferRecord,
    TransferRequest,
    execution_movements,
    record_after,
    record_for,
};

verus! {

/// The entries of all owners, the transfer records, the (sender, nonce) pairs
/// used so far, the fee configuration, and the source of correlation ids.
/// Entry ids and transfer ids are indices that never change.
pub struct Ledger {
    entries: Vec<Entry>,
    transfers: Vec<TransferRecord>,
    transfer_nonces: UniqueGuard,
    next_correlation_id: u64,
    splitter: FeeSplitter,
    rate_a: u16,
    rate_b: u16,
}

/// Whether some entry in `entries` belongs to `owner`.
pub open spec fn has_owner(entries: Seq<Entry>, owner: u64) -> bool {
    exists|i: int| 0 <= i < entries.len() && #[trigger] entries[i].owner == owner
}

/// Why issuing a request on entry `entry` is refused, if it is.
pub open spec fn begin_error(entries: Seq<Entry>, next: u64, entry: int) -> Option<LedgerError> {
    if !(0 <= entry < entries.len()) {
        Some(LedgerError::UnknownEntry)
    } else if entries[entry].pending is Some {
        Some(LedgerError::RequestAlreadyPending)
    } else if next == u64::MAX {
        Some(LedgerError::CorrelationIdsExhausted)
    } else {
        None
    }
}

/// Why starting the transfer `req` on entry `entry` is refused, if it is.
pub open spec fn initiate_error(l: Ledger, entry: int, req: TransferRequest) -> Option<LedgerError> {
    if !(0 <= entry < l.entries().len()) {
        Some(LedgerError::UnknownEntry)
    } else if !l.entries()[entry].active {
        Some(LedgerError::EntryInactive)
    } else if l.used_nonces().contains((req.sender, req.replay_nonce)) {
        Some(LedgerError::ReplayRejected)
    } else {
        match split_result(l.denominator(), req.gross_amount, l.fee_rate_a(), l.fee_rate_b()) {
            Err(e) => Some(LedgerError::Fee(e)),
            Ok(_) => None,
        }
    }
}

/// Why pausing or resuming entry `entry` on behalf of `caller` is refused,
/// if it is.
pub open spec fn set_active_error(entries: Seq<Entry>, caller: u64, entry: int, active: bool) -> Option<
    LedgerError,
> {
    if !(0 <= entry < entries.len()) {
        Some(LedgerError::UnknownEntry)
    } else if caller != entries[entry].owner {
        Some(LedgerError::InvalidAuthority)
    } else if entries[entry].active == active {
        Some(
            if active {
                LedgerError::AlreadyActive
            } else {
                LedgerError::AlreadyPaused
            },
        )
    } else {
        None
    }
}

/// Why `caller` may not issue a reveal request on entry `entry`, if it may not:
/// only the owner may, and only where a request could be issued at all.
pub open spec fn reveal_error(entries: Seq<Entry>, next: u64, caller: u64, entry: int) -> Option<
    LedgerError,
> {
    if 0 <= entry < entries.len() && caller != entries[entry].owner {
        Some(LedgerError::InvalidAuthority)
    } else {
        begin_error(entries, next, entry)
    }
}

/// Why executing transfer `id`, signed by `signer` with `nonce`, is refused
/// before any value moves, if it is.
pub open spec fn apply_error(l: Ledger, id: int, signer: u64, nonce: u64) -> Option<LedgerError> {
    if !(0 <= id < l.transfers().len()) {
        Some(LedgerError::UnknownTransfer)
    } else if l.transfers()[id].completed {
        Some(LedgerError::TransferAlreadyCompleted)
    } else if signer != l.transfers()[id].sender {
        Some(LedgerError::InvalidProxySigner)
    } else if nonce != l.transfers()[id].replay_nonce {
        Some(LedgerError::InvalidNonce)
    } else if !l.entries()[l.transfers()[id].entry as int].active {
        Some(LedgerError::EntryInactive)
    } else if l.entries()[l.transfers()[id].entry as int].running_total as int
        + l.transfers()[id].gross_amount as int > u64::MAX as int {
        Some(LedgerError::Overflow)
    } else {
        None
    }
}

/// The record of transfer `id` after the delegation transition `op`, or why
/// the transition is refused.
pub open spec fn delegation_outcome(l: Ledger, id: int, op: DelegationOp) -> Result<
    TransferRecord,
    LedgerError,
> {
    if !(0 <= id < l.transfers().len()) {
        Err(LedgerError::UnknownTransfer)
    } else {
        match record_after(l.transfers()[id], op) {
            Ok(t) => Ok(t),
            Err(e) => Err(LedgerError::Delegation(e)),
        }
    }
}

/// `a` and `b` differ at most in their entries.
pub open spec fn same_but_entries(a: Ledger, b: Ledger) -> bool {
    &&& a.transfers() == b.transfers()
    &&& a.used_nonces() == b.used_nonces()
    &&& a.next_id() == b.next_id()
    &&& a.denominator() == b.denominator()
    &&& a.fee_rate_a() == b.fee_rate_a()
    &&& a.fee_rate_b() == b.fee_rate_b()
}

/// `a` and `b` differ at most in their entries and the next correlation id.
pub open spec fn same_but_ids_and_entries(a: Ledger, b: Ledger) -> bool {
    &&& a.transfers() == b.transfers()
    &&& a.used_nonces() == b.used_nonces()
    &&& a.denominator() == b.denominator()
    &&& a.fee_rate_a() == b.fee_rate_a()
    &&& a.fee_rate_b() == b.fee_rate_b()
}

/// `a` and `b` differ at most in their transfer records.
pub open spec fn same_but_transfers(a: Ledger, b: Ledger) -> bool {
    &&& a.entries() == b.entries()
    &&& a.used_nonces() == b.used_nonces()
    &&& a.next_id() == b.next_id()
    &&& a.denominator() == b.denominator()
    &&& a.fee_rate_a() == b.fee_rate_a()
    &&& a.fee_rate_b() == b.fee_rate_b()
}

impl Ledger {
    /// The entries, indexed by entry id.
    pub closed spec fn entries(&self) -> Seq<Entry> {
        self.entries@
    }

    /// The transfer records, indexed by transfer id.
    pub closed spec fn transfers(&self) -> Seq<TransferRecord> {
        self.transfers@
    }

    /// The (sender, nonce) pairs of every transfer started so far.
    pub closed spec fn used_nonces(&self) -> Set<(u64, u64)> {
        self.transfer_nonces@
    }

    /// The correlation id the next request will get.
    pub closed spec fn next_id(&self) -> u64 {
        self.next_correlation_id
    }

    /// The denominator that the fee rates are measured against.
    pub closed spec fn denominator(&self) -> u64 {
        self.splitter.denominator
    }

    /// The rate of the first fee.
    pub closed spec fn fee_rate_a(&self) -> u16 {
        self.rate_a
    }

    /// The rate of the second fee.
    pub closed spec fn fee_rate_b(&self) -> u16 {
        self.rate_b
    }

    /// Owners are unique, every pending correlation id was handed out, every
    /// transfer record belongs to an entry, adds up and has its (sender,
    /// nonce) pair recorded as used, and the rates fit the denominator.
    pub closed spec fn wf(&self) -> bool {
        &&& forall|i: int, j: int|
            0 <= i < self.entries@.len() && 0 <= j < self.entries@.len() && i != j
                ==> self.entries@[i].owner != self.entries@[j].owner
        &&& forall|i: int|
            0 <= i < self.entries@.len() ==> (#[trigger] self.entries@[i].pending matches Some(p)
                ==> p.correlation_id < self.next_correlation_id)
        &&& forall|t: int|
            0 <= t < self.transfers@.len() ==> (#[trigger] self.transfers@[t]).entry
                < self.entries@.len() && split_sums_to(
                FeeSplit {
                    net: self.transfers@[t].net_amount,
                    fee_a: self.transfers@[t].fee_a,
                    fee_b: self.transfers@[t].fee_b,
                },
                self.transfers@[t].gross_amount,
            )
        &&& forall|t: int|
            0 <= t < self.transfers@.len() ==> self.transfer_nonces@.contains(
                ((#[trigger] self.transfers@[t]).sender, self.transfers@[t].replay_nonce),
            )
        &&& self.splitter.denominator > 0
        &&& self.rate_a as int + self.rate_b as int <= self.splitter.denominator as int
    }

    /// A ledger whose transfers are split by `splitter` under `rate_a` and
    /// `rate_b`. Refused with `InvalidRate` where the rates do not fit the
    /// splitter's denominator.
    pub fn new(splitter: FeeSplitter, rate_a: u16, rate_b: u16) -> (r: Result<Ledger, LedgerError>)
        ensures
            match r {
                Ok(l) => {
                    &&& splitter.denominator > 0
                    &&& rate_a as int + rate_b as int <= splitter.denominator as int
                    &&& l.wf()
                    &&& l.entries() == Seq::<Entry>::empty()
                    &&& l.transfers() == Seq::<TransferRecord>::empty()
                    &&& l.used_nonces() == Set::<(u64, u64)>::empty()
                    &&& l.next_id() == 0
                    &&& l.denominator() == splitter.denominator
                    &&& l.fee_rate_a() == rate_a
                    &&& l.fee_rate_b() == rate_b
                },
                Err(e) => e == LedgerError::Fee(crate::fees::FeeError::InvalidRate) && (
                splitter.denominator == 0 || rate_a as int + rate_b as int
                    > splitter.denominator as int),
            },
    {
        if splitter.denominator == 0 || rate_a as u64 + rate_b as u64 > splitter.denominator {
            return Err(LedgerError::Fee(crate::fees::FeeError::InvalidRate));
        }
        Ok(
            Ledger {
                entries: Vec::new(),
                transfers: Vec::new(),
                transfer_nonces: UniqueGuard::new(),
                next_correlation_id: 0,
                splitter,
                rate_a,
                rate_b,
            },
        )
    }

    /// Creates the entry of `owner` and returns its id; refused with
    /// `EntryExists` where `owner` has one.
    pub fn create_entry(&mut self, owner: u64) -> (r: Result<usize, LedgerError>)
        requires
            old(self).wf(),
        ensures
            final(self).wf(),
            match r {
                Ok(id) => {
                    &&& !has_owner(old(self).entries(), owner)
                    &&& id == old(self).entries().len()
                    &&& final(self).entries() == old(self).entries().push(fresh_entry(owner))
                    &&& same_but_entries(*final(self), *old(self))
                },
                Err(e) => e == LedgerError::EntryExists && has_owner(old(self).entries(), owner)
                    && *final(self) == *old(self),
            },
    {
        let mut i: usize = 0;
        while i < self.entries.len()
            invariant
                self.wf(),
                *self == *old(self),
                i <= self.entries@.len(),
                forall|j: int| 0 <= j < i ==> self.entries@[j].owner != owner,
            decreases self.entries@.len() - i,
        {
            if self.entries[i].owner == owner {
                return Err(LedgerError::EntryExists);
            }
            i = i + 1;
        }
        let id = self.entries.len();
        self.entries.push(
            Entry {
                owner,
                active: true,
                running_total: 0,
                aggregate_state: None,
                aggregate_version: 0,
                pending: None,
                last_aborted: None,
            },
        );
        assert(forall|t: int|
            0 <= t < self.transfers@.len() ==> (#[trigger] self.transfers@[t]).entry
                < self.entries@.len());
        assert(forall|i: int|
            0 <= i < id ==> #[trigger] self.entries@[i] == old(self).entries@[i]);
        Ok(id)
    }

    /// The entry with id `entry`, if there is one.
    pub fn entry(&self, entry: usize) -> (r: Option<Entry>)
        ensures
            r == (if entry < self.entries().len() {
                Some(self.entries()[entry as int])
            } else {
                None
            }),
    {
        if entry < self.entries.len() {
            Some(self.entries[entry])
        } else {
            None
        }
    }

    /// Pauses (`active == false`) or resumes the entry on behalf of
    /// `caller`, who must be its owner. Refused with `AlreadyPaused` or
    /// `AlreadyActive` where it is in that state already.
    pub fn set_active(&mut self, caller: u64, entry: usize, active: bool) -> (r: Result<
        (),
        LedgerError,
    >)
        requires
            old(self).wf(),
        ensures
            final(self).wf(),
            match set_active_error(old(self).entries(), caller, entry as int, active) {
                Some(e) => r == Err::<(), LedgerError>(e) && *final(self) == *old(self),
                None => {
                    &&& r is Ok
                    &&& final(self).entries() == old(self).entries().update(
                        entry as int,
                        Entry { active, ..old(self).entries()[entry as int] },
                    )
                    &&& same_but_entries(*final(self), *old(self))
                },
            },
    {
        if entry >= self.entries.len() {
            return Err(LedgerError::UnknownEntry);
        }
        let mut e = self.entries[entry];
        if caller != e.owner {
            return Err(LedgerError::InvalidAuthority);
        }
        if e.active == active {
            return Err(
                if active {
                    LedgerError::AlreadyActive
                } else {
                    LedgerError::AlreadyPaused
                },
            );
        }
        e.active = active;
        self.entries.set(entry, e);
        proof {
            self.lemma_entries_update_keeps_wf(*old(self), entry as int);
        }
        Ok(())
    }

    /// Starts the transfer `req` on entry `entry`: checks that the entry is
    /// active and that the sender has not used the nonce before, splits the
    /// gross amount, records the nonce and stores a record that is not yet
    /// completed. Returns the record's id.
    pub fn initiate_transfer(&mut self, entry: usize, req: TransferRequest) -> (r: Result<
        usize,
        LedgerError,
    >)
        requires
            old(self).wf(),
        ensures
            final(self).wf(),
            match initiate_error(*old(self), entry as int, req) {
                Some(e) => r == Err::<usize, LedgerError>(e) && *final(self) == *old(self),
                None => {
                    &&& r matches Ok(id) && id as int == old(self).transfers().len()
                    &&& final(self).transfers() == old(self).transfers().push(
                        record_for(
                            entry,
                            req,
                            split_result(
                                old(self).denominator(),
                                req.gross_amount,
                                old(self).fee_rate_a(),
                                old(self).fee_rate_b(),
                            )->Ok_0,
                        ),
                    )
                    &&& final(self).used_nonces() == old(self).used_nonces().insert(
                        (req.sender, req.replay_nonce),
                    )
                    &&& final(self).entries() == old(self).entries()
                    &&& final(self).next_id() == old(self).next_id()
                    &&& final(self).denominator() == old(self).denominator()
                    &&& final(self).fee_rate_a() == old(self).fee_rate_a()
                    &&& final(self).fee_rate_b() == old(self).fee_rate_b()
                },
            },
    {
        if entry >= self.entries.len() {
            return Err(LedgerError::UnknownEntry);
        }
        if !self.entries[entry].active {
            return Err(LedgerError::EntryInactive);
        }
        if self.transfer_nonces.contains(req.sender, req.replay_nonce) {
            return Err(LedgerError::ReplayRejected);
        }
        let split = match self.splitter.split(req.gross_amount, self.rate_a, self.rate_b) {
            Ok(s) => s,
            Err(e) => return Err(LedgerError::Fee(e)),
        };
        let recorded = self.transfer_nonces.check_and_record(req.sender, req.replay_nonce);
        assert(recorded is Ok);
        let id = self.transfers.len();
        self.transfers.push(TransferRecord::new(entry, req, split));
        assert forall|t: int| 0 <= t < self.transfers@.len() implies (
        #[trigger] self.transfers@[t]).entry < self.entries@.len() && split_sums_to(
            FeeSplit {
                net: self.transfers@[t].net_amount,
                fee_a: self.transfers@[t].fee_a,
                fee_b: self.transfers@[t].fee_b,
            },
            self.transfers@[t].gross_amount,
        ) by {
            if t < id {
                assert(self.transfers@[t] == old(self).transfers@[t]);
            }
        }
        Ok(id)
    }

    /// Why executing transfer `id`, signed by `signer` with `nonce`, is
    /// refused, if it is.
    fn execution_error(&self, id: usize, signer: u64, nonce: u64) -> (r: Option<LedgerError>)
        requires
            self.wf(),
        ensures
            r == apply_error(*self, id as int, signer, nonce),
    {
        if id >= self.transfers.len() {
            return Some(LedgerError::UnknownTransfer);
        }
        let t = self.transfers[id];
        if t.completed {
            return Some(LedgerError::TransferAlreadyCompleted);
        }
        if signer != t.sender {
            return Some(LedgerError::InvalidProxySigner);
        }
        if nonce != t.replay_nonce {
            return Some(LedgerError::InvalidNonce);
        }
        assert(t.entry < self.entries@.len());
        let e = self.entries[t.entry];
        if !e.active {
            return Some(LedgerError::EntryInactive);
        }
        if e.running_total.checked_add(t.gross_amount).is_none() {
            return Some(LedgerError::Overflow);
        }
        None
    }

    /// Runs every check of executing transfer `id`, signed by `signer` with
    /// `nonce`, before any value moves. Where one fails it returns that error;
    /// otherwise it returns the movements that execute the transfer, the
    /// first fee going to `fee_a_collector`. Nothing changes either way.
    pub fn plan_execution(&self, id: usize, signer: u64, nonce: u64, fee_a_collector: u64) -> (r:
        Result<Vec<Movement>, LedgerError>)
        requires
            self.wf(),
        ensures
            match apply_error(*self, id as int, signer, nonce) {
                Some(e) => r == Err::<Vec<Movement>, LedgerError>(e),
                None => r is Ok && r->Ok_0@ == execution_movements(
                    self.transfers()[id as int],
                    fee_a_collector,
                ),
            },
    {
        match self.execution_error(id, signer, nonce) {
            Some(e) => Err(e),
            None => Ok(self.transfers[id].movements(fee_a_collector)),
        }
    }

    /// Executes transfer `id`, signed by `signer` with `nonce`, once the
    /// transfer-execution collaborator has performed the movements that
    /// `plan_execution` returned and reported on them (`moved`). The checks of
    /// that plan are made again and refuse without a change; a failed movement
    /// refuses with `InsufficientFunds` and changes nothing; otherwise the
    /// entry's running total grows by the gross amount and the record becomes
    /// completed, together.
    pub fn apply_transfer(
        &mut self,
        id: usize,
        signer: u64,
        nonce: u64,
        moved: Result<(), InsufficientFunds>,
    ) -> (r: Result<(), LedgerError>)
        requires
            old(self).wf(),
        ensures
            final(self).wf(),
            match apply_error(*old(self), id as int, signer, nonce) {
                Some(e) => r == Err::<(), LedgerError>(e) && *final(self) == *old(self),
                None => match moved {
                    Err(_) => r == Err::<(), LedgerError>(LedgerError::InsufficientFunds)
                        && *final(self) == *old(self),
                    Ok(_) => {
                        let t = old(self).transfers()[id as int];
                        let e = old(self).entries()[t.entry as int];
                        &&& r is Ok
                        &&& final(self).transfers() == old(self).transfers().update(
                            id as int,
                            TransferRecord { completed: true, ..t },
                        )
                        &&& final(self).entries() == old(self).entries().update(
                            t.entry as int,
                            Entry { running_total: (e.running_total + t.gross_amount) as u64, ..e },
                        )
                        &&& final(self).used_nonces() == old(self).used_nonces()
                        &&& final(self).next_id() == old(self).next_id()
                        &&& final(self).denominator() == old(self).denominator()
                        &&& final(self).fee_rate_a() == old(self).fee_rate_a()
                        &&& final(self).fee_rate_b() == old(self).fee_rate_b()
                    },
                },
            },
    {
        if let Some(err) = self.execution_error(id, signer, nonce) {
            return Err(err);
        }
        let mut t = self.transfers[id];
        assert(t.entry < self.entries@.len());
        let mut e = self.entries[t.entry];
        let total = e.running_total + t.gross_amount;
        if moved.is_err() {
            return Err(LedgerError::InsufficientFunds);
        }
        e.running_total = total;
        t.completed = true;
        self.entries.set(t.entry, e);
        self.transfers.set(id, t);
        proof {
            assert forall|j: int| 0 <= j < self.entries@.len() implies (
            #[trigger] self.entries@[j].pending matches Some(p) ==> p.correlation_id
                < self.next_correlation_id) by {
                if j != t.entry {
                    assert(self.entries@[j] == old(self).entries@[j]);
                }
            }
            assert forall|k: int| 0 <= k < self.transfers@.len() implies (
            #[trigger] self.transfers@[k]).entry < self.entries@.len() && split_sums_to(
                FeeSplit {
                    net: self.transfers@[k].net_amount,
                    fee_a: self.transfers@[k].fee_a,
                    fee_b: self.transfers@[k].fee_b,
                },
                self.transfers@[k].gross_amount,
            ) by {
                assert(old(self).transfers@[k].entry < old(self).entries@.len());
                if k != id {
                    assert(self.transfers@[k] == old(self).transfers@[k]);
                }
            }
        }
        Ok(())
    }

    /// The transfer record with id `id`, if there is one.
    pub fn transfer(&self, id: usize) -> (r: Option<TransferRecord>)
        ensures
            r == (if id < self.transfers().len() {
                Some(self.transfers()[id as int])
            } else {
                None
            }),
    {
        if id < self.transfers.len() {
            Some(self.transfers[id])
        } else {
            None
        }
    }

    /// The id of the transfer that `sender` started with `nonce`, if any.
    pub fn find_transfer(&self, sender: u64, nonce: u64) -> (r: Option<usize>)
        ensures
            match r {
                Some(id) => id < self.transfers().len() && self.transfers()[id as int].sender
                    == sender && self.transfers()[id as int].replay_nonce == nonce,
                None => forall|k: int|
                    0 <= k < self.transfers().len() ==> !(#[trigger] self.transfers()[k].sender
                        == sender && self.transfers()[k].replay_nonce == nonce),
            },
    {
        let mut i: usize = 0;
        while i < self.transfers.len()
            invariant
                i <= self.transfers@.len(),
                forall|k: int|
                    0 <= k < i ==> !(#[trigger] self.transfers@[k].sender == sender
                        && self.transfers@[k].replay_nonce == nonce),
            decreases self.transfers@.len() - i,
        {
            if self.transfers[i].sender == sender && self.transfers[i].replay_nonce == nonce {
                return Some(i);
            }
            i = i + 1;
        }
        None
    }

    /// The delegation state of transfer `id`, if there is such a transfer.
    pub fn delegation_state(&self, id: usize) -> (r: Option<DelegationState>)
        ensures
            r == (if id < self.transfers().len() {
                Some(self.transfers()[id as int].delegation_state)
            } else {
                None
            }),
    {
        if id < self.transfers.len() {
            Some(self.transfers[id].delegation_state)
        } else {
            None
        }
    }

    /// Performs the delegation transition `op` on transfer `id`; a refused
    /// transition changes nothing.
    pub fn apply_delegation(&mut self, id: usize, op: DelegationOp) -> (r: Result<(), LedgerError>)
        requires
            old(self).wf(),
        ensures
            final(self).wf(),
            match delegation_outcome(*old(self), id as int, op) {
                Ok(t) => r is Ok && final(self).transfers() == old(self).transfers().update(
                    id as int,
                    t,
                ) && same_but_transfers(*final(self), *old(self)),
                Err(e) => r == Err::<(), LedgerError>(e) && *final(self) == *old(self),
            },
    {
        if id >= self.transfers.len() {
            return Err(LedgerError::UnknownTransfer);
        }
        let mut t = self.transfers[id];
        match t.transition(op) {
            Ok(()) => {
                self.transfers.set(id, t);
                assert forall|k: int| 0 <= k < self.transfers@.len() implies (
                #[trigger] self.transfers@[k]).entry < self.entries@.len() && split_sums_to(
                    FeeSplit {
                        net: self.transfers@[k].net_amount,
                        fee_a: self.transfers@[k].fee_a,
                        fee_b: self.transfers@[k].fee_b,
                    },
                    self.transfers@[k].gross_amount,
                ) by {
                    assert(old(self).transfers@[k].entry < old(self).entries@.len());
                }
                Ok(())
            },
            Err(e) => Err(LedgerError::Delegation(e)),
        }
    }

    /// Issues a computation request of `kind` on entry `entry` and returns its
    /// fresh correlation id. Refused while the entry has a request in flight,
    /// so that at most one is pending per entry.
    pub fn begin_request(&mut self, entry: usize, kind: RequestKind, issued_at: i64) -> (r: Result<
        u64,
        LedgerError,
    >)
        requires
            old(self).wf(),
        ensures
            final(self).wf(),
            match begin_error(old(self).entries(), old(self).next_id(), entry as int) {
                Some(e) => r == Err::<u64, LedgerError>(e) && *final(self) == *old(self),
                None => {
                    &&& r == Ok::<u64, LedgerError>(old(self).next_id())
                    &&& final(self).entries() == old(self).entries().update(
                        entry as int,
                        begin_step(
                            old(self).entries()[entry as int],
                            old(self).next_id(),
                            kind,
                            issued_at,
                        )->Ok_0,
                    )
                    &&& final(self).next_id() == old(self).next_id() + 1
                    &&& final(self).transfers() == old(self).transfers()
                    &&& final(self).used_nonces() == old(self).used_nonces()
                    &&& final(self).denominator() == old(self).denominator()
                    &&& final(self).fee_rate_a() == old(self).fee_rate_a()
                    &&& final(self).fee_rate_b() == old(self).fee_rate_b()
                },
            },
    {
        if entry >= self.entries.len() {
            return Err(LedgerError::UnknownEntry);
        }
        let mut e = self.entries[entry];
        if e.pending.is_some() {
            return Err(LedgerError::RequestAlreadyPending);
        }
        if self.next_correlation_id == u64::MAX {
            return Err(LedgerError::CorrelationIdsExhausted);
        }
        let id = self.next_correlation_id;
        e.pending = Some(PendingRequest { correlation_id: id, kind, issued_at });
        self.entries.set(entry, e);
        self.next_correlation_id = id + 1;
        proof {
            self.lemma_entries_update_keeps_wf(*old(self), entry as int);
        }
        Ok(id)
    }

    /// Issues an aggregation update request on entry `entry`.
    pub fn begin_aggregation_request(&mut self, entry: usize, issued_at: i64) -> (r: Result<
        u64,
        LedgerError,
    >)
        requires
            old(self).wf(),
        ensures
            final(self).wf(),
            match begin_error(old(self).entries(), old(self).next_id(), entry as int) {
                Some(e) => r == Err::<u64, LedgerError>(e) && *final(self) == *old(self),
                None => {
                    &&& r == Ok::<u64, LedgerError>(old(self).next_id())
                    &&& final(self).entries() == old(self).entries().update(
                        entry as int,
                        begin_step(
                            old(self).entries()[entry as int],
                            old(self).next_id(),
                            RequestKind::Aggregation,
                            issued_at,
                        )->Ok_0,
                    )
                    &&& final(self).next_id() == old(self).next_id() + 1
                    &&& same_but_ids_and_entries(*final(self), *old(self))
                },
            },
    {
        self.begin_request(entry, RequestKind::Aggregation, issued_at)
    }

    /// Issues, on behalf of `caller`, a request that reveals `query` about
    /// the aggregate of `entry`. Only the entry's owner may.
    pub fn begin_reveal_request(
        &mut self,
        caller: u64,
        entry: usize,
        query: RevealQuery,
        issued_at: i64,
    ) -> (r: Result<u64, LedgerError>)
        requires
            old(self).wf(),
        ensures
            final(self).wf(),
            match reveal_error(old(self).entries(), old(self).next_id(), caller, entry as int) {
                Some(e) => r == Err::<u64, LedgerError>(e) && *final(self) == *old(self),
                None => {
                    &&& r == Ok::<u64, LedgerError>(old(self).next_id())
                    &&& final(self).entries() == old(self).entries().update(
                        entry as int,
                        begin_step(
                            old(self).entries()[entry as int],
                            old(self).next_id(),
                            RequestKind::Reveal(query),
                            issued_at,
                        )->Ok_0,
                    )
                    &&& final(self).next_id() == old(self).next_id() + 1
                    &&& same_but_ids_and_entries(*final(self), *old(self))
                },
            },
    {
        if entry < self.entries.len() && caller != self.entries[entry].owner {
            return Err(LedgerError::InvalidAuthority);
        }
        self.begin_request(entry, RequestKind::Reveal(query), issued_at)
    }

    /// Applies a delivered aggregate to entry `entry`: only for its pending
    /// aggregation request `correlation_id` and a version above the current
    /// one. Anything else, a redelivery included, is refused and changes
    /// nothing.
    pub fn apply_aggregation_result(
        &mut self,
        entry: usize,
        correlation_id: u64,
        state: AggregateState,
        version: u64,
    ) -> (r: Result<(), StaleOrUnknownCallback>)
        requires
            old(self).wf(),
        ensures
            final(self).wf(),
            entry < old(self).entries().len() && apply_step(
                old(self).entries()[entry as int],
                correlation_id,
                state,
                version,
            ) is Ok ==> r is Ok && final(self).entries() == old(self).entries().update(
                entry as int,
                apply_step(old(self).entries()[entry as int], correlation_id, state, version)->Ok_0,
            ) && same_but_entries(*final(self), *old(self)),
            !(entry < old(self).entries().len() && apply_step(
                old(self).entries()[entry as int],
                correlation_id,
                state,
                version,
            ) is Ok) ==> r == Err::<(), StaleOrUnknownCallback>(
                StaleOrUnknownCallback { correlation_id },
            ) && *final(self) == *old(self),
    {
        if entry >= self.entries.len() {
            return Err(StaleOrUnknownCallback { correlation_id });
        }
        let mut e = self.entries[entry];
        let fits = match e.pending {
            Some(p) => p.correlation_id == correlation_id && matches!(p.kind, RequestKind::Aggregation),
            None => false,
        };
        if !fits || version <= e.aggregate_version {
            return Err(StaleOrUnknownCallback { correlation_id });
        }
        e.aggregate_state = Some(state);
        e.aggregate_version = version;
        e.pending = None;
        self.entries.set(entry, e);
        proof {
            self.lemma_entries_update_keeps_wf(*old(self), entry as int);
        }
        Ok(())
    }

    /// Withdraws the pending request `correlation_id` of entry `entry` after
    /// the compute service aborted it, and records it as the entry's latest
    /// aborted request; the aggregate and its version stay as they were. Any
    /// other id is refused and changes nothing.
    pub fn abort_request(&mut self, entry: usize, correlation_id: u64) -> (r: Result<
        (),
        StaleOrUnknownCallback,
    >)
        requires
            old(self).wf(),
        ensures
            final(self).wf(),
            entry < old(self).entries().len() && pending_is(
                old(self).entries()[entry as int],
                correlation_id,
            ) ==> r is Ok && final(self).entries() == old(self).entries().update(
                entry as int,
                abort_step(old(self).entries()[entry as int], correlation_id)->Ok_0,
            ) && same_but_entries(*final(self), *old(self)),
            !(entry < old(self).entries().len() && pending_is(
                old(self).entries()[entry as int],
                correlation_id,
            )) ==> r == Err::<(), StaleOrUnknownCallback>(
                StaleOrUnknownCallback { correlation_id },
            ) && *final(self) == *old(self),
    {
        if entry >= self.entries.len() {
            return Err(StaleOrUnknownCallback { correlation_id });
        }
        let mut e = self.entries[entry];
        let fits = match e.pending {
            Some(p) => p.correlation_id == correlation_id,
            None => false,
        };
        if !fits {
            return Err(StaleOrUnknownCallback { correlation_id });
        }
        e.pending = None;
        e.last_aborted = Some(correlation_id);
        self.entries.set(entry, e);
        proof {
            self.lemma_entries_update_keeps_wf(*old(self), entry as int);
        }
        Ok(())
    }

    /// Takes the delivered answer of the pending reveal request
    /// `correlation_id` of entry `entry`, clears the request and hands the
    /// answer back; the aggregate and its version stay as they were. An
    /// answer for another request, or of the wrong kind, is refused and
    /// changes nothing.
    pub fn apply_reveal_result(&mut self, entry: usize, correlation_id: u64, answer: RevealAnswer) -> (r:
        Result<RevealAnswer, StaleOrUnknownCallback>)
        requires
            old(self).wf(),
        ensures
            final(self).wf(),
            entry < old(self).entries().len() && reveal_step(
                old(self).entries()[entry as int],
                correlation_id,
                answer,
            ) is Ok ==> r == Ok::<RevealAnswer, StaleOrUnknownCallback>(answer)
                && final(self).entries() == old(self).entries().update(
                entry as int,
                reveal_step(old(self).entries()[entry as int], correlation_id, answer)->Ok_0,
            ) && same_but_entries(*final(self), *old(self)),
            !(entry < old(self).entries().len() && reveal_step(
                old(self).entries()[entry as int],
                correlation_id,
                answer,
            ) is Ok) ==> r == Err::<RevealAnswer, StaleOrUnknownCallback>(
                StaleOrUnknownCallback { correlation_id },
            ) && *final(self) == *old(self),
    {
        if entry >= self.entries.len() {
            return Err(StaleOrUnknownCallback { correlation_id });
        }
        let mut e = self.entries[entry];
        let fits = match e.pending {
            Some(p) => p.correlation_id == correlation_id && match (p.kind, answer) {
                (
                    RequestKind::Reveal(RevealQuery::VolumeThreshold { .. }),
                    RevealAnswer::MeetsThreshold(_),
                ) => true,
                (RequestKind::Reveal(RevealQuery::PaymentCount), RevealAnswer::PaymentCount(_)) => true,
                _ => false,
            },
            None => false,
        };
        if !fits {
            return Err(StaleOrUnknownCallback { correlation_id });
        }
        e.pending = None;
        self.entries.set(entry, e);
        proof {
            self.lemma_entries_update_keeps_wf(*old(self), entry as int);
        }
        Ok(answer)
    }

    /// Every transfer record of a well-formed ledger belongs to an existing
    /// entry, adds up to its gross amount, and has its (sender, nonce) pair
    /// recorded as used, so that no new transfer can reuse it.
    pub proof fn lemma_transfer_record(&self, id: int)
        requires
            self.wf(),
            0 <= id < self.transfers().len(),
        ensures
            self.transfers()[id].entry < self.entries().len(),
            self.used_nonces().contains(
                (self.transfers()[id].sender, self.transfers()[id].replay_nonce),
            ),
            split_sums_to(
                FeeSplit {
                    net: self.transfers()[id].net_amount,
                    fee_a: self.transfers()[id].fee_a,
                    fee_b: self.transfers()[id].fee_b,
                },
                self.transfers()[id].gross_amount,
            ),
    {
        assert(self.transfers@[id] == self.transfers()[id]);
    }

    /// Replacing one entry by another with the same owner, and a pending
    /// request (if any) that was handed out, keeps the ledger well formed.
    proof fn lemma_entries_update_keeps_wf(&self, before: Ledger, i: int)
        requires
            before.wf(),
            0 <= i < before.entries@.len(),
            self.entries@ == before.entries@.update(i, self.entries@[i]),
            self.entries@[i].owner == before.entries@[i].owner,
            self.entries@[i].pending matches Some(p) ==> p.correlation_id
                < self.next_correlation_id,
            self.next_correlation_id >= before.next_correlation_id,
            self.transfers@ == before.transfers@,
            self.transfer_nonces@ == before.transfer_nonces@,
            self.splitter == before.splitter,
            self.rate_a == before.rate_a,
            self.rate_b == before.rate_b,
        ensures
            self.wf(),
    {
        assert forall|j: int| 0 <= j < self.entries@.len() implies (
        #[trigger] self.entries@[j].pending matches Some(p) ==> p.correlation_id
            < self.next_correlation_id) by {
            if j != i {
                assert(self.entries@[j] == before.entries@[j]);
            }
        }
        assert forall|t: int| 0 <= t < self.transfers@.len() implies (
        #[trigger] self.transfers@[t]).entry < self.entries@.len() by {
            assert(before.transfers@[t] == self.transfers@[t]);
        }
    }
}


/// Once a request is issued on an entry, issuing another on it is refused
/// with `RequestAlreadyPending` until a callback clears the first.
pub proof fn second_request_on_entry_is_refused(
    before: Seq<Entry>,
    next: u64,
    entry: int,
    kind: RequestKind,
    issued_at: i64,
)
    requires
        begin_error(before, next, entry) is None,
    ensures
        begin_error(
            before.update(entry, begin_step(before[entry], next, kind, issued_at)->Ok_0),
            (next + 1) as u64,
            entry,
        ) == Some(LedgerError::RequestAlreadyPending),
{
}

/// Once a transfer is started with a sender's nonce, starting another with
/// the same sender and nonce on the same entry is refused with
/// `ReplayRejected`: of two attempts with one nonce, at most one succeeds.
pub proof fn replayed_transfer_is_refused(
    before: Ledger,
    after: Ledger,
    entry: int,
    req: TransferRequest,
    again: TransferRequest,
)
    requires
        initiate_error(before, entry, req) is None,
        after.entries() == before.entries(),
        after.used_nonces() == before.used_nonces().insert((req.sender, req.replay_nonce)),
        again.sender == req.sender,
        again.replay_nonce == req.replay_nonce,
    ensures
        initiate_error(after, entry, again) == Some(LedgerError::ReplayRejected),
{
}

/// A (sender, nonce) pair that an existing transfer record carries cannot
/// start another transfer on an active entry: it is refused with
/// `ReplayRejected`.
pub proof fn existing_record_blocks_its_nonce(l: Ledger, id: int, entry: int, req: TransferRequest)
    requires
        l.wf(),
        0 <= id < l.transfers().len(),
        0 <= entry < l.entries().len(),
        l.entries()[entry].active,
        req.sender == l.transfers()[id].sender,
        req.replay_nonce == l.transfers()[id].replay_nonce,
    ensures
        initiate_error(l, entry, req) == Some(LedgerError::ReplayRejected),
{
    l.lemma_transfer_record(id);
}

} // verus!
