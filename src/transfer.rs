//! Transfer records: one per transfer attempt.
use vstd::prelude::*;
use crate::delegation::{
    DelegationError,
    DelegationOp,
    DelegationState,
    delegation_next,
    next_delegation_state,
};
use crate::fees::FeeSplit;

verus! {

/// What a caller asks for when it starts a transfer.
#[derive(Debug, Clone, Copy, PartialEq, Eq, Structural)]
pub struct TransferRequest {
    pub sender: u64,
    pub recipient: u64,
    pub referral: u64,
    pub gross_amount: u64,
    /// Unique per sender.
    pub replay_nonce: u64,
    pub created_at: i64,
}

/// One transfer attempt against a ledger entry. The amounts are fixed when
/// the record is created.
#[derive(Debug, Clone, Copy, PartialEq, Eq, Structural)]
pub struct TransferRecord {
    pub entry: usize,
    pub sender: u64,
    pub recipient: u64,
    pub referral: u64,
    pub gross_amount: u64,
    pub net_amount: u64,
    pub fee_a: u64,
    pub fee_b: u64,
    pub replay_nonce: u64,
    pub completed: bool,
    pub delegation_state: DelegationState,
    pub created_at: i64,
}

/// One direct movement of value, for the transfer-execution collaborator.
#[derive(Debug, Clone, Copy, PartialEq, Eq, Structural)]
pub struct Movement {
    pub from: u64,
    pub to: u64,
    pub amount: u64,
}

/// The record that a request against `entry` becomes under `split`: not yet
/// completed, and not delegated.
pub open spec fn record_for(entry: usize, req: TransferRequest, split: FeeSplit) -> TransferRecord {
    TransferRecord {
        entry,
        sender: req.sender,
        recipient: req.recipient,
        referral: req.referral,
        gross_amount: req.gross_amount,
        net_amount: split.net,
        fee_a: split.fee_a,
        fee_b: split.fee_b,
        replay_nonce: req.replay_nonce,
        completed: false,
        delegation_state: DelegationState::NotDelegated,
        created_at: req.created_at,
    }
}

/// The three movements that execute `t`: the net amount to the recipient,
/// the first fee to `fee_a_collector`, the second to the referral.
pub open spec fn execution_movements(t: TransferRecord, fee_a_collector: u64) -> Seq<Movement> {
    seq![
        Movement { from: t.sender, to: t.recipient, amount: t.net_amount },
        Movement { from: t.sender, to: fee_a_collector, amount: t.fee_a },
        Movement { from: t.sender, to: t.referral, amount: t.fee_b },
    ]
}

/// The record after a delegation transition, or why it is refused.
pub open spec fn record_after(t: TransferRecord, op: DelegationOp) -> Result<
    TransferRecord,
    DelegationError,
> {
    match delegation_next(t.delegation_state, t.completed, op) {
        Ok(s) => Ok(TransferRecord { delegation_state: s, ..t }),
        Err(e) => Err(e),
    }
}

impl TransferRecord {
    /// Builds the record of `req` against `entry` with the amounts of `split`.
    pub fn new(entry: usize, req: TransferRequest, split: FeeSplit) -> (r: TransferRecord)
        ensures
            r == record_for(entry, req, split),
    {
        TransferRecord {
            entry,
            sender: req.sender,
            recipient: req.recipient,
            referral: req.referral,
            gross_amount: req.gross_amount,
            net_amount: split.net,
            fee_a: split.fee_a,
            fee_b: split.fee_b,
            replay_nonce: req.replay_nonce,
            completed: false,
            delegation_state: DelegationState::NotDelegated,
            created_at: req.created_at,
        }
    }

    /// The three movements that execute the transfer: the net amount to the
    /// recipient, the first fee to `fee_a_collector`, the second to the
    /// referral.
    pub fn movements(&self, fee_a_collector: u64) -> (r: Vec<Movement>)
        ensures
            r@ == execution_movements(*self, fee_a_collector),
    {
        let mut r: Vec<Movement> = Vec::new();
        r.push(Movement { from: self.sender, to: self.recipient, amount: self.net_amount });
        r.push(Movement { from: self.sender, to: fee_a_collector, amount: self.fee_a });
        r.push(Movement { from: self.sender, to: self.referral, amount: self.fee_b });
        assert(r@ =~= execution_movements(*self, fee_a_collector));
        r
    }

    /// Performs the delegation transition `op` if the current state allows it;
    /// otherwise leaves the record as it is.
    pub fn transition(&mut self, op: DelegationOp) -> (r: Result<(), DelegationError>)
        ensures
            match record_after(*old(self), op) {
                Ok(t) => r is Ok && *final(self) == t,
                Err(e) => r == Err::<(), DelegationError>(e) && *final(self) == *old(self),
            },
    {
        match next_delegation_state(self.delegation_state, self.completed, op) {
            Ok(s) => {
                self.delegation_state = s;
                Ok(())
            },
            Err(e) => Err(e),
        }
    }
}

} // verus!
