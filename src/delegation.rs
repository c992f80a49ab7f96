//! The lifecycle of a transfer's delegation of settlement authority to an
//! outside accelerator.
use vstd::prelude::*;

verus! {

/// Where a transfer stands in its delegation lifecycle.
#[derive(Debug, Clone, Copy, PartialEq, Eq, Structural)]
pub enum DelegationState {
    NotDelegated,
    Delegated,
    Committed,
    Undelegated,
    Integrated,
}

/// A requested delegation transition.
#[derive(Debug, Clone, Copy, PartialEq, Eq, Structural)]
pub enum DelegationOp {
    /// Hand settlement authority to the accelerator.
    Delegate,
    /// Commit the accelerator's changes.
    Commit,
    /// Take settlement authority back.
    Undelegate,
    /// Finalise the committed changes; terminal.
    Integrate,
}

/// Why a delegation transition was refused.
#[derive(Debug, Clone, Copy, PartialEq, Eq, Structural)]
pub enum DelegationError {
    /// `Delegate` on an incomplete transfer or one that was delegated before.
    InvalidDelegationTransition,
    /// `Commit` on a transfer that is not delegated.
    PerNotDelegated,
    /// `Undelegate` or `Integrate` on a transfer that is not committed.
    PerNotCommitted,
    /// `Integrate` on a transfer that was never executed.
    TransferNotExecuted,
}

/// The state after `op`, from `state`, for a transfer whose execution has
/// (`completed`) or has not completed; or why `op` is refused.
pub open spec fn delegation_next(state: DelegationState, completed: bool, op: DelegationOp) -> Result<
    DelegationState,
    DelegationError,
> {
    match op {
        DelegationOp::Delegate => if completed && state == DelegationState::NotDelegated {
            Ok(DelegationState::Delegated)
        } else {
            Err(DelegationError::InvalidDelegationTransition)
        },
        DelegationOp::Commit => if state == DelegationState::Delegated {
            Ok(DelegationState::Committed)
        } else {
            Err(DelegationError::PerNotDelegated)
        },
        DelegationOp::Undelegate => if state == DelegationState::Committed {
            Ok(DelegationState::Undelegated)
        } else {
            Err(DelegationError::PerNotCommitted)
        },
        DelegationOp::Integrate => if !completed {
            Err(DelegationError::TransferNotExecuted)
        } else if state == DelegationState::Committed {
            Ok(DelegationState::Integrated)
        } else {
            Err(DelegationError::PerNotCommitted)
        },
    }
}

/// The documented transitions: `NotDelegated` to `Delegated` to `Committed`, then to
/// `Undelegated`, or to the terminal `Integrated`.
pub open spec fn documented_transition(
    from: DelegationState,
    op: DelegationOp,
    to: DelegationState,
) -> bool {
    ||| from == DelegationState::NotDelegated && op == DelegationOp::Delegate && to
        == DelegationState::Delegated
    ||| from == DelegationState::Delegated && op == DelegationOp::Commit && to
        == DelegationState::Committed
    ||| from == DelegationState::Committed && op == DelegationOp::Undelegate && to
        == DelegationState::Undelegated
    ||| from == DelegationState::Committed && op == DelegationOp::Integrate && to
        == DelegationState::Integrated
}

/// A delegation transition succeeds only along a documented edge, and then
/// `Delegate` and `Integrate` only on a completed transfer; `Undelegated` and
/// `Integrated` admit no transition at all; and on a completed transfer every
/// documented edge is taken.
pub proof fn delegation_follows_documented_order(
    state: DelegationState,
    completed: bool,
    op: DelegationOp,
    to: DelegationState,
)
    ensures
        delegation_next(state, completed, op) matches Ok(next) ==> documented_transition(
            state,
            op,
            next,
        ),
        delegation_next(state, completed, op) is Ok && (op == DelegationOp::Delegate || op
            == DelegationOp::Integrate) ==> completed,
        state == DelegationState::Undelegated || state == DelegationState::Integrated
            ==> delegation_next(state, completed, op) is Err,
        completed && documented_transition(state, op, to) ==> delegation_next(state, completed, op)
            == Ok::<DelegationState, DelegationError>(to),
{
}

/// Computes `delegation_next`.
pub fn next_delegation_state(state: DelegationState, completed: bool, op: DelegationOp) -> (r:
    Result<DelegationState, DelegationError>)
    ensures
        r == delegation_next(state, completed, op),
{
    match op {
        DelegationOp::Delegate => {
            if completed && state == DelegationState::NotDelegated {
                Ok(DelegationState::Delegated)
            } else {
                Err(DelegationError::InvalidDelegationTransition)
            }
        },
        DelegationOp::Commit => {
            if state == DelegationState::Delegated {
                Ok(DelegationState::Committed)
            } else {
                Err(DelegationError::PerNotDelegated)
            }
        },
        DelegationOp::Undelegate => {
            if state == DelegationState::Committed {
                Ok(DelegationState::Undelegated)
            } else {
                Err(DelegationError::PerNotCommitted)
            }
        },
        DelegationOp::Integrate => {
            if !completed {
                Err(DelegationError::TransferNotExecuted)
            } else if state == DelegationState::Committed {
                Ok(DelegationState::Integrated)
            } else {
                Err(DelegationError::PerNotCommitted)
            }
        },
    }
}

} // verus!
