//! Why an operation on the escrow is turned down.

use vstd::prelude::*;

verus! {

/// The reasons for which the escrow rejects a call. A rejected call changes
/// nothing.
#[derive(Clone, Copy, Debug, PartialEq, Eq, Structural)]
pub enum EscrowError {
    /// The identifier counter has been set up before.
    AlreadyInitialized,
    /// The goal of a new pool is not strictly positive.
    InvalidGoal,
    /// The deadline of a new pool is not strictly in the future.
    InvalidDeadline,
    /// A contribution is not strictly positive.
    InvalidAmount,
    /// No pool is stored under the identifier.
    PoolNotFound,
    /// The caller is not the pool's creator.
    NotCreator,
    /// The pool has been finalized.
    PoolFinalized,
    /// The pool's deadline lies in the past.
    DeadlinePassed,
    /// The pool's deadline has not passed yet.
    DeadlineNotPassed,
    /// The pool has raised less than its goal.
    GoalNotReached,
    /// The pool has raised its goal.
    GoalReached,
    /// Nothing is recorded for the contributor in the pool.
    NoContribution,
}

} // verus!
