//! One fundraising campaign: its record, the phases it passes through, and
//! the guards that decide which transition is legal at a given instant.

use crate::error::EscrowError;
use crate::principal::Principal;
use vstd::prelude::*;

verus! {

/// The record of one campaign.
#[derive(Debug, PartialEq, Eq)]
pub struct Pool {
    /// The identifier under which the pool is stored.
    pub id: u32,
    /// The party that opened the pool and may finalize it.
    pub creator: Principal,
    /// The asset that the pool collects.
    pub token: Principal,
    /// The party that receives the funds when the pool succeeds.
    pub supplier: Principal,
    /// The amount to reach.
    pub goal: i128,
    /// The amount contributed so far. Refunds do not lower it.
    pub raised: i128,
    /// The last instant at which the pool takes contributions.
    pub deadline: u64,
    /// Whether the funds have been released to the supplier.
    pub finalized: bool,
}

/// What a pool record says, with names as text and amounts as unbounded
/// integers.
pub struct PoolView {
    pub id: nat,
    pub creator: Seq<char>,
    pub token: Seq<char>,
    pub supplier: Seq<char>,
    pub goal: int,
    pub raised: int,
    pub deadline: u64,
    pub finalized: bool,
}

/// Where a pool stands at a given instant. The phase is computed from the
/// record and the clock; it is not stored.
#[derive(Clone, Copy, Debug, PartialEq, Eq, Structural)]
pub enum Phase {
    /// Before the deadline, goal not reached: contributions are taken.
    Open,
    /// Before the deadline, goal reached: contributions are still taken and
    /// the creator may finalize.
    Funded,
    /// The funds have been released. Nothing more happens to the pool.
    Finalized,
    /// After the deadline, goal missed: contributors may take their money
    /// back.
    Failed,
    /// After the deadline, goal reached but never finalized: neither
    /// finalizing nor refunding is possible.
    Stranded,
}

impl View for Pool {
    type V = PoolView;

    open spec fn view(&self) -> PoolView {
        PoolView {
            id: self.id as nat,
            creator: self.creator@,
            token: self.token@,
            supplier: self.supplier@,
            goal: self.goal as int,
            raised: self.raised as int,
            deadline: self.deadline,
            finalized: self.finalized,
        }
    }
}

impl PoolView {
    /// The record of a pool that has just been opened.
    pub open spec fn fresh(
        id: nat,
        creator: Seq<char>,
        token: Seq<char>,
        supplier: Seq<char>,
        goal: int,
        deadline: u64,
    ) -> PoolView {
        PoolView { id, creator, token, supplier, goal, raised: 0, deadline, finalized: false }
    }

    /// Why a pool with this goal and deadline cannot be opened at `now`, if
    /// it cannot.
    pub open spec fn open_rejection(now: u64, goal: int, deadline: u64) -> Option<EscrowError> {
        if goal <= 0 {
            Some(EscrowError::InvalidGoal)
        } else if deadline <= now {
            Some(EscrowError::InvalidDeadline)
        } else {
            None
        }
    }

    /// The phase of the pool at `now`.
    pub open spec fn phase(self, now: u64) -> Phase {
        if self.finalized {
            Phase::Finalized
        } else if now <= self.deadline {
            if self.raised >= self.goal {
                Phase::Funded
            } else {
                Phase::Open
            }
        } else if self.raised >= self.goal {
            Phase::Stranded
        } else {
            Phase::Failed
        }
    }

    /// Why a contribution of `amount` at `now` is turned down, if it is.
    pub open spec fn contribute_rejection(self, now: u64, amount: int) -> Option<EscrowError> {
        if self.finalized {
            Some(EscrowError::PoolFinalized)
        } else if now > self.deadline {
            Some(EscrowError::DeadlinePassed)
        } else if amount <= 0 {
            Some(EscrowError::InvalidAmount)
        } else {
            None
        }
    }

    /// Why `caller` cannot finalize the pool at `now`, if they cannot.
    pub open spec fn finalize_rejection(self, now: u64, caller: Seq<char>) -> Option<EscrowError> {
        if caller != self.creator {
            Some(EscrowError::NotCreator)
        } else if self.finalized {
            Some(EscrowError::PoolFinalized)
        } else if now > self.deadline {
            Some(EscrowError::DeadlinePassed)
        } else if self.raised < self.goal {
            Some(EscrowError::GoalNotReached)
        } else {
            None
        }
    }

    /// Why a contributor with `recorded` to their name cannot be refunded at
    /// `now`, if they cannot.
    pub open spec fn refund_rejection(self, now: u64, recorded: int) -> Option<EscrowError> {
        if self.finalized {
            Some(EscrowError::PoolFinalized)
        } else if now <= self.deadline {
            Some(EscrowError::DeadlineNotPassed)
        } else if self.raised >= self.goal {
            Some(EscrowError::GoalReached)
        } else if recorded <= 0 {
            Some(EscrowError::NoContribution)
        } else {
            None
        }
    }

    /// The record after a contribution of `amount`.
    pub open spec fn credited(self, amount: int) -> PoolView {
        PoolView { raised: self.raised + amount, ..self }
    }

    /// The record after the funds have been released.
    pub open spec fn released(self) -> PoolView {
        PoolView { finalized: true, ..self }
    }
}

/// The phase decides which transition is legal: contributions are taken
/// while the pool is open or funded, the creator may finalize while it is
/// funded, and refunds are paid once it has failed. A stranded pool allows
/// neither finalizing nor refunding.
pub proof fn phase_decides(
    pool: PoolView,
    now: u64,
    caller: Seq<char>,
    amount: int,
    recorded: int,
)
    ensures
        pool.contribute_rejection(now, amount) is None <==> (pool.phase(now) == Phase::Open
            || pool.phase(now) == Phase::Funded) && amount > 0,
        pool.finalize_rejection(now, caller) is None <==> pool.phase(now) == Phase::Funded
            && caller == pool.creator,
        pool.refund_rejection(now, recorded) is None <==> pool.phase(now) == Phase::Failed
            && recorded > 0,
        pool.phase(now) == Phase::Stranded ==> pool.finalize_rejection(now, caller) is Some
            && pool.refund_rejection(now, recorded) is Some,
{
}

impl Pool {
    /// Opens a pool at `now`, with nothing raised.
    ///
    /// The goal must be strictly positive and the deadline strictly after
    /// `now`.
    pub fn open(
        now: u64,
        id: u32,
        creator: Principal,
        token: Principal,
        supplier: Principal,
        goal: i128,
        deadline: u64,
    ) -> (r: Result<Pool, EscrowError>)
        ensures
            (match r {
                Ok(pool) => {
                    &&& PoolView::open_rejection(now, goal as int, deadline) is None
                    &&& pool@ == PoolView::fresh(
                        id as nat,
                        creator@,
                        token@,
                        supplier@,
                        goal as int,
                        deadline,
                    )
                },
                Err(e) => PoolView::open_rejection(now, goal as int, deadline) == Some(e),
            }),
    {
        if goal <= 0 {
            return Err(EscrowError::InvalidGoal);
        }
        if deadline <= now {
            return Err(EscrowError::InvalidDeadline);
        }
        Ok(Pool { id, creator, token, supplier, goal, raised: 0, deadline, finalized: false })
    }

    /// The phase of the pool at `now`.
    pub fn phase(&self, now: u64) -> (phase: Phase)
        ensures
            phase == self@.phase(now),
    {
        if self.finalized {
            Phase::Finalized
        } else if now <= self.deadline {
            if self.raised >= self.goal {
                Phase::Funded
            } else {
                Phase::Open
            }
        } else if self.raised >= self.goal {
            Phase::Stranded
        } else {
            Phase::Failed
        }
    }

    /// Takes a contribution of `amount` at `now`: checks the guards and, if
    /// they pass, adds `amount` to what the pool has raised.
    pub fn contribute(&mut self, now: u64, amount: i128) -> (r: Result<(), EscrowError>)
        requires
            old(self)@.contribute_rejection(now, amount as int) is None ==> old(self).raised
                + amount <= i128::MAX,
        ensures
            (match r {
                Ok(()) => {
                    &&& old(self)@.contribute_rejection(now, amount as int) is None
                    &&& final(self)@ == old(self)@.credited(amount as int)
                },
                Err(e) => {
                    &&& old(self)@.contribute_rejection(now, amount as int) == Some(e)
                    &&& *final(self) == *old(self)
                },
            }),
    {
        if self.finalized {
            return Err(EscrowError::PoolFinalized);
        }
        if now > self.deadline {
            return Err(EscrowError::DeadlinePassed);
        }
        if amount <= 0 {
            return Err(EscrowError::InvalidAmount);
        }
        self.raised = self.raised + amount;
        Ok(())
    }

    /// Finalizes the pool at `now` on behalf of `caller`: checks the guards
    /// and, if they pass, marks the pool finalized and returns the amount to
    /// release to the supplier, which is all that was raised.
    pub fn finalize(&mut self, now: u64, caller: &Principal) -> (r: Result<i128, EscrowError>)
        ensures
            (match r {
                Ok(payout) => {
                    &&& old(self)@.finalize_rejection(now, caller@) is None
                    &&& final(self)@ == old(self)@.released()
                    &&& payout == old(self).raised
                },
                Err(e) => {
                    &&& old(self)@.finalize_rejection(now, caller@) == Some(e)
                    &&& *final(self) == *old(self)
                },
            }),
    {
        if !caller.same_as(&self.creator) {
            return Err(EscrowError::NotCreator);
        }
        if self.finalized {
            return Err(EscrowError::PoolFinalized);
        }
        if now > self.deadline {
            return Err(EscrowError::DeadlinePassed);
        }
        if self.raised < self.goal {
            return Err(EscrowError::GoalNotReached);
        }
        self.finalized = true;
        Ok(self.raised)
    }

    /// Decides at `now` whether a contributor with `recorded` to their name
    /// is refunded. The refund is always the whole recorded amount.
    pub fn refund(&self, now: u64, recorded: i128) -> (r: Result<i128, EscrowError>)
        ensures
            (match r {
                Ok(amount) => {
                    &&& self@.refund_rejection(now, recorded as int) is None
                    &&& amount == recorded
                },
                Err(e) => self@.refund_rejection(now, recorded as int) == Some(e),
            }),
    {
        if self.finalized {
            return Err(EscrowError::PoolFinalized);
        }
        if now <= self.deadline {
            return Err(EscrowError::DeadlineNotPassed);
        }
        if self.raised >= self.goal {
            return Err(EscrowError::GoalReached);
        }
        if recorded <= 0 {
            return Err(EscrowError::NoContribution);
        }
        Ok(recorded)
    }
}

impl Clone for Pool {
    fn clone(&self) -> (pool: Pool)
        ensures
            pool == *self,
    {
        Pool {
            id: self.id,
            creator: self.creator.clone(),
            token: self.token.clone(),
            supplier: self.supplier.clone(),
            goal: self.goal,
            raised: self.raised,
            deadline: self.deadline,
            finalized: self.finalized,
        }
    }
}

} // verus!
