//! Histories of calls.
//!
//! A history lists the calls that were made against a store, each with the
//! instant at which it was made. A call that was turned down stays in the
//! history and changes nothing. A call whose transfer did not settle is not
//! part of any history: the host undoes it as if it had never been made.
//!
//! What is proved of all histories stands in `lifecycle` and in `flows`.

use crate::error::EscrowError;
use crate::pool::PoolView;
use crate::store::StoreView;
use crate::transfer::TransferView;
use vstd::prelude::*;

verus! {

/// One operation of the escrow with its arguments.
pub enum Call {
    /// Set up the identifier counter.
    Initialize,
    /// Open a pool.
    CreatePool {
        creator: Seq<char>,
        token: Seq<char>,
        supplier: Seq<char>,
        goal: int,
        deadline: u64,
    },
    /// Contribute `amount` to a pool in the name of `user`.
    Contribute { pool_id: nat, user: Seq<char>, amount: int },
    /// Finalize a pool in the name of `creator`.
    Finalize { pool_id: nat, creator: Seq<char> },
    /// Refund `user` from a pool.
    Refund { pool_id: nat, user: Seq<char> },
}

/// A call and the instant at which it is made.
pub struct Step {
    pub now: u64,
    pub call: Call,
}

impl StoreView {
    /// Why the call is turned down, if it is.
    pub open spec fn rejection(self, step: Step) -> Option<EscrowError> {
        match step.call {
            Call::Initialize => self.initialize_rejection(),
            Call::CreatePool { goal, deadline, .. } => PoolView::open_rejection(
                step.now,
                goal,
                deadline,
            ),
            Call::Contribute { pool_id, amount, .. } => self.contribute_rejection(
                step.now,
                pool_id,
                amount,
            ),
            Call::Finalize { pool_id, creator } => self.finalize_rejection(
                step.now,
                pool_id,
                creator,
            ),
            Call::Refund { pool_id, user } => self.refund_rejection(step.now, pool_id, user),
        }
    }

    /// The store after the call: as before where the call is turned down.
    pub open spec fn after(self, step: Step) -> StoreView {
        if self.rejection(step) is Some {
            self
        } else {
            match step.call {
                Call::Initialize => self.initialized(),
                Call::CreatePool { creator, token, supplier, goal, deadline } => self.with_new_pool(
                    creator,
                    token,
                    supplier,
                    goal,
                    deadline,
                ),
                Call::Contribute { pool_id, user, amount } => self.contributed(
                    pool_id,
                    user,
                    amount,
                ),
                Call::Finalize { pool_id, .. } => self.finalized(pool_id),
                Call::Refund { pool_id, user } => self.refunded(pool_id, user),
            }
        }
    }

    /// The transfer that goes with the call, if the call goes through and
    /// moves funds.
    pub open spec fn transfer(self, step: Step) -> Option<TransferView> {
        if self.rejection(step) is Some {
            None
        } else {
            match step.call {
                Call::Initialize => None,
                Call::CreatePool { .. } => None,
                Call::Contribute { pool_id, user, amount } => Some(
                    TransferView::Deposit {
                        pool_id,
                        token: self.pools[pool_id].token,
                        from: user,
                        amount,
                    },
                ),
                Call::Finalize { pool_id, .. } => Some(
                    TransferView::Release {
                        pool_id,
                        token: self.pools[pool_id].token,
                        to: self.pools[pool_id].supplier,
                        amount: self.pools[pool_id].raised,
                    },
                ),
                Call::Refund { pool_id, user } => Some(
                    TransferView::Refund {
                        pool_id,
                        token: self.pools[pool_id].token,
                        to: user,
                        amount: self.recorded(pool_id, user),
                    },
                ),
            }
        }
    }

    /// The store after all the calls of `history`, made in order.
    pub open spec fn after_all(self, history: Seq<Step>) -> StoreView
        decreases history.len(),
    {
        if history.len() == 0 {
            self
        } else {
            self.after_all(history.drop_last()).after(history.last())
        }
    }

    /// Whether the store could have come about through the operations of
    /// the escrow: every pool got its identifier from the counter, every
    /// line of the ledger belongs to a stored pool, and the ledger has
    /// finitely many lines.
    pub open spec fn consistent(self) -> bool {
        &&& forall|id: nat| #[trigger] self.pools.contains_key(id) ==> id < self.next_id()
        &&& forall|id: nat, who: Seq<char>| #[trigger]
            self.contributions.contains_key((id, who)) ==> self.pools.contains_key(id)
        &&& self.contributions.dom().finite()
    }
}

/// Whether the clock never runs backwards along `history`.
pub open spec fn clock_runs_forward(history: Seq<Step>) -> bool {
    forall|i: int, j: int| 0 <= i <= j < history.len() ==> history[i].now <= history[j].now
}

/// Whether every call of `history` is made at `now` or later.
pub open spec fn not_before(history: Seq<Step>, now: u64) -> bool {
    forall|i: int| 0 <= i < history.len() ==> now <= #[trigger] history[i].now
}

/// Whether the call at position `i` of `history` goes through, when the
/// history starts from `start`.
pub open spec fn goes_through(start: StoreView, history: Seq<Step>, i: int) -> bool {
    start.after_all(history.take(i)).rejection(history[i]) is None
}

/// The empty store is consistent.
pub proof fn empty_is_consistent()
    ensures
        StoreView::empty().consistent(),
{
}

/// The counter only advances: a call leaves the next identifier as it was,
/// but for a pool creation that goes through, which raises it by one.
pub proof fn counter_only_advances(store: StoreView, step: Step)
    ensures
        store.after(step).next_id() == store.next_id() + (if step.call is CreatePool
            && store.rejection(step) is None {
            1int
        } else {
            0int
        }),
{
}

/// A call keeps a consistent store consistent.
pub proof fn call_keeps_consistent(store: StoreView, step: Step)
    requires
        store.consistent(),
    ensures
        store.after(step).consistent(),
{
}

/// A history keeps a consistent store consistent.
pub proof fn history_keeps_consistent(store: StoreView, history: Seq<Step>)
    requires
        store.consistent(),
    ensures
        store.after_all(history).consistent(),
    decreases history.len(),
{
    if history.len() > 0 {
        history_keeps_consistent(store, history.drop_last());
        call_keeps_consistent(store.after_all(history.drop_last()), history.last());
    }
}

/// Making the calls of `first` and then those of `second` is making the
/// calls of the two put together.
pub proof fn after_all_splits(store: StoreView, first: Seq<Step>, second: Seq<Step>)
    ensures
        store.after_all(first + second) == store.after_all(first).after_all(second),
    decreases second.len(),
{
    if second.len() == 0 {
        assert(first + second == first);
    } else {
        assert((first + second).drop_last() == first + second.drop_last());
        assert((first + second).last() == second.last());
        after_all_splits(store, first, second.drop_last());
    }
}

} // verus!
