//! The operations of the escrow.
//!
//! Each operation loads the records it needs from the store, checks the
//! guards of the transition, writes the new records and says which transfer
//! goes with it. A call that is turned down leaves the store as it was.
//!
//! The caller is expected to have checked that the acting party authorized
//! the call, to carry out the transfer that an operation returns, and to
//! throw the new state away if that transfer does not settle.

use crate::error::EscrowError;
use crate::pool::{Pool, PoolView};
use crate::principal::Principal;
use crate::store::{Store, StoreView};
use crate::transfer::{Transfer, TransferView};
use vstd::prelude::*;

verus! {

impl StoreView {
    /// The identifier that the next pool gets: the counter, or 1 where the
    /// counter has not been set.
    pub open spec fn next_id(self) -> nat {
        match self.next_pool_id {
            Some(id) => id,
            None => 1,
        }
    }

    /// Why the counter cannot be set up, if it cannot.
    pub open spec fn initialize_rejection(self) -> Option<EscrowError> {
        if self.next_pool_id is Some {
            Some(EscrowError::AlreadyInitialized)
        } else {
            None
        }
    }

    /// The store after the counter has been set up.
    pub open spec fn initialized(self) -> StoreView {
        StoreView { next_pool_id: Some(1), ..self }
    }

    /// The store after a pool has been opened under the next identifier.
    pub open spec fn with_new_pool(
        self,
        creator: Seq<char>,
        token: Seq<char>,
        supplier: Seq<char>,
        goal: int,
        deadline: u64,
    ) -> StoreView {
        let id = self.next_id();
        StoreView {
            next_pool_id: Some(id + 1),
            pools: self.pools.insert(
                id,
                PoolView::fresh(id, creator, token, supplier, goal, deadline),
            ),
            ..self
        }
    }

    /// Whether the counter can advance when a pool with this goal and
    /// deadline is opened at `now`. A call that is turned down needs no room.
    pub open spec fn create_pool_fits(self, now: u64, goal: int, deadline: u64) -> bool {
        PoolView::open_rejection(now, goal, deadline) is None ==> self.next_id() < u32::MAX
    }

    /// Whether the sums stay within the machine integers that hold them when
    /// `who` contributes `amount` to pool `pool_id` at `now`. A call that is
    /// turned down needs no room.
    pub open spec fn contribute_fits(
        self,
        now: u64,
        pool_id: nat,
        who: Seq<char>,
        amount: int,
    ) -> bool {
        self.contribute_rejection(now, pool_id, amount) is None ==> {
            &&& self.pools[pool_id].raised + amount <= i128::MAX
            &&& self.recorded(pool_id, who) + amount <= i128::MAX
        }
    }

    /// Why a contribution of `amount` to pool `pool_id` at `now` is turned
    /// down, if it is.
    pub open spec fn contribute_rejection(
        self,
        now: u64,
        pool_id: nat,
        amount: int,
    ) -> Option<EscrowError> {
        if !self.pools.contains_key(pool_id) {
            Some(EscrowError::PoolNotFound)
        } else {
            self.pools[pool_id].contribute_rejection(now, amount)
        }
    }

    /// The store after `who` has contributed `amount` to pool `pool_id`.
    pub open spec fn contributed(self, pool_id: nat, who: Seq<char>, amount: int) -> StoreView {
        StoreView {
            pools: self.pools.insert(pool_id, self.pools[pool_id].credited(amount)),
            contributions: self.contributions.insert(
                (pool_id, who),
                self.recorded(pool_id, who) + amount,
            ),
            ..self
        }
    }

    /// Why `caller` cannot finalize pool `pool_id` at `now`, if they cannot.
    pub open spec fn finalize_rejection(
        self,
        now: u64,
        pool_id: nat,
        caller: Seq<char>,
    ) -> Option<EscrowError> {
        if !self.pools.contains_key(pool_id) {
            Some(EscrowError::PoolNotFound)
        } else {
            self.pools[pool_id].finalize_rejection(now, caller)
        }
    }

    /// The store after pool `pool_id` has been finalized.
    pub open spec fn finalized(self, pool_id: nat) -> StoreView {
        StoreView { pools: self.pools.insert(pool_id, self.pools[pool_id].released()), ..self }
    }

    /// Why `who` cannot be refunded from pool `pool_id` at `now`, if they
    /// cannot.
    pub open spec fn refund_rejection(
        self,
        now: u64,
        pool_id: nat,
        who: Seq<char>,
    ) -> Option<EscrowError> {
        if !self.pools.contains_key(pool_id) {
            Some(EscrowError::PoolNotFound)
        } else {
            self.pools[pool_id].refund_rejection(now, self.recorded(pool_id, who))
        }
    }

    /// The store after `who` has been refunded from pool `pool_id`.
    pub open spec fn refunded(self, pool_id: nat, who: Seq<char>) -> StoreView {
        StoreView { contributions: self.contributions.remove((pool_id, who)), ..self }
    }
}

/// Finalizing goes through exactly when the goal has been reached, the
/// deadline has not passed and the pool is not finalized yet. This is said of
/// a stored pool and of its creator; anyone else is turned down in any case.
pub proof fn finalize_goes_through_iff(store: StoreView, now: u64, pool_id: nat, creator: Seq<char>)
    requires
        store.pools.contains_key(pool_id),
        creator == store.pools[pool_id].creator,
    ensures
        store.finalize_rejection(now, pool_id, creator) is None <==> ({
            &&& store.pools[pool_id].raised >= store.pools[pool_id].goal
            &&& now <= store.pools[pool_id].deadline
            &&& !store.pools[pool_id].finalized
        }),
{
}

/// A refund goes through exactly when the pool is not finalized, its
/// deadline has passed, it has raised less than its goal, and the ledger
/// holds a positive amount for the contributor. This is said of a stored
/// pool. Once it has gone through, the ledger has no line for the
/// contributor.
pub proof fn refund_goes_through_iff(store: StoreView, now: u64, pool_id: nat, user: Seq<char>)
    requires
        store.pools.contains_key(pool_id),
    ensures
        store.refund_rejection(now, pool_id, user) is None <==> ({
            &&& !store.pools[pool_id].finalized
            &&& now > store.pools[pool_id].deadline
            &&& store.pools[pool_id].raised < store.pools[pool_id].goal
            &&& store.contributions.contains_key((pool_id, user))
            &&& store.contributions[(pool_id, user)] > 0
        }),
        !store.refunded(pool_id, user).contributions.contains_key((pool_id, user)),
{
}

/// The escrow contract: its operations, each acting on a store.
pub struct CollectivePurchase;

impl CollectivePurchase {
    /// Sets the identifier counter to its starting value, 1. This can be
    /// done once: it fails with `AlreadyInitialized` where the counter
    /// exists.
    pub fn initialize(store: &mut Store) -> (r: Result<(), EscrowError>)
        ensures
            (match r {
                Ok(()) => {
                    &&& old(store)@.initialize_rejection() is None
                    &&& final(store)@ == old(store)@.initialized()
                },
                Err(e) => {
                    &&& old(store)@.initialize_rejection() == Some(e)
                    &&& final(store)@ == old(store)@
                },
            }),
    {
        if store.next_pool_id().is_some() {
            return Err(EscrowError::AlreadyInitialized);
        }
        store.set_next_pool_id(1);
        Ok(())
    }

    /// Whether `create_pool` may be called with these arguments: whether the
    /// counter can advance, if the call is not turned down anyway.
    pub fn create_pool_fits(store: &Store, now: u64, goal: i128, deadline: u64) -> (fits: bool)
        ensures
            fits == store@.create_pool_fits(now, goal as int, deadline),
    {
        if goal <= 0 || deadline <= now {
            return true;
        }
        match store.next_pool_id() {
            Some(id) => id < u32::MAX,
            None => true,
        }
    }

    /// Opens a pool at `now` and returns its identifier.
    ///
    /// Fails with `InvalidGoal` where `goal` is not strictly positive, else
    /// with `InvalidDeadline` where `deadline` is not strictly after `now`.
    /// Otherwise the pool is stored under the next identifier, with nothing
    /// raised and not finalized, and the counter advances by one.
    ///
    /// The counter must be able to advance: see `create_pool_fits`.
    pub fn create_pool(
        store: &mut Store,
        now: u64,
        creator: Principal,
        token: Principal,
        supplier: Principal,
        goal: i128,
        deadline: u64,
    ) -> (r: Result<u32, EscrowError>)
        requires
            old(store)@.create_pool_fits(now, goal as int, deadline),
        ensures
            (match r {
                Ok(id) => {
                    &&& PoolView::open_rejection(now, goal as int, deadline) is None
                    &&& id == old(store)@.next_id()
                    &&& final(store)@ == old(store)@.with_new_pool(
                        creator@,
                        token@,
                        supplier@,
                        goal as int,
                        deadline,
                    )
                },
                Err(e) => {
                    &&& PoolView::open_rejection(now, goal as int, deadline) == Some(e)
                    &&& final(store)@ == old(store)@
                },
            }),
    {
        let id = match store.next_pool_id() {
            Some(id) => id,
            None => 1,
        };
        match Pool::open(now, id, creator, token, supplier, goal, deadline) {
            Ok(pool) => {
                store.put_pool(id, pool);
                store.set_next_pool_id(id + 1);
                Ok(id)
            },
            Err(e) => Err(e),
        }
    }

    /// Whether `contribute` may be called with these arguments: whether the
    /// pool's total and the contributor's own stay within the integers that
    /// hold them, if the call is not turned down anyway.
    pub fn contribute_fits(
        store: &Store,
        now: u64,
        pool_id: u32,
        user: &Principal,
        amount: i128,
    ) -> (fits: bool)
        ensures
            fits == store@.contribute_fits(now, pool_id as nat, user@, amount as int),
    {
        let pool = match store.pool(pool_id) {
            Some(pool) => pool,
            None => {
                return true;
            },
        };
        if pool.finalized || now > pool.deadline || amount <= 0 {
            return true;
        }
        let recorded = match store.contribution(pool_id, user) {
            Some(recorded) => recorded,
            None => 0,
        };
        pool.raised <= i128::MAX - amount && recorded <= i128::MAX - amount
    }

    /// Takes a contribution of `amount` from `user` to pool `pool_id` at
    /// `now`.
    ///
    /// Fails with `PoolNotFound`, `PoolFinalized`, `DeadlinePassed` or
    /// `InvalidAmount`, whichever guard fails first in this order. Otherwise
    /// `amount` is added to what the pool has raised and to what is recorded
    /// for `user`, and the deposit of `amount` from `user` is returned.
    ///
    /// The sums must fit the integers that hold them: see `contribute_fits`.
    pub fn contribute(
        store: &mut Store,
        now: u64,
        pool_id: u32,
        user: Principal,
        amount: i128,
    ) -> (r: Result<Transfer, EscrowError>)
        requires
            old(store)@.contribute_fits(now, pool_id as nat, user@, amount as int),
        ensures
            (match r {
                Ok(transfer) => {
                    &&& old(store)@.contribute_rejection(now, pool_id as nat, amount as int)
                        is None
                    &&& final(store)@ == old(store)@.contributed(
                        pool_id as nat,
                        user@,
                        amount as int,
                    )
                    &&& transfer@ == (TransferView::Deposit {
                        pool_id: pool_id as nat,
                        token: old(store)@.pools[pool_id as nat].token,
                        from: user@,
                        amount: amount as int,
                    })
                },
                Err(e) => {
                    &&& old(store)@.contribute_rejection(now, pool_id as nat, amount as int)
                        == Some(e)
                    &&& final(store)@ == old(store)@
                },
            }),
    {
        let mut pool = match store.pool(pool_id) {
            Some(pool) => pool.clone(),
            None => {
                return Err(EscrowError::PoolNotFound);
            },
        };
        match pool.contribute(now, amount) {
            Ok(()) => {},
            Err(e) => {
                return Err(e);
            },
        }
        let token = pool.token.clone();
        store.put_pool(pool_id, pool);
        proof {
            store.recorded_fits(pool_id as nat, user@);
        }
        store.record_contribution(pool_id, &user, amount);
        Ok(Transfer::Deposit { pool_id, token, from: user, amount })
    }

    /// Finalizes pool `pool_id` at `now` on behalf of `creator`.
    ///
    /// Fails with `PoolNotFound`, `NotCreator`, `PoolFinalized`,
    /// `DeadlinePassed` or `GoalNotReached`, whichever guard fails first in
    /// this order. Otherwise the pool is marked finalized for good, and the
    /// release of all that it raised to its supplier is returned.
    pub fn finalize(
        store: &mut Store,
        now: u64,
        pool_id: u32,
        creator: Principal,
    ) -> (r: Result<Transfer, EscrowError>)
        ensures
            (match r {
                Ok(transfer) => {
                    &&& old(store)@.finalize_rejection(now, pool_id as nat, creator@) is None
                    &&& final(store)@ == old(store)@.finalized(pool_id as nat)
                    &&& transfer@ == (TransferView::Release {
                        pool_id: pool_id as nat,
                        token: old(store)@.pools[pool_id as nat].token,
                        to: old(store)@.pools[pool_id as nat].supplier,
                        amount: old(store)@.pools[pool_id as nat].raised,
                    })
                },
                Err(e) => {
                    &&& old(store)@.finalize_rejection(now, pool_id as nat, creator@) == Some(e)
                    &&& final(store)@ == old(store)@
                },
            }),
    {
        let mut pool = match store.pool(pool_id) {
            Some(pool) => pool.clone(),
            None => {
                return Err(EscrowError::PoolNotFound);
            },
        };
        let amount = match pool.finalize(now, &creator) {
            Ok(amount) => amount,
            Err(e) => {
                return Err(e);
            },
        };
        let token = pool.token.clone();
        let to = pool.supplier.clone();
        store.put_pool(pool_id, pool);
        Ok(Transfer::Release { pool_id, token, to, amount })
    }

    /// Refunds `user` from pool `pool_id` at `now`.
    ///
    /// Fails with `PoolNotFound`, `PoolFinalized`, `DeadlineNotPassed`,
    /// `GoalReached` or `NoContribution`, whichever guard fails first in this
    /// order. Otherwise the ledger's line for `user` is removed, and the
    /// refund to `user` of the whole amount that it held is returned.
    pub fn refund(
        store: &mut Store,
        now: u64,
        pool_id: u32,
        user: Principal,
    ) -> (r: Result<Transfer, EscrowError>)
        ensures
            (match r {
                Ok(transfer) => {
                    &&& old(store)@.refund_rejection(now, pool_id as nat, user@) is None
                    &&& final(store)@ == old(store)@.refunded(pool_id as nat, user@)
                    &&& transfer@ == (TransferView::Refund {
                        pool_id: pool_id as nat,
                        token: old(store)@.pools[pool_id as nat].token,
                        to: user@,
                        amount: old(store)@.recorded(pool_id as nat, user@),
                    })
                },
                Err(e) => {
                    &&& old(store)@.refund_rejection(now, pool_id as nat, user@) == Some(e)
                    &&& final(store)@ == old(store)@
                },
            }),
    {
        let recorded = match store.contribution(pool_id, &user) {
            Some(amount) => amount,
            None => 0,
        };
        let (token, amount) = match store.pool(pool_id) {
            Some(pool) => match pool.refund(now, recorded) {
                Ok(amount) => (pool.token.clone(), amount),
                Err(e) => {
                    return Err(e);
                },
            },
            None => {
                return Err(EscrowError::PoolNotFound);
            },
        };
        store.clear_contribution(pool_id, &user);
        Ok(Transfer::Refund { pool_id, token, to: user, amount })
    }

    /// A snapshot of the record of pool `pool_id`. Fails with `PoolNotFound`
    /// where there is none.
    pub fn get_pool(store: &Store, pool_id: u32) -> (r: Result<Pool, EscrowError>)
        ensures
            (match r {
                Ok(pool) => {
                    &&& store@.pools.contains_key(pool_id as nat)
                    &&& pool@ == store@.pools[pool_id as nat]
                },
                Err(e) => {
                    &&& e == EscrowError::PoolNotFound
                    &&& !store@.pools.contains_key(pool_id as nat)
                },
            }),
    {
        match store.pool(pool_id) {
            Some(pool) => Ok(pool.clone()),
            None => Err(EscrowError::PoolNotFound),
        }
    }
}

} // verus!
