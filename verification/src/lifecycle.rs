//! What holds of a pool over every history: its record only moves forward,
//! finalization is permanent, a refund is paid once, and finalizing and
//! refunding exclude each other.

use crate::error::EscrowError;
use crate::history::{
    after_all_splits, call_keeps_consistent, clock_runs_forward, goes_through,
    history_keeps_consistent, not_before, Call, Step,
};
use crate::pool::{Phase, PoolView};
use crate::store::StoreView;
use vstd::prelude::*;

verus! {

/// Whether `later` is the record of the same pool as `earlier` at some
/// later point: what is fixed at creation is as it was, the amount raised
/// has not gone down, and a finalized pool is still finalized.
pub open spec fn follows(earlier: PoolView, later: PoolView) -> bool {
    &&& later.id == earlier.id
    &&& later.creator == earlier.creator
    &&& later.token == earlier.token
    &&& later.supplier == earlier.supplier
    &&& later.goal == earlier.goal
    &&& later.deadline == earlier.deadline
    &&& later.raised >= earlier.raised
    &&& earlier.finalized ==> later.finalized && later.raised == earlier.raised
}

/// A pool, once stored, stays stored, and no call changes what was fixed at
/// its creation, lowers what it has raised or takes back its finalization.
pub proof fn call_keeps_pool(store: StoreView, step: Step, pool_id: nat)
    requires
        store.consistent(),
        store.pools.contains_key(pool_id),
    ensures
        store.after(step).pools.contains_key(pool_id),
        follows(store.pools[pool_id], store.after(step).pools[pool_id]),
{
}

/// What `call_keeps_pool` says of one call holds of every history.
pub proof fn history_keeps_pool(store: StoreView, history: Seq<Step>, pool_id: nat)
    requires
        store.consistent(),
        store.pools.contains_key(pool_id),
    ensures
        store.after_all(history).pools.contains_key(pool_id),
        follows(store.pools[pool_id], store.after_all(history).pools[pool_id]),
    decreases history.len(),
{
    if history.len() > 0 {
        let before = store.after_all(history.drop_last());
        history_keeps_pool(store, history.drop_last(), pool_id);
        history_keeps_consistent(store, history.drop_last());
        call_keeps_pool(before, history.last(), pool_id);
    }
}

/// Finalization is permanent: after a pool has been finalized, whatever is
/// called and whenever, the pool stays finalized with its record unchanged,
/// and its creator's next attempt to finalize it is turned down with
/// `PoolFinalized`.
pub proof fn finalize_is_once(
    store: StoreView,
    now: u64,
    pool_id: nat,
    creator: Seq<char>,
    history: Seq<Step>,
    again: u64,
)
    requires
        store.consistent(),
        store.finalize_rejection(now, pool_id, creator) is None,
    ensures
        ({
            let end = store.finalized(pool_id).after_all(history);
            &&& end.pools.contains_key(pool_id)
            &&& end.pools[pool_id] == store.pools[pool_id].released()
            &&& end.finalize_rejection(again, pool_id, creator) == Some(EscrowError::PoolFinalized)
        }),
{
    let first = Step { now, call: Call::Finalize { pool_id, creator } };
    assert(store.after(first) == store.finalized(pool_id));
    call_keeps_consistent(store, first);
    history_keeps_pool(store.finalized(pool_id), history, pool_id);
}

/// A refund is paid once: after a contributor has been refunded from a pool,
/// whatever is called from then on, their next attempt at a refund from that
/// pool is turned down with `NoContribution`, as long as the clock does not
/// run backwards.
pub proof fn refund_is_once(
    store: StoreView,
    now: u64,
    pool_id: nat,
    user: Seq<char>,
    history: Seq<Step>,
    again: u64,
)
    requires
        store.consistent(),
        store.refund_rejection(now, pool_id, user) is None,
        not_before(history, now),
        now <= again,
    ensures
        ({
            let end = store.refunded(pool_id, user).after_all(history);
            &&& !end.contributions.contains_key((pool_id, user))
            &&& end.refund_rejection(again, pool_id, user) == Some(EscrowError::NoContribution)
        }),
{
    let first = Step { now, call: Call::Refund { pool_id, user } };
    assert(store.after(first) == store.refunded(pool_id, user));
    call_keeps_consistent(store, first);
    lapsed_pool_is_frozen(store.refunded(pool_id, user), now, pool_id, history);
}

/// Once the deadline of an unfinalized pool has passed, no call changes its
/// record or adds a line for it to the ledger, as long as the clock does not
/// run backwards.
pub proof fn lapsed_pool_is_frozen(store: StoreView, now: u64, pool_id: nat, history: Seq<Step>)
    requires
        store.consistent(),
        store.pools.contains_key(pool_id),
        !store.pools[pool_id].finalized,
        store.pools[pool_id].deadline < now,
        not_before(history, now),
    ensures
        store.after_all(history).pools.contains_key(pool_id),
        store.after_all(history).pools[pool_id] == store.pools[pool_id],
        forall|who: Seq<char>| #[trigger]
            store.after_all(history).contributions.contains_key((pool_id, who))
                ==> store.contributions.contains_key((pool_id, who)),
    decreases history.len(),
{
    if history.len() > 0 {
        let earlier = history.drop_last();
        assert(not_before(earlier, now)) by {
            assert forall|i: int| 0 <= i < earlier.len() implies now
                <= #[trigger] earlier[i].now by {
                assert(earlier[i] == history[i]);
            }
        }
        lapsed_pool_is_frozen(store, now, pool_id, earlier);
        history_keeps_consistent(store, earlier);
        assert(now <= history[history.len() - 1].now);
    }
}

/// A pool that has failed or is stranded stays so: once the deadline of an
/// unfinalized pool has passed, its phase is the same at every later
/// instant, whatever is called, as long as the clock does not run backwards.
/// In particular the funds of a stranded pool stay in custody.
pub proof fn lapsed_pool_keeps_its_phase(
    store: StoreView,
    now: u64,
    pool_id: nat,
    history: Seq<Step>,
    later: u64,
)
    requires
        store.consistent(),
        store.pools.contains_key(pool_id),
        store.pools[pool_id].phase(now) == Phase::Failed || store.pools[pool_id].phase(now)
            == Phase::Stranded,
        not_before(history, now),
        now <= later,
    ensures
        store.after_all(history).pools.contains_key(pool_id),
        store.after_all(history).pools[pool_id].phase(later) == store.pools[pool_id].phase(now),
{
    lapsed_pool_is_frozen(store, now, pool_id, history);
}

/// Finalizing and refunding exclude each other: in no history do both a
/// finalization of a pool and a refund from that pool go through, as long as
/// the history starts from a consistent store and the clock does not run
/// backwards.
pub proof fn finalize_excludes_refund(
    start: StoreView,
    history: Seq<Step>,
    pool_id: nat,
    i: int,
    j: int,
)
    requires
        start.consistent(),
        clock_runs_forward(history),
        0 <= i < history.len(),
        0 <= j < history.len(),
        history[i].call is Finalize,
        history[i].call->Finalize_pool_id == pool_id,
        history[j].call is Refund,
        history[j].call->Refund_pool_id == pool_id,
    ensures
        !(goes_through(start, history, i) && goes_through(start, history, j)),
{
    if goes_through(start, history, i) && goes_through(start, history, j) {
        let (a, b) = if i < j {
            (i, j)
        } else {
            (j, i)
        };
        // The store just before the earlier call, the store just after it,
        // and the calls between the two.
        let before = start.after_all(history.take(a));
        let between = history.subrange(a + 1, b);
        history_keeps_consistent(start, history.take(a));
        call_keeps_consistent(before, history[a]);
        assert(history.take(a + 1).drop_last() == history.take(a));
        assert(start.after_all(history.take(a + 1)) == before.after(history[a]));
        after_all_splits(start, history.take(a + 1), between);
        assert(history.take(a + 1) + between == history.take(b));
        let mid = before.after(history[a]);
        assert(mid.after_all(between) == start.after_all(history.take(b)));
        history_keeps_pool(mid, between, pool_id);
        if i < j {
            // Finalized first: the pool is still finalized when the refund is asked for.
            assert(mid.pools[pool_id].finalized);
        } else {
            // Refunded first: the deadline had passed then, and has passed since.
            assert(history[j].now <= history[i].now);
            assert(mid.pools[pool_id].deadline < history[j].now);
        }
    }
}

} // verus!
