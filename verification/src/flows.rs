//! What a history pays into custody and out of it, pool by pool: that
//! contributions add up, that the books of a pool balance, and that no pool
//! and no contributor ever gets out more than was paid in.

use crate::history::{clock_runs_forward, goes_through, history_keeps_consistent, Call, Step};
use crate::store::{Ledger, LedgerKey, StoreView};
use crate::transfer::TransferView;
use vstd::prelude::*;

verus! {

/// Whether `history`, made from `start`, consists of contributions to pool
/// `pool_id` that all go through.
pub open spec fn only_contributes(start: StoreView, history: Seq<Step>, pool_id: nat) -> bool {
    forall|i: int|
        0 <= i < history.len() ==> {
            &&& (#[trigger] history[i]).call is Contribute
            &&& history[i].call->Contribute_pool_id == pool_id
            &&& goes_through(start, history, i)
        }
}

/// The amount that the call contributes: nothing where it is no
/// contribution.
pub open spec fn amount_of(call: Call) -> int {
    match call {
        Call::Contribute { amount, .. } => amount,
        _ => 0,
    }
}

/// The amount that the call contributes in the name of `who`.
pub open spec fn amount_from(call: Call, who: Seq<char>) -> int {
    match call {
        Call::Contribute { user, amount, .. } => if user == who {
            amount
        } else {
            0
        },
        _ => 0,
    }
}

/// The sum of the amounts of the contributions in `history`.
pub open spec fn sum_of_amounts(history: Seq<Step>) -> int
    decreases history.len(),
{
    if history.len() == 0 {
        0
    } else {
        sum_of_amounts(history.drop_last()) + amount_of(history.last().call)
    }
}

/// The sum of the amounts of the contributions that `history` holds in the
/// name of `who`.
pub open spec fn sum_of_amounts_from(history: Seq<Step>, who: Seq<char>) -> int
    decreases history.len(),
{
    if history.len() == 0 {
        0
    } else {
        sum_of_amounts_from(history.drop_last(), who) + amount_from(history.last().call, who)
    }
}

/// Contributions add up: after a run of contributions to one pool that all
/// go through, the pool has raised what it had raised before plus the sum of
/// the amounts, and what is recorded for each contributor is what was
/// recorded before plus the sum of their own amounts. For a pool that starts
/// with nothing raised and nothing recorded, these are the sums themselves.
pub proof fn contributions_add_up(
    start: StoreView,
    history: Seq<Step>,
    pool_id: nat,
    who: Seq<char>,
)
    requires
        only_contributes(start, history, pool_id),
    ensures
        start.after_all(history).pools[pool_id].raised == start.pools[pool_id].raised
            + sum_of_amounts(history),
        start.after_all(history).recorded(pool_id, who) == start.recorded(pool_id, who)
            + sum_of_amounts_from(history, who),
    decreases history.len(),
{
    if history.len() > 0 {
        let earlier = history.drop_last();
        let last = history.len() - 1;
        assert(only_contributes(start, earlier, pool_id)) by {
            assert forall|i: int| 0 <= i < earlier.len() implies {
                &&& (#[trigger] earlier[i]).call is Contribute
                &&& earlier[i].call->Contribute_pool_id == pool_id
                &&& goes_through(start, earlier, i)
            } by {
                assert(earlier[i] == history[i]);
                assert(earlier.take(i) == history.take(i));
            }
        }
        contributions_add_up(start, earlier, pool_id, who);
        assert(history[last].call is Contribute);
        assert(history.take(last) == earlier);
        assert(goes_through(start, history, last));
    }
}

/// What the line `key` of `ledger` counts toward pool `pool_id`: its amount
/// where the line belongs to that pool, nothing otherwise.
pub open spec fn share(ledger: Ledger, key: LedgerKey, pool_id: nat) -> int {
    if key.0 == pool_id {
        ledger[key]
    } else {
        0
    }
}

/// The sum of all that `ledger` records for pool `pool_id`.
pub open spec fn ledger_total(ledger: Ledger, pool_id: nat) -> int
    decreases ledger.dom().len(),
    when ledger.dom().finite()
{
    if ledger.dom().len() == 0 {
        0
    } else {
        let key = ledger.dom().choose();
        share(ledger, key, pool_id) + ledger_total(ledger.remove(key), pool_id)
    }
}

/// The total of a ledger is the share of any one of its lines plus the total
/// of the rest.
pub proof fn total_splits_at(ledger: Ledger, key: LedgerKey, pool_id: nat)
    requires
        ledger.dom().finite(),
        ledger.contains_key(key),
    ensures
        ledger_total(ledger, pool_id) == share(ledger, key, pool_id) + ledger_total(
            ledger.remove(key),
            pool_id,
        ),
    decreases ledger.dom().len(),
{
    let chosen = ledger.dom().choose();
    if chosen != key {
        total_splits_at(ledger.remove(chosen), key, pool_id);
        total_splits_at(ledger.remove(key), chosen, pool_id);
        assert(ledger.remove(chosen).remove(key) == ledger.remove(key).remove(chosen));
    }
}

/// A ledger without lines for a pool records nothing for it.
pub proof fn total_of_absent_pool(ledger: Ledger, pool_id: nat)
    requires
        ledger.dom().finite(),
        forall|who: Seq<char>| !ledger.contains_key((pool_id, who)),
    ensures
        ledger_total(ledger, pool_id) == 0,
    decreases ledger.dom().len(),
{
    if ledger.dom().len() != 0 {
        let chosen = ledger.dom().choose();
        assert(!ledger.contains_key((pool_id, chosen.1)));
        total_of_absent_pool(ledger.remove(chosen), pool_id);
    }
}

/// A ledger whose lines for a pool are all positive or zero records a total
/// that is positive or zero.
pub proof fn total_is_not_negative(ledger: Ledger, pool_id: nat)
    requires
        ledger.dom().finite(),
        forall|who: Seq<char>| #[trigger]
            ledger.contains_key((pool_id, who)) ==> ledger[(pool_id, who)] >= 0,
    ensures
        ledger_total(ledger, pool_id) >= 0,
    decreases ledger.dom().len(),
{
    if ledger.dom().len() != 0 {
        let chosen = ledger.dom().choose();
        assert(chosen == (chosen.0, chosen.1));
        assert(chosen.0 == pool_id ==> ledger.contains_key((pool_id, chosen.1)));
        let rest = ledger.remove(chosen);
        assert forall|who: Seq<char>| #[trigger]
            rest.contains_key((pool_id, who)) implies rest[(pool_id, who)] >= 0 by {
            assert(ledger.contains_key((pool_id, who)));
        }
        total_is_not_negative(rest, pool_id);
    }
}

/// What is recorded under `key`: zero where the ledger has no such line.
pub open spec fn amount_at(ledger: Ledger, key: LedgerKey) -> int {
    if ledger.contains_key(key) {
        ledger[key]
    } else {
        0
    }
}

/// Taking a line out of the ledger lowers the total of its pool by the
/// line's amount, and leaves the totals of the other pools.
pub proof fn total_after_remove(ledger: Ledger, key: LedgerKey, pool_id: nat)
    requires
        ledger.dom().finite(),
    ensures
        ledger_total(ledger.remove(key), pool_id) == ledger_total(ledger, pool_id) - (if key.0
            == pool_id {
            amount_at(ledger, key)
        } else {
            0
        }),
{
    if ledger.contains_key(key) {
        total_splits_at(ledger, key, pool_id);
    } else {
        assert(ledger.remove(key) == ledger);
    }
}

/// Writing `amount` under `key` changes the total of the key's pool by the
/// difference to what was there, and leaves the totals of the other pools.
pub proof fn total_after_insert(
    ledger: Ledger,
    key: LedgerKey,
    amount: int,
    pool_id: nat,
)
    requires
        ledger.dom().finite(),
    ensures
        ledger_total(ledger.insert(key, amount), pool_id) == ledger_total(ledger, pool_id) + (
        if key.0 == pool_id {
            amount - amount_at(ledger, key)
        } else {
            0
        }),
{
    let written = ledger.insert(key, amount);
    total_splits_at(written, key, pool_id);
    assert(written.remove(key) == ledger.remove(key));
    total_after_remove(ledger, key, pool_id);
}

/// What the call pays into custody on account of pool `pool_id`, when it is
/// made against `store`.
pub open spec fn deposit(store: StoreView, step: Step, pool_id: nat) -> int {
    match store.transfer(step) {
        Some(TransferView::Deposit { pool_id: target, amount, .. }) => if target == pool_id {
            amount
        } else {
            0
        },
        _ => 0,
    }
}

/// What the call pays out of custody on account of pool `pool_id`, when it
/// is made against `store`.
pub open spec fn payout(store: StoreView, step: Step, pool_id: nat) -> int {
    match store.transfer(step) {
        Some(TransferView::Release { pool_id: target, amount, .. }) => if target == pool_id {
            amount
        } else {
            0
        },
        Some(TransferView::Refund { pool_id: target, amount, .. }) => if target == pool_id {
            amount
        } else {
            0
        },
        _ => 0,
    }
}

/// All that `history`, made from `start`, pays into custody on account of
/// pool `pool_id`.
pub open spec fn paid_in(start: StoreView, history: Seq<Step>, pool_id: nat) -> int
    decreases history.len(),
{
    if history.len() == 0 {
        0
    } else {
        paid_in(start, history.drop_last(), pool_id) + deposit(
            start.after_all(history.drop_last()),
            history.last(),
            pool_id,
        )
    }
}

/// All that `history`, made from `start`, pays out of custody on account of
/// pool `pool_id`.
pub open spec fn paid_out(start: StoreView, history: Seq<Step>, pool_id: nat) -> int
    decreases history.len(),
{
    if history.len() == 0 {
        0
    } else {
        paid_out(start, history.drop_last(), pool_id) + payout(
            start.after_all(history.drop_last()),
            history.last(),
            pool_id,
        )
    }
}

/// What the call takes from `who` into custody on account of pool `pool_id`,
/// when it is made against `store`.
pub open spec fn given(store: StoreView, step: Step, pool_id: nat, who: Seq<char>) -> int {
    match store.transfer(step) {
        Some(TransferView::Deposit { pool_id: target, from, amount, .. }) => if target == pool_id
            && from == who {
            amount
        } else {
            0
        },
        _ => 0,
    }
}

/// What the call pays back to `who` out of custody on account of pool
/// `pool_id`, when it is made against `store`.
pub open spec fn returned(store: StoreView, step: Step, pool_id: nat, who: Seq<char>) -> int {
    match store.transfer(step) {
        Some(TransferView::Refund { pool_id: target, to, amount, .. }) => if target == pool_id
            && to == who {
            amount
        } else {
            0
        },
        _ => 0,
    }
}

/// All that `history`, made from `start`, takes from `who` on account of
/// pool `pool_id`.
pub open spec fn given_by(
    start: StoreView,
    history: Seq<Step>,
    pool_id: nat,
    who: Seq<char>,
) -> int
    decreases history.len(),
{
    if history.len() == 0 {
        0
    } else {
        given_by(start, history.drop_last(), pool_id, who) + given(
            start.after_all(history.drop_last()),
            history.last(),
            pool_id,
            who,
        )
    }
}

/// All that `history`, made from `start`, pays back to `who` on account of
/// pool `pool_id`.
pub open spec fn returned_to(
    start: StoreView,
    history: Seq<Step>,
    pool_id: nat,
    who: Seq<char>,
) -> int
    decreases history.len(),
{
    if history.len() == 0 {
        0
    } else {
        returned_to(start, history.drop_last(), pool_id, who) + returned(
            start.after_all(history.drop_last()),
            history.last(),
            pool_id,
            who,
        )
    }
}

/// Nobody is refunded more than they gave: what a contributor has given to
/// a pool is what the ledger records for them plus what they have been paid
/// back, and the ledger never records a negative amount. This holds of every
/// history that starts from a consistent store in which the pool does not
/// exist yet.
pub proof fn refunds_never_exceed_gifts(
    start: StoreView,
    history: Seq<Step>,
    pool_id: nat,
    who: Seq<char>,
)
    requires
        start.consistent(),
        !start.pools.contains_key(pool_id),
    ensures
        start.after_all(history).recorded(pool_id, who) + returned_to(
            start,
            history,
            pool_id,
            who,
        ) == given_by(start, history, pool_id, who),
        start.after_all(history).recorded(pool_id, who) >= 0,
        returned_to(start, history, pool_id, who) <= given_by(start, history, pool_id, who),
    decreases history.len(),
{
    history_keeps_consistent(start, history);
    if history.len() > 0 {
        refunds_never_exceed_gifts(start, history.drop_last(), pool_id, who);
        history_keeps_consistent(start, history.drop_last());
    } else if start.contributions.contains_key((pool_id, who)) {
        assert(start.pools.contains_key(pool_id));
    }
}

/// Whether the books of pool `pool_id` balance after `history`, made from
/// `start`.
///
/// Before the pool exists nothing has moved. From then on the pool has
/// raised exactly what was paid in. While it is not finalized, what was paid
/// in is still recorded in the ledger or has been paid back, every line of
/// the ledger is positive, and money has gone out only after the deadline.
/// Once it is finalized, all that was paid in has been paid out, and the
/// ledger still records all of it.
pub open spec fn balanced(start: StoreView, history: Seq<Step>, pool_id: nat) -> bool {
    let end = start.after_all(history);
    let put_in = paid_in(start, history, pool_id);
    let taken_out = paid_out(start, history, pool_id);
    if !end.pools.contains_key(pool_id) {
        put_in == 0 && taken_out == 0
    } else if end.pools[pool_id].finalized {
        &&& end.pools[pool_id].raised == put_in
        &&& taken_out == put_in
        &&& ledger_total(end.contributions, pool_id) == put_in
    } else {
        &&& end.pools[pool_id].raised == put_in
        &&& ledger_total(end.contributions, pool_id) + taken_out == put_in
        &&& forall|who: Seq<char>| #[trigger]
            end.contributions.contains_key((pool_id, who)) ==> end.contributions[(pool_id, who)]
                > 0
        &&& taken_out != 0 ==> history.len() > 0 && end.pools[pool_id].deadline
            < history.last().now
    }
}

/// The books of a pool balance after every history that starts from a
/// consistent store in which the pool does not exist yet, as long as the
/// clock does not run backwards.
pub proof fn books_balance(start: StoreView, history: Seq<Step>, pool_id: nat)
    requires
        start.consistent(),
        !start.pools.contains_key(pool_id),
        clock_runs_forward(history),
    ensures
        start.after_all(history).consistent(),
        balanced(start, history, pool_id),
    decreases history.len(),
{
    history_keeps_consistent(start, history);
    if history.len() > 0 {
        let earlier = history.drop_last();
        let step = history.last();
        let before = start.after_all(earlier);
        let end = before.after(step);
        assert(clock_runs_forward(earlier)) by {
            assert forall|i: int, j: int| 0 <= i <= j < earlier.len() implies earlier[i].now
                <= earlier[j].now by {
                assert(earlier[i] == history[i] && earlier[j] == history[j]);
            }
        }
        books_balance(start, earlier, pool_id);
        if earlier.len() > 0 {
            assert(earlier.last() == history[earlier.len() - 1]);
            assert(earlier.last().now <= step.now);
        }
        if before.rejection(step) is None {
            match step.call {
                Call::Initialize => {},
                Call::CreatePool { .. } => {
                    if !before.pools.contains_key(pool_id) {
                        assert forall|who: Seq<char>|
                            !end.contributions.contains_key((pool_id, who)) by {
                            if before.contributions.contains_key((pool_id, who)) {
                                assert(before.pools.contains_key(pool_id));
                            }
                        }
                        total_of_absent_pool(end.contributions, pool_id);
                    }
                },
                Call::Contribute { pool_id: target, user, amount } => {
                    total_after_insert(
                        before.contributions,
                        (target, user),
                        before.recorded(target, user) + amount,
                        pool_id,
                    );
                },
                Call::Finalize { pool_id: target, .. } => {},
                Call::Refund { pool_id: target, user } => {
                    total_after_remove(before.contributions, (target, user), pool_id);
                },
            }
        }
    } else {
        assert forall|who: Seq<char>| !start.contributions.contains_key((pool_id, who)) by {
            if start.contributions.contains_key((pool_id, who)) {
                assert(start.pools.contains_key(pool_id));
            }
        }
    }
}

/// What a pool has raised is the sum of what the ledger records for it, as
/// long as nothing has been refunded from it. This holds of every history
/// that starts from a consistent store in which the pool does not exist yet,
/// as long as the clock does not run backwards.
pub proof fn raised_is_what_the_ledger_records(start: StoreView, history: Seq<Step>, pool_id: nat)
    requires
        start.consistent(),
        !start.pools.contains_key(pool_id),
        clock_runs_forward(history),
    ensures
        ({
            let end = start.after_all(history);
            end.pools.contains_key(pool_id) && (end.pools[pool_id].finalized || paid_out(
                start,
                history,
                pool_id,
            ) == 0) ==> end.pools[pool_id].raised == ledger_total(end.contributions, pool_id)
        }),
{
    books_balance(start, history, pool_id);
}

/// Conservation: on account of one pool, a history never pays out more than
/// it has paid in. This holds of every history that starts from a consistent
/// store in which the pool does not exist yet, as long as the clock does not
/// run backwards.
pub proof fn payouts_never_exceed_deposits(start: StoreView, history: Seq<Step>, pool_id: nat)
    requires
        start.consistent(),
        !start.pools.contains_key(pool_id),
        clock_runs_forward(history),
    ensures
        paid_out(start, history, pool_id) <= paid_in(start, history, pool_id),
{
    books_balance(start, history, pool_id);
    let end = start.after_all(history);
    if end.pools.contains_key(pool_id) && !end.pools[pool_id].finalized {
        assert forall|who: Seq<char>| #[trigger]
            end.contributions.contains_key((pool_id, who)) implies end.contributions[(
            pool_id,
            who,
        )] >= 0 by {}
        total_is_not_negative(end.contributions, pool_id);
    }
}

} // verus!
