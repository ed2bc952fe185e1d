use collective_purchase::{
    DataKey, EscrowError, Phase, Pool, Principal, Store, Transfer,
};

fn party(name: &str) -> Principal {
    Principal::from_text(name)
}

fn pool(goal: i128, raised: i128, deadline: u64, finalized: bool) -> Pool {
    Pool {
        id: 9,
        creator: party("creator"),
        token: party("token"),
        supplier: party("supplier"),
        goal,
        raised,
        deadline,
        finalized,
    }
}

#[test]
fn principals_are_told_apart_by_name() {
    let alice = Principal::from_text("alice");
    assert!(alice.same_as(&Principal::new(String::from("alice"))));
    assert!(alice.same_as(&alice.clone()));
    assert!(!alice.same_as(&party("Alice")));
    assert!(!alice.same_as(&party("alic")));
    assert!(!alice.same_as(&party("")));
    assert!(party("").same_as(&party("")));
    assert_eq!(alice.name(), "alice");
    assert_eq!(alice, alice.clone());
}

#[test]
fn a_pool_is_opened_with_nothing_raised() {
    let opened =
        Pool::open(100, 3, party("creator"), party("token"), party("supplier"), 250, 101).unwrap();
    assert_eq!(
        opened,
        Pool {
            id: 3,
            creator: party("creator"),
            token: party("token"),
            supplier: party("supplier"),
            goal: 250,
            raised: 0,
            deadline: 101,
            finalized: false,
        }
    );
    assert_eq!(
        Pool::open(100, 3, party("c"), party("t"), party("s"), 0, 101),
        Err(EscrowError::InvalidGoal)
    );
    assert_eq!(
        Pool::open(100, 3, party("c"), party("t"), party("s"), 1, 100),
        Err(EscrowError::InvalidDeadline)
    );
    assert_eq!(
        Pool::open(u64::MAX, 3, party("c"), party("t"), party("s"), 1, u64::MAX),
        Err(EscrowError::InvalidDeadline)
    );
}

#[test]
fn the_phase_follows_the_record_and_the_clock() {
    assert_eq!(pool(100, 0, 50, false).phase(0), Phase::Open);
    assert_eq!(pool(100, 99, 50, false).phase(50), Phase::Open);
    assert_eq!(pool(100, 100, 50, false).phase(50), Phase::Funded);
    assert_eq!(pool(100, 250, 50, false).phase(1), Phase::Funded);
    assert_eq!(pool(100, 99, 50, false).phase(51), Phase::Failed);
    assert_eq!(pool(100, 0, 50, false).phase(u64::MAX), Phase::Failed);
    assert_eq!(pool(100, 100, 50, false).phase(51), Phase::Stranded);
    assert_eq!(pool(100, 100, 50, true).phase(10), Phase::Finalized);
    assert_eq!(pool(100, 100, 50, true).phase(51), Phase::Finalized);
}

#[test]
fn a_pool_record_takes_contributions_while_it_may() {
    let mut record = pool(100, 10, 50, false);
    assert_eq!(record.contribute(50, 15), Ok(()));
    assert_eq!(record, pool(100, 25, 50, false));
    assert_eq!(record.contribute(51, 15), Err(EscrowError::DeadlinePassed));
    assert_eq!(record.contribute(50, 0), Err(EscrowError::InvalidAmount));
    assert_eq!(record.contribute(50, -15), Err(EscrowError::InvalidAmount));
    assert_eq!(record, pool(100, 25, 50, false));
    let mut settled = pool(100, 100, 50, true);
    assert_eq!(settled.contribute(1, 15), Err(EscrowError::PoolFinalized));
    assert_eq!(settled, pool(100, 100, 50, true));
}

#[test]
fn a_pool_record_is_finalized_by_its_creator_when_funded() {
    let mut record = pool(100, 130, 50, false);
    assert_eq!(record.finalize(50, &party("supplier")), Err(EscrowError::NotCreator));
    assert_eq!(record.finalize(51, &party("creator")), Err(EscrowError::DeadlinePassed));
    assert_eq!(record, pool(100, 130, 50, false));
    assert_eq!(record.finalize(50, &party("creator")), Ok(130));
    assert_eq!(record, pool(100, 130, 50, true));
    assert_eq!(record.finalize(50, &party("creator")), Err(EscrowError::PoolFinalized));
    let mut short = pool(100, 99, 50, false);
    assert_eq!(short.finalize(50, &party("creator")), Err(EscrowError::GoalNotReached));
    assert_eq!(short, pool(100, 99, 50, false));
}

#[test]
fn a_pool_record_refunds_the_whole_recorded_amount() {
    let failed = pool(100, 99, 50, false);
    assert_eq!(failed.refund(51, 42), Ok(42));
    assert_eq!(failed.refund(51, 1), Ok(1));
    assert_eq!(failed.refund(51, 0), Err(EscrowError::NoContribution));
    assert_eq!(failed.refund(51, -3), Err(EscrowError::NoContribution));
    assert_eq!(failed.refund(50, 42), Err(EscrowError::DeadlineNotPassed));
    assert_eq!(pool(100, 100, 50, false).refund(51, 42), Err(EscrowError::GoalReached));
    assert_eq!(pool(100, 100, 50, true).refund(51, 42), Err(EscrowError::PoolFinalized));
}

#[test]
fn a_new_store_holds_nothing() {
    let store = Store::new();
    assert_eq!(store.next_pool_id(), None);
    assert!(!store.has(&DataKey::NextPoolId));
    assert!(!store.has(&DataKey::Pools(1)));
    assert!(!store.has(&DataKey::Contributions(1, party("alice"))));
    assert_eq!(store.pool(1), None);
    assert_eq!(store.contribution(1, &party("alice")), None);
}

#[test]
fn the_store_keeps_what_is_put_under_each_key() {
    let mut store = Store::new();
    store.set_next_pool_id(7);
    store.put_pool(4, pool(100, 10, 50, false));
    store.record_contribution(4, &party("alice"), 10);
    assert!(store.has(&DataKey::NextPoolId));
    assert!(store.has(&DataKey::Pools(4)));
    assert!(!store.has(&DataKey::Pools(9)));
    assert!(store.has(&DataKey::Contributions(4, party("alice"))));
    assert!(!store.has(&DataKey::Contributions(4, party("bob"))));
    assert!(!store.has(&DataKey::Contributions(5, party("alice"))));
    assert_eq!(store.next_pool_id(), Some(7));
    assert_eq!(store.pool(4), Some(&pool(100, 10, 50, false)));
    // A later record replaces the earlier one.
    store.put_pool(4, pool(100, 60, 50, false));
    assert_eq!(store.pool(4), Some(&pool(100, 60, 50, false)));
    store.set_next_pool_id(8);
    assert_eq!(store.next_pool_id(), Some(8));
}

#[test]
fn the_ledger_accumulates_and_clears_whole_lines() {
    let mut store = Store::new();
    store.record_contribution(1, &party("alice"), 10);
    store.record_contribution(1, &party("bob"), 5);
    store.record_contribution(2, &party("alice"), 1);
    store.record_contribution(1, &party("alice"), 32);
    assert_eq!(store.contribution(1, &party("alice")), Some(42));
    assert_eq!(store.contribution(1, &party("bob")), Some(5));
    assert_eq!(store.contribution(2, &party("alice")), Some(1));
    assert_eq!(store.contribution(2, &party("bob")), None);

    assert_eq!(store.clear_contribution(1, &party("alice")), 42);
    assert_eq!(store.contribution(1, &party("alice")), None);
    assert_eq!(store.contribution(1, &party("bob")), Some(5));
    assert_eq!(store.contribution(2, &party("alice")), Some(1));
    assert_eq!(store.clear_contribution(1, &party("alice")), 0);
    assert_eq!(store.clear_contribution(3, &party("carol")), 0);
    assert_eq!(store.clear_contribution(2, &party("alice")), 1);
    assert_eq!(store.clear_contribution(1, &party("bob")), 5);
    assert_eq!(store.contribution(1, &party("bob")), None);
    // A cleared contributor starts again from nothing.
    store.record_contribution(1, &party("alice"), 3);
    assert_eq!(store.contribution(1, &party("alice")), Some(3));
}

#[test]
fn a_transfer_tells_its_pool_and_its_amount() {
    let deposit =
        Transfer::Deposit { pool_id: 1, token: party("token"), from: party("alice"), amount: 12 };
    let release =
        Transfer::Release { pool_id: 2, token: party("token"), to: party("bob"), amount: 34 };
    let refund =
        Transfer::Refund { pool_id: 3, token: party("token"), to: party("alice"), amount: 56 };
    assert_eq!((deposit.pool_id(), deposit.amount()), (1, 12));
    assert_eq!((release.pool_id(), release.amount()), (2, 34));
    assert_eq!((refund.pool_id(), refund.amount()), (3, 56));
    assert_ne!(
        refund,
        Transfer::Release { pool_id: 3, token: party("token"), to: party("alice"), amount: 56 }
    );
}
