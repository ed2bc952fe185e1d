use collective_purchase::{CollectivePurchase, EscrowError, Principal, Store, Transfer};

const T: u64 = 1_700_000_000;

fn party(name: &str) -> Principal {
    Principal::from_text(name)
}

/// A store with one pool: goal 100, deadline `T + 10`, opened at `T`.
fn store_with_pool() -> (Store, u32) {
    let mut store = Store::new();
    assert_eq!(CollectivePurchase::initialize(&mut store), Ok(()));
    let id = CollectivePurchase::create_pool(
        &mut store,
        T,
        party("creator"),
        party("token"),
        party("supplier"),
        100,
        T + 10,
    )
    .unwrap();
    (store, id)
}

#[test]
fn goal_met_before_the_deadline_is_paid_to_the_supplier() {
    let (mut store, id) = store_with_pool();
    assert_eq!(id, 1);
    assert_eq!(
        CollectivePurchase::contribute(&mut store, T + 1, id, party("alice"), 60),
        Ok(Transfer::Deposit {
            pool_id: 1,
            token: party("token"),
            from: party("alice"),
            amount: 60
        })
    );
    assert_eq!(
        CollectivePurchase::contribute(&mut store, T + 2, id, party("bob"), 40),
        Ok(Transfer::Deposit { pool_id: 1, token: party("token"), from: party("bob"), amount: 40 })
    );
    assert_eq!(CollectivePurchase::get_pool(&store, id).unwrap().raised, 100);
    assert_eq!(
        CollectivePurchase::finalize(&mut store, T + 9, id, party("creator")),
        Ok(Transfer::Release {
            pool_id: 1,
            token: party("token"),
            to: party("supplier"),
            amount: 100
        })
    );
    let pool = CollectivePurchase::get_pool(&store, id).unwrap();
    assert!(pool.finalized);
    assert_eq!(pool.raised, 100);
}

#[test]
fn goal_missed_is_refunded_once_after_the_deadline() {
    let (mut store, id) = store_with_pool();
    assert!(CollectivePurchase::contribute(&mut store, T + 3, id, party("alice"), 30).is_ok());
    assert_eq!(
        CollectivePurchase::finalize(&mut store, T + 11, id, party("creator")),
        Err(EscrowError::DeadlinePassed)
    );
    assert_eq!(
        CollectivePurchase::refund(&mut store, T + 11, id, party("alice")),
        Ok(Transfer::Refund { pool_id: 1, token: party("token"), to: party("alice"), amount: 30 })
    );
    assert_eq!(store.contribution(id, &party("alice")), None);
    assert_eq!(
        CollectivePurchase::refund(&mut store, T + 11, id, party("alice")),
        Err(EscrowError::NoContribution)
    );
    assert_eq!(
        CollectivePurchase::refund(&mut store, T + 500, id, party("alice")),
        Err(EscrowError::NoContribution)
    );
}

#[test]
fn zero_contribution_is_invalid_and_changes_nothing() {
    let (mut store, id) = store_with_pool();
    assert!(CollectivePurchase::contribute(&mut store, T + 1, id, party("alice"), 25).is_ok());
    assert_eq!(
        CollectivePurchase::contribute(&mut store, T + 2, id, party("alice"), 0),
        Err(EscrowError::InvalidAmount)
    );
    assert_eq!(CollectivePurchase::get_pool(&store, id).unwrap().raised, 25);
    assert_eq!(store.contribution(id, &party("alice")), Some(25));
    assert_eq!(
        CollectivePurchase::contribute(&mut store, T + 2, id, party("bob"), -5),
        Err(EscrowError::InvalidAmount)
    );
    assert_eq!(CollectivePurchase::get_pool(&store, id).unwrap().raised, 25);
    assert_eq!(store.contribution(id, &party("bob")), None);
}

#[test]
fn contributions_add_up_per_pool_and_per_contributor() {
    let (mut store, id) = store_with_pool();
    let gifts: [(&str, i128); 6] =
        [("alice", 5), ("bob", 7), ("alice", 11), ("carol", 1), ("bob", 2), ("alice", 3)];
    let mut now = T;
    for (who, amount) in gifts {
        now += 1;
        assert_eq!(
            CollectivePurchase::contribute(&mut store, now, id, party(who), amount),
            Ok(Transfer::Deposit { pool_id: id, token: party("token"), from: party(who), amount })
        );
    }
    assert_eq!(CollectivePurchase::get_pool(&store, id).unwrap().raised, 29);
    assert_eq!(store.contribution(id, &party("alice")), Some(19));
    assert_eq!(store.contribution(id, &party("bob")), Some(9));
    assert_eq!(store.contribution(id, &party("carol")), Some(1));
    assert_eq!(store.contribution(id, &party("dave")), None);
}

#[test]
fn a_finalized_pool_stays_finalized() {
    let (mut store, id) = store_with_pool();
    assert!(CollectivePurchase::contribute(&mut store, T + 1, id, party("alice"), 150).is_ok());
    assert!(CollectivePurchase::finalize(&mut store, T + 2, id, party("creator")).is_ok());
    let settled = CollectivePurchase::get_pool(&store, id).unwrap();

    assert_eq!(
        CollectivePurchase::finalize(&mut store, T + 3, id, party("creator")),
        Err(EscrowError::PoolFinalized)
    );
    assert_eq!(
        CollectivePurchase::contribute(&mut store, T + 3, id, party("bob"), 10),
        Err(EscrowError::PoolFinalized)
    );
    assert_eq!(
        CollectivePurchase::refund(&mut store, T + 3, id, party("alice")),
        Err(EscrowError::PoolFinalized)
    );
    assert_eq!(
        CollectivePurchase::refund(&mut store, T + 30, id, party("alice")),
        Err(EscrowError::PoolFinalized)
    );
    assert_eq!(
        CollectivePurchase::finalize(&mut store, T + 30, id, party("creator")),
        Err(EscrowError::PoolFinalized)
    );
    // Opening other pools does not touch it either.
    let other = CollectivePurchase::create_pool(
        &mut store,
        T + 31,
        party("creator"),
        party("token"),
        party("supplier"),
        5,
        T + 40,
    )
    .unwrap();
    assert_eq!(other, id + 1);
    assert_eq!(CollectivePurchase::get_pool(&store, id).unwrap(), settled);
}

#[test]
fn finalizing_and_refunding_exclude_each_other() {
    // Finalized first: no refund afterwards, before or after the deadline.
    let (mut store, id) = store_with_pool();
    assert!(CollectivePurchase::contribute(&mut store, T + 1, id, party("alice"), 100).is_ok());
    assert!(CollectivePurchase::finalize(&mut store, T + 10, id, party("creator")).is_ok());
    assert_eq!(
        CollectivePurchase::refund(&mut store, T + 11, id, party("alice")),
        Err(EscrowError::PoolFinalized)
    );

    // Refunded first: no finalization afterwards.
    let (mut store, id) = store_with_pool();
    assert!(CollectivePurchase::contribute(&mut store, T + 1, id, party("alice"), 99).is_ok());
    assert!(CollectivePurchase::refund(&mut store, T + 11, id, party("alice")).is_ok());
    assert_eq!(
        CollectivePurchase::finalize(&mut store, T + 11, id, party("creator")),
        Err(EscrowError::DeadlinePassed)
    );
    assert!(!CollectivePurchase::get_pool(&store, id).unwrap().finalized);
}

#[test]
fn a_pool_never_pays_out_more_than_it_took_in() {
    let (mut store, id) = store_with_pool();
    let mut paid_in: i128 = 0;
    let mut paid_out: i128 = 0;
    for (who, amount) in [("alice", 20), ("bob", 30), ("alice", 15), ("carol", 4)] {
        let transfer =
            CollectivePurchase::contribute(&mut store, T + 5, id, party(who), amount).unwrap();
        paid_in += transfer.amount();
    }
    assert_eq!(paid_in, 69);
    // The goal was missed; everybody asks for a refund, some more than once.
    for who in ["bob", "alice", "bob", "dave", "carol", "alice", "carol"] {
        if let Ok(transfer) = CollectivePurchase::refund(&mut store, T + 20, id, party(who)) {
            assert_eq!(
                transfer,
                Transfer::Refund {
                    pool_id: id,
                    token: party("token"),
                    to: party(who),
                    amount: transfer.amount()
                }
            );
            paid_out += transfer.amount();
        }
        assert!(paid_out <= paid_in);
    }
    assert_eq!(paid_out, 69);
    // Refunds leave the amount raised as it was.
    assert_eq!(CollectivePurchase::get_pool(&store, id).unwrap().raised, 69);
    assert!(CollectivePurchase::finalize(&mut store, T + 21, id, party("creator")).is_err());
}

#[test]
fn a_goal_met_but_never_finalized_is_stranded() {
    let (mut store, id) = store_with_pool();
    assert!(CollectivePurchase::contribute(&mut store, T + 10, id, party("alice"), 100).is_ok());
    assert_eq!(
        CollectivePurchase::finalize(&mut store, T + 11, id, party("creator")),
        Err(EscrowError::DeadlinePassed)
    );
    assert_eq!(
        CollectivePurchase::refund(&mut store, T + 11, id, party("alice")),
        Err(EscrowError::GoalReached)
    );
    assert_eq!(store.contribution(id, &party("alice")), Some(100));
}

#[test]
fn pools_are_kept_apart() {
    let (mut store, first) = store_with_pool();
    let second = CollectivePurchase::create_pool(
        &mut store,
        T,
        party("other creator"),
        party("other token"),
        party("other supplier"),
        10,
        T + 5,
    )
    .unwrap();
    assert_eq!((first, second), (1, 2));
    assert!(CollectivePurchase::contribute(&mut store, T + 1, first, party("alice"), 40).is_ok());
    assert_eq!(
        CollectivePurchase::contribute(&mut store, T + 1, second, party("alice"), 10),
        Ok(Transfer::Deposit {
            pool_id: 2,
            token: party("other token"),
            from: party("alice"),
            amount: 10
        })
    );
    assert_eq!(store.contribution(first, &party("alice")), Some(40));
    assert_eq!(store.contribution(second, &party("alice")), Some(10));
    assert_eq!(
        CollectivePurchase::finalize(&mut store, T + 2, second, party("creator")),
        Err(EscrowError::NotCreator)
    );
    assert_eq!(
        CollectivePurchase::finalize(&mut store, T + 2, second, party("other creator")),
        Ok(Transfer::Release {
            pool_id: 2,
            token: party("other token"),
            to: party("other supplier"),
            amount: 10
        })
    );
    assert_eq!(CollectivePurchase::get_pool(&store, first).unwrap().raised, 40);
    assert!(!CollectivePurchase::get_pool(&store, first).unwrap().finalized);
    assert_eq!(
        CollectivePurchase::refund(&mut store, T + 11, first, party("alice")),
        Ok(Transfer::Refund { pool_id: 1, token: party("token"), to: party("alice"), amount: 40 })
    );
    assert_eq!(store.contribution(second, &party("alice")), Some(10));
}

#[test]
fn a_long_run_keeps_the_books() {
    let names = ["alice", "bob", "carol", "dave"];
    let mut store = Store::new();
    CollectivePurchase::initialize(&mut store).unwrap();
    let mut now = T;
    let mut pools: Vec<u32> = Vec::new();
    for (goal, life) in [(50i128, 40u64), (400, 25), (90, 60)] {
        pools.push(
            CollectivePurchase::create_pool(
                &mut store,
                now,
                party("creator"),
                party("token"),
                party("supplier"),
                goal,
                now + life,
            )
            .unwrap(),
        );
    }
    let mut paid_in = [0i128; 3];
    let mut paid_out = [0i128; 3];
    let mut given = [[0i128; 4]; 3];
    let mut returned = [[0i128; 4]; 3];
    let mut released = [false; 3];
    let mut refunded = [false; 3];
    let mut seed: u64 = 0x2545_f491_4f6c_dd1d;
    for round in 0..600u64 {
        seed = seed.wrapping_mul(6364136223846793005).wrapping_add(1442695040888963407);
        let pick = seed >> 33;
        let p = (pick % 3) as usize;
        let u = ((pick / 3) % 4) as usize;
        let amount = ((pick / 12) % 23) as i128 - 2;
        if round % 7 == 0 {
            now += 1;
        }
        let outcome = match (pick / 276) % 3 {
            0 => CollectivePurchase::contribute(&mut store, now, pools[p], party(names[u]), amount),
            1 => CollectivePurchase::finalize(&mut store, now, pools[p], party("creator")),
            _ => CollectivePurchase::refund(&mut store, now, pools[p], party(names[u])),
        };
        match outcome {
            Ok(Transfer::Deposit { pool_id, from, amount: moved, .. }) => {
                assert_eq!((pool_id, from, moved), (pools[p], party(names[u]), amount));
                assert!(moved > 0);
                paid_in[p] += moved;
                given[p][u] += moved;
            }
            Ok(Transfer::Release { pool_id, to, amount: moved, .. }) => {
                assert_eq!((pool_id, to), (pools[p], party("supplier")));
                assert_eq!(moved, paid_in[p]);
                assert!(!released[p]);
                released[p] = true;
                paid_out[p] += moved;
            }
            Ok(Transfer::Refund { pool_id, to, amount: moved, .. }) => {
                assert_eq!((pool_id, to), (pools[p], party(names[u])));
                assert_eq!(moved, given[p][u] - returned[p][u]);
                assert!(moved > 0);
                refunded[p] = true;
                paid_out[p] += moved;
                returned[p][u] += moved;
            }
            Err(_) => {}
        }
        for q in 0..3 {
            let pool = CollectivePurchase::get_pool(&store, pools[q]).unwrap();
            assert_eq!(pool.raised, paid_in[q]);
            assert_eq!(pool.finalized, released[q]);
            assert!(paid_out[q] <= paid_in[q]);
            assert!(!(released[q] && refunded[q]));
            for (v, name) in names.iter().enumerate() {
                let recorded = store.contribution(pools[q], &party(name)).unwrap_or(0);
                assert_eq!(recorded + returned[q][v], given[q][v]);
                assert!(returned[q][v] <= given[q][v]);
            }
        }
    }
    // The run saw every kind of outcome.
    assert!(released.iter().any(|&done| done));
    assert!(refunded.iter().any(|&done| done));
    assert!(paid_in.iter().all(|&sum| sum > 0));
}
