//! The escrow's persistent state: the identifier counter, the pool records
//! and the contribution ledger, each reached by a key.
//!
//! A store holds whatever is put into it. The operations of the escrow keep
//! it consistent; a host that fills a store from its own records is trusted
//! to put in what an earlier call left there.

use crate::pool::{Pool, PoolView};
use crate::principal::Principal;
use std::collections::HashMap;
use vstd::prelude::*;

verus! {

broadcast use vstd::std_specs::hash::group_hash_axioms;

/// The key of one piece of state.
#[derive(Debug, PartialEq, Eq)]
pub enum DataKey {
    /// The identifier that the next pool gets.
    NextPoolId,
    /// The record of the pool with the given identifier.
    Pools(u32),
    /// What the given contributor has put into the given pool.
    Contributions(u32, Principal),
}

/// A key, with the contributor's name as text.
pub enum DataKeyView {
    NextPoolId,
    Pools(nat),
    Contributions(nat, Seq<char>),
}

impl View for DataKey {
    type V = DataKeyView;

    open spec fn view(&self) -> DataKeyView {
        match self {
            DataKey::NextPoolId => DataKeyView::NextPoolId,
            DataKey::Pools(id) => DataKeyView::Pools(*id as nat),
            DataKey::Contributions(id, who) => DataKeyView::Contributions(*id as nat, who@),
        }
    }
}

/// The key of a line of the contribution ledger: the pool and the name of
/// the contributor.
pub type LedgerKey = (nat, Seq<char>);

/// What a contribution ledger records: an amount for each of its lines.
pub type Ledger = Map<LedgerKey, int>;

/// One line of the contribution ledger.
struct Entry {
    pool_id: u32,
    contributor: Principal,
    amount: i128,
}

/// The state of the escrow.
///
/// The ledger is kept as a list of lines, at most one for each pool and
/// contributor.
pub struct Store {
    next_pool_id: Option<u32>,
    pools: HashMap<u32, Pool>,
    entries: Vec<Entry>,
}

/// What a store holds: the counter if it has been set, the pool records by
/// identifier, and the recorded amounts by pool and contributor.
pub struct StoreView {
    pub next_pool_id: Option<nat>,
    pub pools: Map<nat, PoolView>,
    pub contributions: Ledger,
}

impl StoreView {
    /// The store that holds nothing.
    pub open spec fn empty() -> StoreView {
        StoreView { next_pool_id: None, pools: Map::empty(), contributions: Map::empty() }
    }

    /// Whether something is stored under `key`.
    pub open spec fn has(self, key: DataKeyView) -> bool {
        match key {
            DataKeyView::NextPoolId => self.next_pool_id is Some,
            DataKeyView::Pools(id) => self.pools.contains_key(id),
            DataKeyView::Contributions(id, who) => self.contributions.contains_key((id, who)),
        }
    }

    /// The amount recorded for `who` in pool `pool_id`: zero where the ledger
    /// has no line for them.
    pub open spec fn recorded(self, pool_id: nat, who: Seq<char>) -> int {
        if self.contributions.contains_key((pool_id, who)) {
            self.contributions[(pool_id, who)]
        } else {
            0
        }
    }
}

spec fn key_at(entries: Seq<Entry>, i: int) -> LedgerKey {
    (entries[i].pool_id as nat, entries[i].contributor@)
}

spec fn holds(entries: Seq<Entry>, key: LedgerKey) -> bool {
    exists|i: int| 0 <= i < entries.len() && #[trigger] key_at(entries, i) == key
}

spec fn line_of(entries: Seq<Entry>, key: LedgerKey) -> int {
    choose|i: int| 0 <= i < entries.len() && #[trigger] key_at(entries, i) == key
}

spec fn distinct_keys(entries: Seq<Entry>) -> bool {
    forall|i: int, j: int|
        0 <= i < j < entries.len() ==> #[trigger] key_at(entries, i) != #[trigger] key_at(
            entries,
            j,
        )
}

spec fn ledger_of(entries: Seq<Entry>) -> Ledger {
    Map::new(
        |key: LedgerKey| holds(entries, key),
        |key: LedgerKey| entries[line_of(entries, key)].amount as int,
    )
}

/// With distinct keys, the line found under the key of line `i` is line `i`
/// itself, and the ledger holds its amount under that key.
proof fn lemma_line(entries: Seq<Entry>, i: int)
    requires
        distinct_keys(entries),
        0 <= i < entries.len(),
    ensures
        holds(entries, key_at(entries, i)),
        line_of(entries, key_at(entries, i)) == i,
        ledger_of(entries).contains_key(key_at(entries, i)),
        ledger_of(entries)[key_at(entries, i)] == entries[i].amount,
{
    let found = line_of(entries, key_at(entries, i));
    assert(key_at(entries, found) == key_at(entries, i));
}

/// A ledger has finitely many lines.
proof fn lemma_finite(entries: Seq<Entry>)
    ensures
        ledger_of(entries).dom().finite(),
    decreases entries.len(),
{
    if entries.len() == 0 {
        assert(ledger_of(entries).dom() =~= Set::empty());
    } else {
        let earlier = entries.drop_last();
        let last = key_at(entries, entries.len() - 1);
        lemma_finite(earlier);
        assert forall|key: LedgerKey|
            ledger_of(entries).dom().contains(key) == ledger_of(earlier).dom().insert(
                last,
            ).contains(key) by {
            if holds(entries, key) {
                let i = line_of(entries, key);
                if i < earlier.len() {
                    assert(key_at(earlier, i) == key);
                }
            }
            if holds(earlier, key) {
                let i = line_of(earlier, key);
                assert(key_at(entries, i) == key);
            }
        }
        assert(ledger_of(entries).dom() =~= ledger_of(earlier).dom().insert(last));
    }
}

/// Replacing the amount of one line changes the ledger at that line's key
/// and nowhere else.
proof fn lemma_replaced(before: Seq<Entry>, after: Seq<Entry>, i: int)
    requires
        distinct_keys(before),
        0 <= i < before.len(),
        after.len() == before.len(),
        key_at(after, i) == key_at(before, i),
        forall|j: int| 0 <= j < before.len() && j != i ==> after[j] == before[j],
    ensures
        distinct_keys(after),
        ledger_of(after) == ledger_of(before).insert(key_at(before, i), after[i].amount as int),
{
    // The keys are where they were.
    assert forall|j: int| 0 <= j < before.len() implies #[trigger] key_at(after, j) == key_at(
        before,
        j,
    ) by {}
    let target = ledger_of(before).insert(key_at(before, i), after[i].amount as int);
    assert forall|key: LedgerKey| #[trigger]
        ledger_of(after).contains_key(key) == target.contains_key(key) by {
        if holds(before, key) {
            assert(key_at(after, line_of(before, key)) == key);
        }
    }
    assert forall|key: LedgerKey| #[trigger]
        ledger_of(after).contains_key(key) implies ledger_of(after)[key] == target[key] by {
        let j = line_of(after, key);
        lemma_line(after, j);
        lemma_line(before, j);
    }
    assert(ledger_of(after) =~= target);
}

/// A new line under a key that the ledger did not hold adds that key.
proof fn lemma_appended(before: Seq<Entry>, after: Seq<Entry>)
    requires
        distinct_keys(before),
        after.len() == before.len() + 1,
        forall|j: int| 0 <= j < before.len() ==> after[j] == before[j],
        !holds(before, key_at(after, before.len() as int)),
    ensures
        distinct_keys(after),
        ledger_of(after) == ledger_of(before).insert(
            key_at(after, before.len() as int),
            after[before.len() as int].amount as int,
        ),
{
    let n = before.len() as int;
    // The old lines keep their keys.
    assert forall|j: int| 0 <= j < n implies #[trigger] key_at(after, j) == key_at(before, j) by {}
    let target = ledger_of(before).insert(key_at(after, n), after[n].amount as int);
    assert forall|key: LedgerKey| #[trigger]
        ledger_of(after).contains_key(key) == target.contains_key(key) by {
        if holds(before, key) {
            assert(key_at(after, line_of(before, key)) == key);
        }
    }
    assert forall|key: LedgerKey| #[trigger]
        ledger_of(after).contains_key(key) implies ledger_of(after)[key] == target[key] by {
        let j = line_of(after, key);
        lemma_line(after, j);
        if j < n {
            lemma_line(before, j);
        }
    }
    assert(ledger_of(after) =~= target);
}

/// Where line `j` of a ledger stood before line `i` was taken out.
spec fn stood_at(j: int, i: int) -> int {
    if j < i {
        j
    } else {
        j + 1
    }
}

/// Taking a line out removes its key from the ledger and leaves the rest.
proof fn lemma_removed(before: Seq<Entry>, after: Seq<Entry>, i: int)
    requires
        distinct_keys(before),
        0 <= i < before.len(),
        after == before.remove(i),
    ensures
        distinct_keys(after),
        ledger_of(after) == ledger_of(before).remove(key_at(before, i)),
{
    assert forall|j: int| 0 <= j < after.len() implies #[trigger] key_at(after, j) == key_at(
        before,
        stood_at(j, i),
    ) by {}
    let target = ledger_of(before).remove(key_at(before, i));
    assert forall|key: LedgerKey| #[trigger]
        ledger_of(after).contains_key(key) == target.contains_key(key) by {
        if holds(after, key) {
            let j = stood_at(line_of(after, key), i);
            assert(key_at(before, j) == key && j != i);
        }
        if holds(before, key) && key != key_at(before, i) {
            let j = line_of(before, key);
            assert(key_at(after, if j < i { j } else { j - 1 }) == key);
        }
    }
    assert forall|key: LedgerKey| #[trigger]
        ledger_of(after).contains_key(key) implies ledger_of(after)[key] == target[key] by {
        let j = line_of(after, key);
        lemma_line(after, j);
        lemma_line(before, stood_at(j, i));
    }
    assert(ledger_of(after) =~= target);
}

impl View for Store {
    type V = StoreView;

    closed spec fn view(&self) -> StoreView {
        StoreView {
            next_pool_id: match self.next_pool_id {
                Some(id) => Some(id as nat),
                None => None,
            },
            pools: Map::new(
                |id: nat| id <= u32::MAX && self.pools@.contains_key(id as u32),
                |id: nat| self.pools@[id as u32]@,
            ),
            contributions: ledger_of(self.entries@),
        }
    }
}

impl Store {
    #[verifier::type_invariant]
    spec fn well_formed(&self) -> bool {
        distinct_keys(self.entries@)
    }

    /// What is recorded for a contributor fits the machine integer that
    /// holds it.
    pub proof fn recorded_fits(&self, pool_id: nat, who: Seq<char>)
        ensures
            i128::MIN <= self@.recorded(pool_id, who) <= i128::MAX,
    {
    }

    /// The ledger of a store has finitely many lines.
    pub proof fn ledger_is_finite(&self)
        ensures
            self@.contributions.dom().finite(),
    {
        lemma_finite(self.entries@);
    }

    /// A store that holds nothing.
    pub fn new() -> (store: Store)
        ensures
            store@ == StoreView::empty(),
    {
        let store = Store { next_pool_id: None, pools: HashMap::new(), entries: Vec::new() };
        assert(store@.pools =~= Map::empty());
        assert(store@.contributions =~= Map::empty());
        store
    }

    /// The line of the ledger that is kept for `who` in pool `pool_id`.
    fn find(&self, pool_id: u32, who: &Principal) -> (r: Option<usize>)
        ensures
            (match r {
                Some(i) => {
                    &&& i < self.entries.len()
                    &&& key_at(self.entries@, i as int) == (pool_id as nat, who@)
                },
                None => !holds(self.entries@, (pool_id as nat, who@)),
            }),
    {
        let mut i: usize = 0;
        while i < self.entries.len()
            invariant
                i <= self.entries.len(),
                forall|j: int|
                    0 <= j < i ==> #[trigger] key_at(self.entries@, j) != (pool_id as nat, who@),
            decreases self.entries.len() - i,
        {
            if self.entries[i].pool_id == pool_id && self.entries[i].contributor.same_as(who) {
                return Some(i);
            }
            i = i + 1;
        }
        None
    }

    /// The identifier that the next pool gets, if the counter has been set.
    pub fn next_pool_id(&self) -> (id: Option<u32>)
        ensures
            (match id {
                Some(id) => self@.next_pool_id == Some(id as nat),
                None => self@.next_pool_id is None,
            }),
    {
        self.next_pool_id
    }

    /// Sets the counter, so that the next pool gets the identifier `id`.
    pub fn set_next_pool_id(&mut self, id: u32)
        ensures
            final(self)@ == (StoreView { next_pool_id: Some(id as nat), ..old(self)@ }),
    {
        proof {
            use_type_invariant(&*self);
        }
        self.next_pool_id = Some(id);
    }

    /// Whether something is stored under `key`.
    pub fn has(&self, key: &DataKey) -> (present: bool)
        ensures
            present == self@.has(key@),
    {
        match key {
            DataKey::NextPoolId => self.next_pool_id.is_some(),
            DataKey::Pools(id) => self.pools.contains_key(id),
            DataKey::Contributions(id, who) => self.find(*id, who).is_some(),
        }
    }

    /// The record of the pool `pool_id`, if there is one.
    pub fn pool(&self, pool_id: u32) -> (pool: Option<&Pool>)
        ensures
            (match pool {
                Some(pool) => {
                    &&& self@.pools.contains_key(pool_id as nat)
                    &&& pool@ == self@.pools[pool_id as nat]
                },
                None => !self@.pools.contains_key(pool_id as nat),
            }),
    {
        self.pools.get(&pool_id)
    }

    /// Stores `pool` as the record of the pool `pool_id`, in place of any
    /// earlier record.
    pub fn put_pool(&mut self, pool_id: u32, pool: Pool)
        ensures
            final(self)@ == (StoreView {
                pools: old(self)@.pools.insert(pool_id as nat, pool@),
                ..old(self)@
            }),
    {
        proof {
            use_type_invariant(&*self);
        }
        let mut pools = HashMap::new();
        std::mem::swap(&mut pools, &mut self.pools);
        pools.insert(pool_id, pool);
        self.pools = pools;
        assert(self@.pools =~= old(self)@.pools.insert(pool_id as nat, pool@));
    }

    /// Adds `amount` to what is recorded for `who` in pool `pool_id`. Where
    /// the ledger has no line for them yet, it gets one.
    pub fn record_contribution(&mut self, pool_id: u32, who: &Principal, amount: i128)
        requires
            i128::MIN <= old(self)@.recorded(pool_id as nat, who@) + amount <= i128::MAX,
        ensures
            final(self)@ == (StoreView {
                contributions: old(self)@.contributions.insert(
                    (pool_id as nat, who@),
                    old(self)@.recorded(pool_id as nat, who@) + amount,
                ),
                ..old(self)@
            }),
    {
        proof {
            use_type_invariant(&*self);
        }
        let found = self.find(pool_id, who);
        let mut entries = Vec::new();
        std::mem::swap(&mut entries, &mut self.entries);
        let ghost before = entries@;
        match found {
            Some(i) => {
                proof {
                    lemma_line(before, i as int);
                }
                entries[i].amount = entries[i].amount + amount;
                proof {
                    lemma_replaced(before, entries@, i as int);
                }
            },
            None => {
                entries.push(Entry { pool_id, contributor: who.clone(), amount });
                proof {
                    lemma_appended(before, entries@);
                }
            },
        }
        self.entries = entries;
    }

    /// Removes the line that the ledger keeps for `who` in pool `pool_id`,
    /// and returns the amount that was recorded there: zero where there was
    /// no line.
    pub fn clear_contribution(&mut self, pool_id: u32, who: &Principal) -> (amount: i128)
        ensures
            amount == old(self)@.recorded(pool_id as nat, who@),
            final(self)@ == (StoreView {
                contributions: old(self)@.contributions.remove((pool_id as nat, who@)),
                ..old(self)@
            }),
    {
        proof {
            use_type_invariant(&*self);
        }
        let found = self.find(pool_id, who);
        match found {
            Some(i) => {
                let mut entries = Vec::new();
                std::mem::swap(&mut entries, &mut self.entries);
                let ghost before = entries@;
                proof {
                    lemma_line(before, i as int);
                }
                let line = entries.remove(i);
                proof {
                    lemma_removed(before, entries@, i as int);
                }
                self.entries = entries;
                line.amount
            },
            None => {
                assert(self@.contributions =~= old(self)@.contributions.remove(
                    (pool_id as nat, who@),
                ));
                0
            },
        }
    }

    /// The amount recorded for `who` in pool `pool_id`, if the ledger has a
    /// line for them.
    pub fn contribution(&self, pool_id: u32, who: &Principal) -> (amount: Option<i128>)
        ensures
            (match amount {
                Some(amount) => {
                    &&& self@.contributions.contains_key((pool_id as nat, who@))
                    &&& amount == self@.contributions[(pool_id as nat, who@)]
                },
                None => !self@.contributions.contains_key((pool_id as nat, who@)),
            }),
    {
        proof {
            use_type_invariant(self);
        }
        match self.find(pool_id, who) {
            Some(i) => {
                proof {
                    lemma_line(self.entries@, i as int);
                }
                Some(self.entries[i].amount)
            },
            None => None,
        }
    }
}

} // verus!
