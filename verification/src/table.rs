//! Finite maps held as lists of entries.

use vstd::prelude::*;
use crate::account::AccountId;
use crate::arith::Balance;
use crate::total::{lemma_sum_empty, lemma_sum_insert, sum_of};

verus! {

/// A key of a [`Table`]: a plain value with a test for equality.
pub trait Key: Sized {
    /// Whether the two keys are the same.
    fn same_key(&self, other: &Self) -> (same: bool)
        ensures
            same == (*self == *other),
    ;
}

impl Key for AccountId {
    fn same_key(&self, other: &Self) -> (same: bool) {
        *self == *other
    }
}

impl Key for (AccountId, AccountId) {
    fn same_key(&self, other: &Self) -> (same: bool) {
        self.0 == other.0 && self.1 == other.1
    }
}

/// The map that a list of entries stands for: each entry binds its key to its value.
pub open spec fn entries_map<K, V>(entries: Seq<(K, V)>) -> Map<K, V>
    decreases entries.len(),
{
    if entries.len() == 0 {
        Map::empty()
    } else {
        entries_map(entries.drop_last()).insert(entries.last().0, entries.last().1)
    }
}

/// No key occurs in two entries.
pub open spec fn distinct_keys<K, V>(entries: Seq<(K, V)>) -> bool {
    forall|i: int, j: int| 0 <= i < j < entries.len() ==> entries[i].0 != entries[j].0
}

/// A key is bound by the map exactly when some entry carries it, and the map is finite.
pub proof fn lemma_entries_map_dom<K, V>(entries: Seq<(K, V)>)
    ensures
        entries_map(entries).dom().finite(),
        forall|k: K|
            entries_map(entries).dom().contains(k) <==> exists|i: int|
                0 <= i < entries.len() && #[trigger] entries[i].0 == k,
    decreases entries.len(),
{
    if entries.len() > 0 {
        let front = entries.drop_last();
        lemma_entries_map_dom(front);
        assert forall|k: K|
            entries_map(entries).dom().contains(k) <==> exists|i: int|
                0 <= i < entries.len() && #[trigger] entries[i].0 == k by {
            if exists|i: int| 0 <= i < entries.len() && #[trigger] entries[i].0 == k {
                let i = choose|i: int| 0 <= i < entries.len() && #[trigger] entries[i].0 == k;
                if i < front.len() {
                    assert(front[i].0 == k);
                }
            }
        }
    }
}

/// Where keys are distinct, the map binds the key of each entry to that entry's value.
pub proof fn lemma_entries_map_value<K, V>(entries: Seq<(K, V)>, i: int)
    requires
        distinct_keys(entries),
        0 <= i < entries.len(),
    ensures
        entries_map(entries).dom().contains(entries[i].0),
        entries_map(entries)[entries[i].0] == entries[i].1,
    decreases entries.len(),
{
    if i < entries.len() - 1 {
        let front = entries.drop_last();
        lemma_entries_map_value(front, i);
    }
}

/// Replacing the value of one entry binds its key anew and leaves the rest.
pub proof fn lemma_entries_map_update<K, V>(entries: Seq<(K, V)>, i: int, value: V)
    requires
        distinct_keys(entries),
        0 <= i < entries.len(),
    ensures
        distinct_keys(entries.update(i, (entries[i].0, value))),
        entries_map(entries.update(i, (entries[i].0, value))) == entries_map(entries).insert(
            entries[i].0,
            value,
        ),
    decreases entries.len(),
{
    let key = entries[i].0;
    let updated = entries.update(i, (key, value));
    if i == entries.len() - 1 {
        assert(updated.drop_last() =~= entries.drop_last());
    } else {
        let front = entries.drop_last();
        lemma_entries_map_update(front, i, value);
        assert(updated.drop_last() =~= front.update(i, (front[i].0, value)));
    }
}

/// With distinct keys, the sum over the first `n + 1` entries is the sum over the first
/// `n` and the value of the entry that follows them.
pub proof fn lemma_sum_take<K>(entries: Seq<(K, Balance)>, n: int)
    requires
        distinct_keys(entries),
        0 <= n < entries.len(),
    ensures
        sum_of(entries_map(entries.take(n + 1))) == sum_of(entries_map(entries.take(n)))
            + entries[n].1,
{
    let front = entries.take(n);
    lemma_entries_map_dom(front);
    assert(entries.take(n + 1).drop_last() =~= front);
    lemma_sum_insert(entries_map(front), entries[n].0, entries[n].1);
}

/// With distinct keys, the sum over the first `n` entries does not exceed the sum over all.
pub proof fn lemma_sum_take_bounded<K>(entries: Seq<(K, Balance)>, n: int)
    requires
        distinct_keys(entries),
        0 <= n <= entries.len(),
    ensures
        sum_of(entries_map(entries.take(n))) <= sum_of(entries_map(entries)),
    decreases entries.len() - n,
{
    if n < entries.len() {
        lemma_sum_take(entries, n);
        lemma_sum_take_bounded(entries, n + 1);
    } else {
        assert(entries.take(n) =~= entries);
    }
}

/// A finite map from keys to values, held as a list of entries with distinct keys.
/// An entry, once made, stays: its value can only be replaced.
#[derive(Debug)]
pub struct Table<K: Key + Copy, V: Copy> {
    entries: Vec<(K, V)>,
}

impl<K: Key + Copy, V: Copy> View for Table<K, V> {
    type V = Map<K, V>;

    closed spec fn view(&self) -> Map<K, V> {
        entries_map(self.entries@)
    }
}

impl<K: Key + Copy, V: Copy> Table<K, V> {
    /// The table is well formed: no key is held twice.
    pub closed spec fn wf(&self) -> bool {
        distinct_keys(self.entries@)
    }

    /// The map of a table is finite.
    pub proof fn lemma_finite(&self)
        ensures
            self@.dom().finite(),
    {
        lemma_entries_map_dom(self.entries@);
    }

    /// The empty table.
    pub fn new() -> (table: Self)
        ensures
            table.wf(),
            table@ == Map::<K, V>::empty(),
    {
        Table { entries: Vec::new() }
    }

    /// The value bound to `key`, if there is one.
    pub fn get(&self, key: K) -> (value: Option<V>)
        requires
            self.wf(),
        ensures
            value == if self@.dom().contains(key) {
                Some(self@[key])
            } else {
                None
            },
    {
        let mut i: usize = 0;
        while i < self.entries.len()
            invariant
                i <= self.entries.len(),
                self.wf(),
                forall|j: int| 0 <= j < i ==> self.entries@[j].0 != key,
            decreases self.entries.len() - i,
        {
            let (k, v) = self.entries[i];
            if k.same_key(&key) {
                proof {
                    lemma_entries_map_value(self.entries@, i as int);
                }
                return Some(v);
            }
            i += 1;
        }
        proof {
            lemma_entries_map_dom(self.entries@);
        }
        None
    }

    /// Binds `key` to `value`, replacing the value it had.
    pub fn insert(&mut self, key: K, value: V)
        requires
            old(self).wf(),
        ensures
            final(self).wf(),
            final(self)@ == old(self)@.insert(key, value),
    {
        let mut i: usize = 0;
        while i < self.entries.len()
            invariant
                i <= self.entries.len(),
                self.wf(),
                *self == *old(self),
                forall|j: int| 0 <= j < i ==> self.entries@[j].0 != key,
            decreases self.entries.len() - i,
        {
            let (k, _) = self.entries[i];
            if k.same_key(&key) {
                proof {
                    lemma_entries_map_update(self.entries@, i as int, value);
                }
                self.entries[i] = (key, value);
                return ;
            }
            i += 1;
        }
        proof {
            assert(self.entries@.push((key, value)).drop_last() =~= self.entries@);
        }
        self.entries.push((key, value));
    }

    /// The entries of the table, each key once.
    pub fn entries(&self) -> (entries: Vec<(K, V)>)
        requires
            self.wf(),
        ensures
            distinct_keys(entries@),
            entries_map(entries@) == self@,
    {
        let mut entries: Vec<(K, V)> = Vec::new();
        let mut i: usize = 0;
        while i < self.entries.len()
            invariant
                i <= self.entries.len(),
                entries@ == self.entries@.take(i as int),
            decreases self.entries.len() - i,
        {
            entries.push(self.entries[i]);
            assert(self.entries@.take(i + 1) =~= self.entries@.take(i as int).push(
                self.entries@[i as int],
            ));
            i += 1;
        }
        assert(entries@ =~= self.entries@);
        entries
    }

    /// The table that holds `entries`, where no key occurs in two of them.
    pub fn from_entries(entries: Vec<(K, V)>) -> (table: Option<Self>)
        ensures
            table is Some <==> distinct_keys(entries@),
            table is Some ==> table->0.wf() && table->0@ == entries_map(entries@),
    {
        let mut j: usize = 0;
        while j < entries.len()
            invariant
                j <= entries.len(),
                forall|a: int, b: int| 0 <= a < b < j ==> entries@[a].0 != entries@[b].0,
            decreases entries.len() - j,
        {
            let (key, _) = entries[j];
            let mut i: usize = 0;
            while i < j
                invariant
                    i <= j < entries.len(),
                    key == entries@[j as int].0,
                    forall|a: int| 0 <= a < i ==> entries@[a].0 != key,
                decreases j - i,
            {
                let (earlier, _) = entries[i];
                if earlier.same_key(&key) {
                    return None;
                }
                i += 1;
            }
            j += 1;
        }
        Some(Table { entries })
    }
}

impl<K: Key + Copy> Table<K, Balance> {
    /// The sum of the balances that the table holds, where it does not exceed `limit`.
    pub fn sum_within(&self, limit: Balance) -> (sum: Option<Balance>)
        requires
            self.wf(),
        ensures
            sum is Some <==> sum_of(self@) <= limit,
            sum is Some ==> sum->0 == sum_of(self@),
    {
        let mut sum: Balance = 0;
        let mut i: usize = 0;
        proof {
            lemma_sum_empty::<K>();
        }
        while i < self.entries.len()
            invariant
                i <= self.entries.len(),
                self.wf(),
                sum == sum_of(entries_map(self.entries@.take(i as int))),
                sum <= limit,
            decreases self.entries.len() - i,
        {
            let (_, value) = self.entries[i];
            proof {
                lemma_sum_take(self.entries@, i as int);
                lemma_sum_take_bounded(self.entries@, i + 1);
            }
            if value > limit - sum {
                return None;
            }
            sum = sum + value;
            i += 1;
        }
        proof {
            assert(self.entries@.take(i as int) =~= self.entries@);
        }
        Some(sum)
    }
}

} // verus!
