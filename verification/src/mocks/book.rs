//! Keyed `i128` storage: the persistent entries a mock contract keeps per
//! address (balances, prices) or per address pair (allowances).
//!
//! A [`Book`] holds at most one entry per key. Reading a key that was never
//! written gives `0`, as `storage().persistent().get(..).unwrap_or(0)` does.

use vstd::prelude::*;
use crate::address::Address;

verus! {

/// A key of a [`Book`]: a value whose identity is its view.
pub trait BookKey: View + Sized {
    /// Whether two keys are the same key.
    fn same_key(&self, other: &Self) -> (r: bool)
        ensures
            r == (self@ == other@),
    ;

    /// A copy of this key.
    fn copy_key(&self) -> (r: Self)
        ensures
            r@ == self@,
    ;
}

impl BookKey for Address {
    fn same_key(&self, other: &Self) -> (r: bool) {
        self.same_as(other)
    }

    fn copy_key(&self) -> (r: Self) {
        self.duplicate()
    }
}

/// The key of an allowance: the owner of the funds and the spender.
#[derive(Debug)]
pub struct AllowanceKey {
    pub from: Address,
    pub spender: Address,
}

impl View for AllowanceKey {
    type V = (Seq<u8>, Seq<u8>);

    open spec fn view(&self) -> (Seq<u8>, Seq<u8>) {
        (self.from@, self.spender@)
    }
}

impl BookKey for AllowanceKey {
    fn same_key(&self, other: &Self) -> (r: bool) {
        self.from.same_as(&other.from) && self.spender.same_as(&other.spender)
    }

    fn copy_key(&self) -> (r: Self) {
        AllowanceKey { from: self.from.duplicate(), spender: self.spender.duplicate() }
    }
}

/// The stored entries as a map, later entries overriding earlier ones.
pub open spec fn entries_map<K: View>(s: Seq<(K, i128)>) -> Map<K::V, i128>
    decreases s.len(),
{
    if s.len() == 0 {
        Map::empty()
    } else {
        entries_map(s.drop_last()).insert(s.last().0@, s.last().1)
    }
}

/// The sum of the stored amounts.
pub open spec fn entries_sum<K>(s: Seq<(K, i128)>) -> int
    decreases s.len(),
{
    if s.len() == 0 {
        0
    } else {
        entries_sum(s.drop_last()) + s.last().1
    }
}

/// No key is stored twice.
pub open spec fn keys_distinct<K: View>(s: Seq<(K, i128)>) -> bool {
    forall|i: int, j: int| 0 <= i < j < s.len() ==> s[i].0@ != s[j].0@
}

/// The amount stored under `k` in `m`, or `0` when there is none.
pub open spec fn amount_in<V>(m: Map<V, i128>, k: V) -> i128 {
    if m.contains_key(k) {
        m[k]
    } else {
        0
    }
}

proof fn lemma_entries_map_index<K: View>(s: Seq<(K, i128)>, i: int)
    requires
        keys_distinct(s),
        0 <= i < s.len(),
    ensures
        entries_map(s).contains_key(s[i].0@),
        entries_map(s)[s[i].0@] == s[i].1,
    decreases s.len(),
{
    if i < s.len() - 1 {
        lemma_entries_map_index(s.drop_last(), i);
    }
}

proof fn lemma_entries_map_absent<K: View>(s: Seq<(K, i128)>, k: K::V)
    requires
        forall|i: int| 0 <= i < s.len() ==> s[i].0@ != k,
    ensures
        !entries_map(s).contains_key(k),
    decreases s.len(),
{
    if s.len() > 0 {
        lemma_entries_map_absent(s.drop_last(), k);
    }
}

proof fn lemma_entries_map_update<K: View>(s: Seq<(K, i128)>, i: int, e: (K, i128))
    requires
        keys_distinct(s),
        0 <= i < s.len(),
        e.0@ == s[i].0@,
    ensures
        keys_distinct(s.update(i, e)),
        entries_map(s.update(i, e)) == entries_map(s).insert(e.0@, e.1),
        entries_sum(s.update(i, e)) == entries_sum(s) - s[i].1 + e.1,
    decreases s.len(),
{
    let t = s.update(i, e);
    if i < s.len() - 1 {
        lemma_entries_map_update(s.drop_last(), i, e);
        assert(t.drop_last() =~= s.drop_last().update(i, e));
        assert(entries_map(t) =~= entries_map(s).insert(e.0@, e.1));
    } else {
        assert(t.drop_last() =~= s.drop_last());
        assert(entries_map(t) =~= entries_map(s).insert(e.0@, e.1));
    }
}

/// Keyed `i128` entries, at most one per key.
pub struct Book<K> {
    entries: Vec<(K, i128)>,
}

impl<K: BookKey> Book<K> {
    /// The stored entries, by key.
    pub closed spec fn stored(&self) -> Map<K::V, i128> {
        entries_map(self.entries@)
    }

    /// The sum of all stored amounts.
    pub closed spec fn total(&self) -> int {
        entries_sum(self.entries@)
    }

    /// Each key is stored at most once.
    pub closed spec fn wf(&self) -> bool {
        keys_distinct(self.entries@)
    }

    /// A book with no entries.
    pub fn new() -> (b: Book<K>)
        ensures
            b.wf(),
            b.stored() == Map::<K::V, i128>::empty(),
            b.total() == 0,
    {
        Book { entries: Vec::new() }
    }

    /// The position of `key` among the entries, if it is stored.
    fn find(&self, key: &K) -> (r: Option<usize>)
        requires
            self.wf(),
        ensures
            match r {
                Some(i) => i < self.entries@.len() && self.entries@[i as int].0@ == key@,
                None => forall|j: int|
                    0 <= j < self.entries@.len() ==> self.entries@[j].0@ != key@,
            },
    {
        let n = self.entries.len();
        let mut i: usize = 0;
        while i < n
            invariant
                n == self.entries@.len(),
                i <= n,
                forall|j: int| 0 <= j < i ==> self.entries@[j].0@ != key@,
            decreases n - i,
        {
            if self.entries[i].0.same_key(key) {
                return Some(i);
            }
            i = i + 1;
        }
        None
    }

    /// The amount stored under `key`, or `0` when there is none.
    pub fn get(&self, key: &K) -> (r: i128)
        requires
            self.wf(),
        ensures
            r == amount_in(self.stored(), key@),
    {
        match self.find(key) {
            Some(i) => {
                proof {
                    lemma_entries_map_index(self.entries@, i as int);
                }
                self.entries[i].1
            },
            None => {
                proof {
                    lemma_entries_map_absent(self.entries@, key@);
                }
                0
            },
        }
    }

    /// Store `amount` under `key`, replacing any earlier amount.
    pub fn set(&mut self, key: &K, amount: i128)
        requires
            old(self).wf(),
        ensures
            final(self).wf(),
            final(self).stored() == old(self).stored().insert(key@, amount),
            final(self).total() == old(self).total() - amount_in(old(self).stored(), key@)
                + amount,
    {
        match self.find(key) {
            Some(i) => {
                let k = key.copy_key();
                proof {
                    lemma_entries_map_index(self.entries@, i as int);
                    lemma_entries_map_update(self.entries@, i as int, (k, amount));
                }
                self.entries.set(i, (k, amount));
            },
            None => {
                let k = key.copy_key();
                proof {
                    lemma_entries_map_absent(self.entries@, key@);
                }
                let ghost before = self.entries@;
                self.entries.push((k, amount));
                proof {
                    assert(self.entries@.drop_last() =~= before);
                }
            },
        }
    }
}

/// Law: a read gives back what the last write to the same key wrote, and a
/// write leaves every other key's amount unchanged.
pub proof fn law_read_after_write<V>(m: Map<V, i128>, key: V, amount: i128, other: V)
    ensures
        amount_in(m.insert(key, amount), key) == amount,
        other != key ==> amount_in(m.insert(key, amount), other) == amount_in(m, other),
{
}

} // verus!
