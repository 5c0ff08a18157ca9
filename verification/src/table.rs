//! A keyed store.

use crate::types::{Address, PoolSeat};
use vstd::prelude::*;

verus! {

/// A key of a [`Table`].
pub trait Key: Sized + Copy {
    /// Whether two keys are the same.
    fn same(&self, other: &Self) -> (r: bool)
        ensures
            r == (*self == *other),
    ;
}

impl Key for u64 {
    fn same(&self, other: &Self) -> (r: bool) {
        *self == *other
    }
}

impl Key for Address {
    fn same(&self, other: &Self) -> (r: bool) {
        *self == *other
    }
}

impl Key for PoolSeat {
    fn same(&self, other: &Self) -> (r: bool) {
        *self == *other
    }
}

/// What the first entry for `k` holds.
pub open spec fn lookup<K, V: View>(s: Seq<(K, V)>, k: K) -> Option<V::V>
    decreases s.len(),
{
    if s.len() == 0 {
        None
    } else if s[0].0 == k {
        Some(s[0].1@)
    } else {
        lookup(s.drop_first(), k)
    }
}

/// A finite map from keys to values.
pub struct Table<K, V> {
    entries: Vec<(K, V)>,
}

impl<K, V: View> View for Table<K, V> {
    type V = Map<K, V::V>;

    closed spec fn view(&self) -> Map<K, V::V> {
        Map::new(|k: K| lookup(self.entries@, k) is Some, |k: K| lookup(self.entries@, k)->0)
    }
}

impl<K: Key, V: View> Table<K, V> {
    /// An empty table.
    pub fn new() -> (r: Self)
        ensures
            r@ == Map::<K, V::V>::empty(),
    {
        let r = Table { entries: Vec::new() };
        assert(r@ =~= Map::<K, V::V>::empty());
        r
    }

    /// The position of the first entry for `k`.
    fn position(&self, k: K) -> (r: Option<usize>)
        ensures
            match r {
                Some(i) => {
                    &&& i < self.entries@.len()
                    &&& self.entries@[i as int].0 == k
                    &&& forall|j: int| 0 <= j < i ==> self.entries@[j].0 != k
                    &&& lookup(self.entries@, k) == Some(self.entries@[i as int].1@)
                },
                None => {
                    &&& forall|j: int| 0 <= j < self.entries@.len() ==> self.entries@[j].0 != k
                    &&& lookup(self.entries@, k) is None
                },
            },
    {
        let mut i: usize = 0;
        while i < self.entries.len()
            invariant
                i <= self.entries@.len(),
                forall|j: int| 0 <= j < i ==> self.entries@[j].0 != k,
            decreases self.entries@.len() - i,
        {
            if self.entries[i].0.same(&k) {
                proof {
                    lemma_first(self.entries@, k, i as int);
                }
                return Some(i);
            }
            i += 1;
        }
        proof {
            lemma_absent(self.entries@, k);
        }
        None
    }

    /// What is stored under `k`.
    pub fn get(&self, k: K) -> (r: Option<&V>)
        ensures
            match r {
                Some(v) => self@.dom().contains(k) && v@ == self@[k],
                None => !self@.dom().contains(k),
            },
    {
        match self.position(k) {
            Some(i) => Some(&self.entries[i].1),
            None => None,
        }
    }

    /// Whether something is stored under `k`.
    pub fn contains(&self, k: K) -> (r: bool)
        ensures
            r == self@.dom().contains(k),
    {
        self.position(k).is_some()
    }

    /// All keys under which something is stored.
    pub fn keys(&self) -> (r: Vec<K>)
        ensures
            forall|k: K| #[trigger] r@.contains(k) <==> self@.dom().contains(k),
    {
        let mut r: Vec<K> = Vec::new();
        let mut i: usize = 0;
        while i < self.entries.len()
            invariant
                i <= self.entries@.len(),
                r@.len() == i,
                forall|j: int| 0 <= j < i ==> #[trigger] r@[j] == self.entries@[j].0,
            decreases self.entries@.len() - i,
        {
            r.push(self.entries[i].0);
            i += 1;
        }
        assert forall|k: K| #[trigger] r@.contains(k) <==> self@.dom().contains(k) by {
            if r@.contains(k) {
                let j = choose|j: int| 0 <= j < r@.len() && r@[j] == k;
                assert(self.entries@[j].0 == k);
                if lookup(self.entries@, k) is None {
                    lemma_stored(self.entries@, k, j);
                }
            }
            if self@.dom().contains(k) {
                lemma_present(self.entries@, k);
                let j = choose|j: int| 0 <= j < self.entries@.len() && self.entries@[j].0 == k;
                assert(r@[j] == k);
            }
        }
        r
    }

    /// Stores `v` under `k`, in place of what was there.
    pub fn insert(&mut self, k: K, v: V)
        ensures
            final(self)@ == old(self)@.insert(k, v@),
    {
        let ghost before = self.entries@;
        match self.position(k) {
            Some(i) => {
                self.entries[i] = (k, v);
                proof {
                    lemma_first(self.entries@, k, i as int);
                    assert forall|k2: K| k2 != k implies #[trigger] lookup(self.entries@, k2)
                        == lookup(before, k2) by {
                        lemma_update(before, i as int, v, k2);
                    }
                }
            },
            None => {
                self.entries.push((k, v));
                proof {
                    lemma_first(self.entries@, k, before.len() as int);
                    assert forall|k2: K| k2 != k implies #[trigger] lookup(self.entries@, k2)
                        == lookup(before, k2) by {
                        lemma_push(before, k, v, k2);
                    }
                }
            },
        }
        assert(self@ =~= old(self)@.insert(k, v@));
    }

    /// Removes what is stored under `k`.
    pub fn remove(&mut self, k: K)
        ensures
            final(self)@ == old(self)@.remove(k),
    {
        let ghost before = self.entries@;
        let mut i: usize = self.entries.len();
        while i > 0
            invariant
                i <= self.entries@.len(),
                before == old(self).entries@,
                forall|j: int| i <= j < self.entries@.len() ==> self.entries@[j].0 != k,
                forall|k2: K|
                    k2 != k ==> #[trigger] lookup(self.entries@, k2) == lookup(before, k2),
            decreases i,
        {
            i -= 1;
            if self.entries[i].0.same(&k) {
                let ghost s = self.entries@;
                let _removed = self.entries.remove(i);
                proof {
                    assert forall|k2: K| k2 != k implies #[trigger] lookup(self.entries@, k2)
                        == lookup(before, k2) by {
                        lemma_remove(s, i as int, k2);
                        assert(lookup(s, k2) == lookup(before, k2));
                    }
                }
            }
        }
        proof {
            lemma_absent(self.entries@, k);
        }
        assert(self@ =~= old(self)@.remove(k));
    }

    /// Removes what is stored under `k` and hands it back.
    pub fn take(&mut self, k: K) -> (r: Option<V>)
        ensures
            match r {
                Some(v) => old(self)@.dom().contains(k) && v@ == old(self)@[k],
                None => !old(self)@.dom().contains(k),
            },
            final(self)@ == old(self)@.remove(k),
    {
        match self.position(k) {
            Some(i) => {
                let ghost before = self.entries@;
                let (_key, v) = self.entries.remove(i);
                proof {
                    assert forall|k2: K| k2 != k implies #[trigger] lookup(self.entries@, k2)
                        == lookup(before, k2) by {
                        lemma_remove(before, i as int, k2);
                    }
                }
                self.remove(k);
                assert(self@ =~= old(self)@.remove(k));
                Some(v)
            },
            None => {
                assert(self@ =~= old(self)@.remove(k));
                None
            },
        }
    }

    /// A table holds finitely many entries.
    pub proof fn lemma_finite(&self)
        ensures
            self@.dom().finite(),
    {
        let keys = self.entries@.map(|i: int, e: (K, V)| e.0);
        assert forall|k: K| self@.dom().contains(k) implies keys.to_set().contains(k) by {
            lemma_present(self.entries@, k);
            let i = choose|i: int| 0 <= i < self.entries@.len() && self.entries@[i].0 == k;
            assert(keys[i] == k);
        }
        assert(self@.dom().subset_of(keys.to_set()));
        vstd::seq_lib::seq_to_set_is_finite(keys);
        vstd::set_lib::lemma_set_subset_finite(keys.to_set(), self@.dom());
    }
}

proof fn lemma_first<K, V: View>(s: Seq<(K, V)>, k: K, i: int)
    requires
        0 <= i < s.len(),
        s[i].0 == k,
        forall|j: int| 0 <= j < i ==> s[j].0 != k,
    ensures
        lookup(s, k) == Some(s[i].1@),
    decreases s.len(),
{
    if i > 0 {
        lemma_first(s.drop_first(), k, i - 1);
    }
}

proof fn lemma_absent<K, V: View>(s: Seq<(K, V)>, k: K)
    requires
        forall|j: int| 0 <= j < s.len() ==> s[j].0 != k,
    ensures
        lookup(s, k) is None,
    decreases s.len(),
{
    if s.len() > 0 {
        lemma_absent(s.drop_first(), k);
    }
}

proof fn lemma_present<K, V: View>(s: Seq<(K, V)>, k: K)
    requires
        lookup(s, k) is Some,
    ensures
        exists|i: int| 0 <= i < s.len() && s[i].0 == k,
    decreases s.len(),
{
    if s[0].0 != k {
        let t = s.drop_first();
        lemma_present(t, k);
        let i = choose|i: int| 0 <= i < t.len() && t[i].0 == k;
        assert(s[i + 1].0 == k);
    }
}

proof fn lemma_stored<K, V: View>(s: Seq<(K, V)>, k: K, i: int)
    requires
        0 <= i < s.len(),
        s[i].0 == k,
    ensures
        lookup(s, k) is Some,
    decreases s.len(),
{
    if s[0].0 != k {
        lemma_stored(s.drop_first(), k, i - 1);
    }
}

proof fn lemma_update<K, V: View>(s: Seq<(K, V)>, i: int, v: V, k: K)
    requires
        0 <= i < s.len(),
        s[i].0 != k,
    ensures
        lookup(s.update(i, (s[i].0, v)), k) == lookup(s, k),
    decreases s.len(),
{
    let t = s.update(i, (s[i].0, v));
    if i == 0 {
        assert(t.drop_first() =~= s.drop_first());
    } else {
        lemma_update(s.drop_first(), i - 1, v, k);
        assert(t.drop_first() =~= s.drop_first().update(i - 1, (s[i].0, v)));
    }
}

proof fn lemma_push<K, V: View>(s: Seq<(K, V)>, k: K, v: V, k2: K)
    requires
        k2 != k,
    ensures
        lookup(s.push((k, v)), k2) == lookup(s, k2),
    decreases s.len(),
{
    let t = s.push((k, v));
    if s.len() == 0 {
        assert(t.drop_first().len() == 0);
        assert(lookup(t.drop_first(), k2) is None);
    } else {
        lemma_push(s.drop_first(), k, v, k2);
        assert(t.drop_first() =~= s.drop_first().push((k, v)));
    }
}

proof fn lemma_remove<K, V: View>(s: Seq<(K, V)>, i: int, k: K)
    requires
        0 <= i < s.len(),
        s[i].0 != k,
    ensures
        lookup(s.remove(i), k) == lookup(s, k),
    decreases s.len(),
{
    let t = s.remove(i);
    if i == 0 {
        assert(t =~= s.drop_first());
    } else {
        lemma_remove(s.drop_first(), i - 1, k);
        assert(t.drop_first() =~= s.drop_first().remove(i - 1));
    }
}

} // verus!
