//! Sorted lists of identifiers, kept in host vectors.

use vstd::prelude::*;

verus! {

/// The ledger host, in whose memory the identifier lists live. The host meters
/// what a call costs and stops one that goes over its budget, which the
/// contracts below leave aside.
#[verifier::external_type_specification]
#[verifier::external_body]
pub struct ExEnv(soroban_sdk::Env);

/// A host vector.
#[verifier::external_type_specification]
#[verifier::external_body]
#[verifier::reject_recursive_types(T)]
pub struct ExVec<T>(soroban_sdk::Vec<T>);

/// What a host vector of identifiers holds, in order.
pub uninterp spec fn host_ids(v: soroban_sdk::Vec<u64>) -> Seq<u64>;

/// Calls `soroban_sdk::Vec::new`: the new host vector is empty.
#[verifier::external_body]
fn host_new(host: &soroban_sdk::Env) -> (r: soroban_sdk::Vec<u64>)
    ensures
        host_ids(r) == Seq::<u64>::empty(),
{
    soroban_sdk::Vec::new(host)
}

/// Calls `soroban_sdk::Vec::len`: the number of items.
#[verifier::external_body]
fn host_len(v: &soroban_sdk::Vec<u64>) -> (r: u32)
    ensures
        r == host_ids(*v).len(),
{
    v.len()
}

/// Calls `soroban_sdk::Vec::get`: the item at a position, or `None` past the
/// end.
#[verifier::external_body]
fn host_get(v: &soroban_sdk::Vec<u64>, i: u32) -> (r: Option<u64>)
    ensures
        r == if i < host_ids(*v).len() {
            Some(host_ids(*v)[i as int])
        } else {
            None
        },
{
    v.get(i)
}

/// Calls `soroban_sdk::Vec::insert`: puts an item at a position and moves the
/// later items up. The call panics past the end, and the host counts items in
/// 32 bits.
#[verifier::external_body]
fn host_insert(v: &mut soroban_sdk::Vec<u64>, i: u32, id: u64)
    requires
        i <= host_ids(*old(v)).len(),
        host_ids(*old(v)).len() < u32::MAX,
    ensures
        host_ids(*final(v)) == host_ids(*old(v)).insert(i as int, id),
{
    v.insert(i, id)
}

/// Calls `soroban_sdk::Vec::push_back`: puts an item at the end. The host
/// counts items in 32 bits.
#[verifier::external_body]
fn host_push_back(v: &mut soroban_sdk::Vec<u64>, id: u64)
    requires
        host_ids(*old(v)).len() < u32::MAX,
    ensures
        host_ids(*final(v)) == host_ids(*old(v)).push(id),
{
    v.push_back(id)
}

/// Calls `soroban_sdk::Vec::remove`: takes out the item at a position and
/// moves the later items down; past the end nothing changes and `None` comes
/// back.
#[verifier::external_body]
fn host_remove(v: &mut soroban_sdk::Vec<u64>, i: u32) -> (r: Option<()>)
    ensures
        r is Some <==> i < host_ids(*old(v)).len(),
        host_ids(*final(v)) == if i < host_ids(*old(v)).len() {
            host_ids(*old(v)).remove(i as int)
        } else {
            host_ids(*old(v))
        },
{
    v.remove(i)
}

/// Calls `soroban_sdk::Vec::binary_search` on a sorted host vector: `Ok` with
/// the position of an item that is there, else `Err` with the position at
/// which it would keep the order.
#[verifier::external_body]
fn host_binary_search(v: &soroban_sdk::Vec<u64>, id: u64) -> (r: Result<u32, u32>)
    requires
        ascending(host_ids(*v)),
    ensures
        match r {
            Ok(i) => i < host_ids(*v).len() && host_ids(*v)[i as int] == id,
            Err(i) => {
                &&& i <= host_ids(*v).len()
                &&& forall|j: int| 0 <= j < i ==> host_ids(*v)[j] < id
                &&& forall|j: int| i <= j < host_ids(*v).len() ==> host_ids(*v)[j] > id
            },
        },
{
    v.binary_search(id)
}

/// Every item is smaller than the ones after it.
pub open spec fn ascending(s: Seq<u64>) -> bool {
    forall|i: int, j: int| 0 <= i < j < s.len() ==> s[i] < s[j]
}

/// How many items at the front are smaller than `id`.
pub open spec fn rank(s: Seq<u64>, id: u64) -> int
    decreases s.len(),
{
    if s.len() == 0 || s[0] >= id {
        0
    } else {
        1 + rank(s.drop_first(), id)
    }
}

/// The list with `id` added, in order; unchanged if it is already there.
pub open spec fn with_id(s: Seq<u64>, id: u64) -> Seq<u64> {
    if s.contains(id) {
        s
    } else {
        s.insert(rank(s, id), id)
    }
}

/// The list without `id`.
pub open spec fn without_id(s: Seq<u64>, id: u64) -> Seq<u64> {
    if s.contains(id) {
        s.remove(rank(s, id))
    } else {
        s
    }
}

/// The rank is the position that separates smaller items from the others.
pub proof fn lemma_rank(s: Seq<u64>, id: u64)
    requires
        ascending(s),
    ensures
        0 <= rank(s, id) <= s.len(),
        forall|j: int| 0 <= j < rank(s, id) ==> s[j] < id,
        forall|j: int| rank(s, id) <= j < s.len() ==> s[j] >= id,
        s.contains(id) ==> rank(s, id) < s.len() && s[rank(s, id)] == id,
    decreases s.len(),
{
    if s.len() > 0 && s[0] < id {
        let t = s.drop_first();
        assert(ascending(t)) by {
            assert forall|i: int, j: int| 0 <= i < j < t.len() implies t[i] < t[j] by {
                assert(s[i + 1] < s[j + 1]);
            }
        }
        lemma_rank(t, id);
        assert forall|j: int| 0 <= j < rank(s, id) implies s[j] < id by {
            if j > 0 {
                assert(t[j - 1] < id);
            }
        }
        assert forall|j: int| rank(s, id) <= j < s.len() implies s[j] >= id by {
            assert(t[j - 1] >= id);
        }
    } else if s.len() > 0 {
        assert forall|j: int| 0 <= j < s.len() implies s[j] >= id by {
            if j > 0 {
                assert(s[0] < s[j]);
            }
        }
    }
    if s.contains(id) {
        let j = choose|j: int| 0 <= j < s.len() && s[j] == id;
        if rank(s, id) < j {
            assert(s[rank(s, id)] < s[j]);
        }
    }
}

/// A position that separates smaller items from the others is the rank.
pub proof fn lemma_rank_unique(s: Seq<u64>, id: u64, i: int)
    requires
        ascending(s),
        0 <= i <= s.len(),
        forall|j: int| 0 <= j < i ==> s[j] < id,
        forall|j: int| i <= j < s.len() ==> s[j] >= id,
    ensures
        rank(s, id) == i,
{
    lemma_rank(s, id);
    let n = rank(s, id);
    if n < i {
        assert(s[n] < id);
    } else if i < n {
        assert(s[i] >= id);
    }
}

/// Adding an identifier keeps the order and adds nothing else.
pub proof fn lemma_with_id(s: Seq<u64>, id: u64)
    requires
        ascending(s),
    ensures
        ascending(with_id(s, id)),
        forall|x: u64| with_id(s, id).contains(x) <==> s.contains(x) || x == id,
        with_id(s, id).len() == if s.contains(id) {
            s.len()
        } else {
            s.len() + 1
        },
{
    if !s.contains(id) {
        lemma_rank(s, id);
        let n = rank(s, id);
        let t = s.insert(n, id);
        assert(forall|j: int| 0 <= j < s.len() ==> s[j] != id);
        assert forall|i: int, j: int| 0 <= i < j < t.len() implies t[i] < t[j] by {
            if j < n {
                assert(s[i] < s[j]);
            } else if i > n {
                assert(s[i - 1] < s[j - 1]);
            } else if i < n && j > n {
                assert(s[i] < s[j - 1]);
            } else if i == n {
                assert(s[j - 1] >= id);
            }
        }
        assert forall|x: u64| t.contains(x) <==> s.contains(x) || x == id by {
            if s.contains(x) {
                let i = choose|i: int| 0 <= i < s.len() && s[i] == x;
                assert(t[if i < n { i } else { i + 1 }] == x);
            }
            if t.contains(x) && x != id {
                let i = choose|i: int| 0 <= i < t.len() && t[i] == x;
                assert(s[if i < n { i } else { i - 1 }] == x);
            }
            assert(t[n] == id);
        }
    }
}

/// Removing an identifier keeps the order and removes nothing else.
pub proof fn lemma_without_id(s: Seq<u64>, id: u64)
    requires
        ascending(s),
    ensures
        ascending(without_id(s, id)),
        forall|x: u64| without_id(s, id).contains(x) <==> s.contains(x) && x != id,
        without_id(s, id).len() <= s.len(),
{
    if s.contains(id) {
        lemma_rank(s, id);
        let n = rank(s, id);
        let t = s.remove(n);
        assert forall|i: int, j: int| 0 <= i < j < t.len() implies t[i] < t[j] by {
            assert(s[if i < n { i } else { i + 1 }] < s[if j < n { j } else { j + 1 }]);
        }
        assert forall|x: u64| t.contains(x) <==> s.contains(x) && x != id by {
            if s.contains(x) && x != id {
                let i = choose|i: int| 0 <= i < s.len() && s[i] == x;
                assert(t[if i < n { i } else { i - 1 }] == x);
            }
            if t.contains(x) {
                let i = choose|i: int| 0 <= i < t.len() && t[i] == x;
                let p = if i < n { i } else { i + 1 };
                assert(s[p] == x);
                if i < n {
                    assert(s[p] < s[n]);
                } else {
                    assert(s[n] < s[p]);
                }
            }
        }
    }
}

/// A list of identifiers in ascending order.
pub struct IdList {
    ids: soroban_sdk::Vec<u64>,
}

impl View for IdList {
    type V = Seq<u64>;

    closed spec fn view(&self) -> Seq<u64> {
        host_ids(self.ids)
    }
}

impl IdList {
    /// An empty list.
    pub fn new(host: &soroban_sdk::Env) -> (r: Self)
        ensures
            r@ == Seq::<u64>::empty(),
    {
        IdList { ids: host_new(host) }
    }

    /// The number of identifiers.
    pub fn len(&self) -> (r: u32)
        ensures
            r == self@.len(),
    {
        host_len(&self.ids)
    }

    /// The identifier at a position.
    pub fn at(&self, i: u32) -> (r: u64)
        requires
            i < self@.len(),
        ensures
            r == self@[i as int],
    {
        match host_get(&self.ids, i) {
            Some(id) => id,
            None => 0,
        }
    }

    /// Whether `id` is in the list.
    pub fn contains(&self, id: u64) -> (r: bool)
        requires
            ascending(self@),
        ensures
            r == self@.contains(id),
    {
        match host_binary_search(&self.ids, id) {
            Ok(_) => true,
            Err(_) => false,
        }
    }

    /// How many identifiers are smaller than `id`.
    pub fn rank(&self, id: u64) -> (r: u32)
        requires
            ascending(self@),
        ensures
            r == rank(self@, id),
    {
        match host_binary_search(&self.ids, id) {
            Ok(i) => {
                proof {
                    lemma_rank(self@, id);
                    let n = rank(self@, id);
                    assert(self@[i as int] == id);
                    if n < i {
                        assert(self@[n] < self@[i as int]);
                    }
                }
                i
            },
            Err(i) => {
                proof {
                    lemma_rank_unique(self@, id, i as int);
                }
                i
            },
        }
    }

    /// Adds `id`, in order, unless it is there.
    pub fn add(&mut self, id: u64)
        requires
            ascending(old(self)@),
            old(self)@.len() < u32::MAX,
        ensures
            final(self)@ == with_id(old(self)@, id),
    {
        match host_binary_search(&self.ids, id) {
            Ok(_) => {},
            Err(i) => {
                proof {
                    lemma_rank_unique(self@, id, i as int);
                }
                host_insert(&mut self.ids, i, id);
            },
        }
    }

    /// Adds `id` at the end.
    pub fn append(&mut self, id: u64)
        requires
            old(self)@.len() < u32::MAX,
        ensures
            final(self)@ == old(self)@.push(id),
    {
        host_push_back(&mut self.ids, id);
    }

    /// Removes `id`, if it is there.
    pub fn remove(&mut self, id: u64)
        requires
            ascending(old(self)@),
        ensures
            final(self)@ == without_id(old(self)@, id),
    {
        match host_binary_search(&self.ids, id) {
            Ok(i) => {
                proof {
                    lemma_rank(self@, id);
                    let n = rank(self@, id);
                    if n < i {
                        assert(self@[n] < self@[i as int]);
                    }
                }
                let _found = host_remove(&mut self.ids, i);
            },
            Err(_) => {},
        }
    }

    /// The identifiers, in order.
    pub fn to_vec(&self) -> (r: Vec<u64>)
        ensures
            r@ == self@,
    {
        self.range(0, self.len())
    }

    /// The identifiers from position `from` up to and without position `to`.
    pub fn range(&self, from: u32, to: u32) -> (r: Vec<u64>)
        requires
            from <= to <= self@.len(),
        ensures
            r@ == self@.subrange(from as int, to as int),
    {
        let mut r: Vec<u64> = Vec::new();
        let mut i: u32 = from;
        while i < to
            invariant
                from <= i <= to <= self@.len(),
                r@ == self@.subrange(from as int, i as int),
            decreases to - i,
        {
            r.push(self.at(i));
            i += 1;
        }
        r
    }
}

} // verus!
