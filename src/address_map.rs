//! A finite map keyed by account address, held as a list of entries.

use vstd::prelude::*;

verus! {

/// Value of the entry for `k` that stands last in `s`, if any.
pub open spec fn find<V>(s: Seq<(String, V)>, k: Seq<char>) -> Option<V>
    decreases s.len(),
{
    if s.len() == 0 {
        None
    } else if s.last().0@ == k {
        Some(s.last().1)
    } else {
        find(s.drop_last(), k)
    }
}

proof fn lemma_find_none<V>(s: Seq<(String, V)>, k: Seq<char>)
    requires
        forall|i: int| 0 <= i < s.len() ==> s[i].0@ != k,
    ensures
        find(s, k) is None,
    decreases s.len(),
{
    if s.len() > 0 {
        lemma_find_none(s.drop_last(), k);
    }
}

proof fn lemma_find_at<V>(s: Seq<(String, V)>, k: Seq<char>, j: int)
    requires
        0 <= j < s.len(),
        s[j].0@ == k,
        forall|i: int| j < i < s.len() ==> s[i].0@ != k,
    ensures
        find(s, k) == Some(s[j].1),
    decreases s.len(),
{
    if j < s.len() - 1 {
        lemma_find_at(s.drop_last(), k, j);
    }
}

proof fn lemma_find_update_other<V>(s: Seq<(String, V)>, j: int, e: (String, V), k: Seq<char>)
    requires
        0 <= j < s.len(),
        s[j].0@ == e.0@,
        k != e.0@,
    ensures
        find(s.update(j, e), k) == find(s, k),
    decreases s.len(),
{
    let t = s.update(j, e);
    if j == s.len() - 1 {
        assert(t.drop_last() =~= s.drop_last());
    } else {
        assert(t.drop_last() =~= s.drop_last().update(j, e));
        lemma_find_update_other(s.drop_last(), j, e, k);
    }
}

proof fn lemma_find_push<V>(s: Seq<(String, V)>, e: (String, V), k: Seq<char>)
    ensures
        find(s.push(e), k) == if k == e.0@ {
            Some(e.1)
        } else {
            find(s, k)
        },
{
    assert(s.push(e).drop_last() =~= s);
}

/// Map from addresses to values; an address that was never set is absent.
pub struct AddressMap<V> {
    entries: Vec<(String, V)>,
}

impl<V> View for AddressMap<V> {
    type V = Map<Seq<char>, V>;

    closed spec fn view(&self) -> Map<Seq<char>, V> {
        Map::new(
            |k: Seq<char>| find(self.entries@, k) is Some,
            |k: Seq<char>| find(self.entries@, k).unwrap(),
        )
    }
}

impl<V: Copy> AddressMap<V> {
    pub fn new() -> (r: AddressMap<V>)
        ensures
            r@ == Map::<Seq<char>, V>::empty(),
    {
        let r = AddressMap { entries: Vec::new() };
        assert(r@ =~= Map::<Seq<char>, V>::empty());
        r
    }

    /// Index of the last entry for `k`.
    fn position(&self, k: &String) -> (r: Option<usize>)
        ensures
            match r {
                Some(j) => {
                    &&& j < self.entries@.len()
                    &&& self.entries@[j as int].0@ == k@
                    &&& forall|i: int| j < i < self.entries@.len() ==> self.entries@[i].0@ != k@
                },
                None => forall|i: int| 0 <= i < self.entries@.len() ==> self.entries@[i].0@ != k@,
            },
    {
        let mut i: usize = self.entries.len();
        while i > 0
            invariant
                i <= self.entries@.len(),
                forall|m: int| i <= m < self.entries@.len() ==> self.entries@[m].0@ != k@,
            decreases i,
        {
            let j: usize = i - 1;
            if self.entries[j].0 == *k {
                return Some(j);
            }
            i = j;
        }
        None
    }

    /// The value stored for `k`.
    pub fn get(&self, k: &String) -> (r: Option<V>)
        ensures
            r == (if self@.contains_key(k@) {
                Some(self@[k@])
            } else {
                None
            }),
    {
        match self.position(k) {
            Some(j) => {
                proof {
                    lemma_find_at(self.entries@, k@, j as int);
                }
                Some(self.entries[j].1)
            },
            None => {
                proof {
                    lemma_find_none(self.entries@, k@);
                }
                None
            },
        }
    }

    /// Stores `v` for `k`, replacing what was stored for it.
    pub fn set(&mut self, k: String, v: V)
        ensures
            final(self)@ == old(self)@.insert(k@, v),
    {
        let ghost s = self.entries@;
        let ghost key = k@;
        match self.position(&k) {
            Some(j) => {
                let ghost e = (k, v);
                self.entries.set(j, (k, v));
                proof {
                    assert(self.entries@ == s.update(j as int, e));
                    assert forall|q: Seq<char>| #![auto]
                        find(self.entries@, q) == if q == key {
                            Some(v)
                        } else {
                            find(s, q)
                        } by {
                        if q == key {
                            lemma_find_at(self.entries@, q, j as int);
                        } else {
                            lemma_find_update_other(s, j as int, e, q);
                        }
                    }
                }
            },
            None => {
                let ghost e = (k, v);
                self.entries.push((k, v));
                proof {
                    assert(self.entries@ == s.push(e));
                    assert forall|q: Seq<char>| #![auto]
                        find(self.entries@, q) == if q == key {
                            Some(v)
                        } else {
                            find(s, q)
                        } by {
                        lemma_find_push(s, e, q);
                    }
                }
            },
        }
        assert(self@ =~= old(self)@.insert(key, v));
    }
}

} // verus!
