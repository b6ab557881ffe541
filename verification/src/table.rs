//! The persistent collection primitive: an ordered, string-keyed mapping
//! with point get/insert/remove and full-scan iteration in a stable order.
//!
//! It is a vector of key/record pairs with pairwise-distinct keys. A fresh
//! key is appended, an existing key is overwritten in place, so iteration
//! order is insertion order and is stable across mutations of existing
//! keys. The abstract content is the map [`Table::m`] derived from the
//! entry sequence by [`map_of`].
use vstd::prelude::*;

verus! {

use vstd::pervasive::VecAdditionalExecFns;

/// The map that a sequence of key/value pairs denotes; a later pair wins
/// when keys repeat (they never do under [`distinct_keys`]).
pub open spec fn map_of<T>(s: Seq<(Seq<char>, T)>) -> Map<Seq<char>, T>
    decreases s.len(),
{
    if s.len() == 0 {
        Map::empty()
    } else {
        map_of(s.drop_last()).insert(s.last().0, s.last().1)
    }
}

/// No two entries share a key.
pub open spec fn distinct_keys<T>(s: Seq<(Seq<char>, T)>) -> bool {
    forall|i: int, j: int| 0 <= i < j < s.len() ==> s[i].0 != s[j].0
}

/// A key is in the denoted map exactly when some entry carries it.
pub proof fn lemma_map_of_contains<T>(s: Seq<(Seq<char>, T)>, k: Seq<char>)
    ensures
        map_of(s).contains_key(k) <==> exists|i: int| 0 <= i < s.len() && s[i].0 == k,
    decreases s.len(),
{
    if s.len() > 0 {
        lemma_map_of_contains(s.drop_last(), k);
        if s.last().0 == k {
            assert(s[s.len() - 1].0 == k);
        } else {
            if exists|i: int| 0 <= i < s.len() && s[i].0 == k {
                let i = choose|i: int| 0 <= i < s.len() && s[i].0 == k;
                assert(s.drop_last()[i] == s[i]);
            }
            if exists|i: int| 0 <= i < s.drop_last().len() && s.drop_last()[i].0 == k {
                let i = choose|i: int| 0 <= i < s.drop_last().len() && s.drop_last()[i].0 == k;
                assert(s[i].0 == k);
            }
        }
    }
}

/// Under distinct keys, the entry at any index gives the map's value at
/// that entry's key.
pub proof fn lemma_map_of_index<T>(s: Seq<(Seq<char>, T)>, i: int)
    requires
        distinct_keys(s),
        0 <= i < s.len(),
    ensures
        map_of(s).contains_key(s[i].0),
        map_of(s)[s[i].0] == s[i].1,
    decreases s.len(),
{
    if i == s.len() - 1 {
    } else {
        assert(s.drop_last()[i] == s[i]);
        lemma_map_of_index(s.drop_last(), i);
        assert(s[i].0 != s.last().0);
    }
}

/// Overwriting the entry that carries key `k` inserts into the map.
pub proof fn lemma_map_of_update<T>(s: Seq<(Seq<char>, T)>, i: int, k: Seq<char>, v: T)
    requires
        distinct_keys(s),
        0 <= i < s.len(),
        s[i].0 == k,
    ensures
        map_of(s.update(i, (k, v))) == map_of(s).insert(k, v),
    decreases s.len(),
{
    let su = s.update(i, (k, v));
    if i == s.len() - 1 {
        assert(su.drop_last() =~= s.drop_last());
        assert(su.last() == (k, v));
        assert(map_of(su) == map_of(s.drop_last()).insert(k, v));
        assert(map_of(s).insert(k, v) =~= map_of(s.drop_last()).insert(k, v));
    } else {
        assert(su.drop_last() =~= s.drop_last().update(i, (k, v)));
        assert(s.drop_last()[i] == s[i]);
        lemma_map_of_update(s.drop_last(), i, k, v);
        assert(su.last() == s.last());
        assert(map_of(su) == map_of(s.drop_last()).insert(k, v).insert(s.last().0, s.last().1));
        assert(s.last().0 != k);
        assert(map_of(s.drop_last()).insert(k, v).insert(s.last().0, s.last().1) =~= map_of(
            s,
        ).insert(k, v));
    }
}

/// Removing the entry that carries key `k` removes it from the map.
pub proof fn lemma_map_of_remove<T>(s: Seq<(Seq<char>, T)>, i: int)
    requires
        distinct_keys(s),
        0 <= i < s.len(),
    ensures
        map_of(s.remove(i)) == map_of(s).remove(s[i].0),
    decreases s.len(),
{
    let k = s[i].0;
    let sr = s.remove(i);
    if i == s.len() - 1 {
        assert(sr =~= s.drop_last());
        lemma_map_of_contains(s.drop_last(), k);
        assert(forall|j: int|
            0 <= j < s.drop_last().len() ==> #[trigger] s.drop_last()[j] == s[j]);
        assert(!map_of(s.drop_last()).contains_key(k));
        assert(map_of(s).remove(k) =~= map_of(s.drop_last()));
    } else {
        assert(sr.drop_last() =~= s.drop_last().remove(i));
        assert(s.drop_last()[i] == s[i]);
        lemma_map_of_remove(s.drop_last(), i);
        assert(sr.last() == s.last());
        assert(map_of(sr) == map_of(s.drop_last()).remove(k).insert(s.last().0, s.last().1));
        assert(s.last().0 != k);
        assert(map_of(s.drop_last()).remove(k).insert(s.last().0, s.last().1) =~= map_of(
            s,
        ).remove(k));
    }
}

/// View of a sequence of key/record pairs.
pub open spec fn entries_sv<V: View>(s: Seq<(String, V)>) -> Seq<(Seq<char>, V::V)> {
    s.map_values(|e: (String, V)| (e.0@, e.1@))
}

/// One persistent collection: string identifiers to records.
pub struct Table<V> {
    pub entries: Vec<(String, V)>,
}

impl<V: View> Table<V> {
    /// The entry sequence, abstractly: key views paired with record views,
    /// in iteration order.
    pub open spec fn sv(self) -> Seq<(Seq<char>, V::V)> {
        entries_sv(self.entries@)
    }

    /// The abstract content: the mapping from key to record view.
    pub open spec fn m(self) -> Map<Seq<char>, V::V> {
        map_of(self.sv())
    }

    /// Keys are pairwise distinct.
    pub open spec fn wf(self) -> bool {
        distinct_keys(self.sv())
    }

    /// An empty collection.
    pub fn new() -> (r: Table<V>)
        ensures
            r.wf(),
            r.m() == Map::<Seq<char>, V::V>::empty(),
            r.sv() == Seq::<(Seq<char>, V::V)>::empty(),
    {
        let t = Table { entries: Vec::new() };
        proof {
            assert(t.sv() =~= Seq::<(Seq<char>, V::V)>::empty());
        }
        t
    }

    /// The index of the entry carrying `k`, scanning from the front.
    fn find(&self, k: &String) -> (r: Option<usize>)
        ensures
            match r {
                Some(i) => i < self.entries@.len() && self.sv()[i as int].0 == k@,
                None => forall|j: int| 0 <= j < self.sv().len() ==> self.sv()[j].0 != k@,
            },
    {
        let n = self.entries.len();
        let mut i: usize = 0;
        while i < n
            invariant
                n == self.entries@.len(),
                i <= n,
                forall|j: int| 0 <= j < i ==> self.sv()[j].0 != k@,
            decreases n - i,
        {
            if self.entries[i].0 == *k {
                return Some(i);
            }
            i += 1;
        }
        None
    }

    /// Full-scan iteration: every entry, in the collection's stable
    /// order (insertion order; an overwrite keeps the key's position).
    pub fn iterate(&self) -> (r: &Vec<(String, V)>)
        ensures
            entries_sv(r@) == self.sv(),
    {
        &self.entries
    }

    /// Point lookup.
    pub fn get(&self, k: &String) -> (r: Option<&V>)
        requires
            self.wf(),
        ensures
            match r {
                Some(v) => self.m().contains_key(k@) && v@ == self.m()[k@],
                None => !self.m().contains_key(k@),
            },
    {
        proof {
            lemma_map_of_contains(self.sv(), k@);
        }
        match self.find(k) {
            Some(i) => {
                proof {
                    lemma_map_of_index(self.sv(), i as int);
                }
                Some(&self.entries[i].1)
            },
            None => None,
        }
    }

    /// Stores `v` under `k`, overwriting in place, and returns the record
    /// previously under `k`, if any. A fresh key goes to the end of the
    /// iteration order; an existing key keeps its position.
    pub fn insert(&mut self, k: String, v: V) -> (prev: Option<V>)
        requires
            old(self).wf(),
        ensures
            final(self).wf(),
            final(self).m() == old(self).m().insert(k@, v@),
            match prev {
                Some(p) => old(self).m().contains_key(k@) && p@ == old(self).m()[k@],
                None => !old(self).m().contains_key(k@),
            },
            old(self).m().contains_key(k@) ==> final(self).sv().len() == old(self).sv().len(),
            !old(self).m().contains_key(k@) ==> final(self).sv() == old(self).sv().push(
                (k@, v@),
            ),
    {
        proof {
            lemma_map_of_contains(self.sv(), k@);
        }
        match self.find(&k) {
            Some(i) => {
                proof {
                    lemma_map_of_index(self.sv(), i as int);
                }
                let ghost s0 = self.sv();
                let ghost kv = k@;
                let mut pair = (k, v);
                self.entries.set_and_swap(i, &mut pair);
                proof {
                    assert(self.sv() =~= s0.update(i as int, (kv, v@)));
                    assert(s0[i as int].0 == kv);
                    lemma_map_of_update(s0, i as int, kv, v@);
                    assert(forall|j: int|
                        0 <= j < s0.len() ==> #[trigger] self.sv()[j].0 == s0[j].0);
                    assert(distinct_keys(self.sv()));
                }
                Some(pair.1)
            },
            None => {
                let ghost s0 = self.sv();
                let ghost kv = k@;
                let ghost vv = v@;
                self.entries.push((k, v));
                proof {
                    assert(self.sv() =~= s0.push((kv, vv)));
                    assert(self.sv().drop_last() =~= s0);
                    assert(self.m() == map_of(s0).insert(kv, vv));
                    assert(forall|j: int| 0 <= j < s0.len() ==> #[trigger] self.sv()[j] == s0[j]);
                    assert(self.sv()[s0.len() as int].0 == kv);
                    assert(distinct_keys(self.sv()));
                }
                None
            },
        }
    }

    /// Rebuilds a collection from a dumped entry list by reinserting each
    /// pair in order, so the key discipline holds by construction
    /// whatever the list holds: on repeated keys the later pair wins,
    /// exactly as [`map_of`] reads the list.
    pub fn rebuild(dump: Vec<(String, V)>) -> (t: Table<V>)
        ensures
            t.wf(),
            t.m() == map_of(entries_sv(dump@)),
    {
        let ghost sv0 = entries_sv(dump@);
        let n = dump.len();
        let mut rest = dump;
        let mut t = Table::new();
        let mut i: usize = 0;
        while i < n
            invariant
                t.wf(),
                n == sv0.len(),
                i <= n,
                rest@ == dump@.subrange(i as int, n as int),
                sv0 == entries_sv(dump@),
                t.m() == map_of(sv0.subrange(0, i as int)),
            decreases n - i,
        {
            let e = rest.remove(0);
            proof {
                assert(rest@ =~= dump@.subrange(i + 1, n as int));
                assert(e == dump@[i as int]);
            }
            t.insert(e.0, e.1);
            proof {
                assert(sv0.subrange(0, i + 1).drop_last() =~= sv0.subrange(0, i as int));
                assert(sv0.subrange(0, i + 1).last() == sv0[i as int]);
                assert(t.m() == map_of(sv0.subrange(0, i + 1)));
            }
            i += 1;
        }
        proof {
            assert(sv0.subrange(0, n as int) =~= sv0);
        }
        t
    }

    /// Removes and returns the record under `k`, if any; the other
    /// entries keep their relative order.
    pub fn remove(&mut self, k: &String) -> (prev: Option<V>)
        requires
            old(self).wf(),
        ensures
            final(self).wf(),
            final(self).m() == old(self).m().remove(k@),
            match prev {
                Some(p) => old(self).m().contains_key(k@) && p@ == old(self).m()[k@],
                None => !old(self).m().contains_key(k@) && *final(self) == *old(self),
            },
    {
        proof {
            lemma_map_of_contains(self.sv(), k@);
        }
        match self.find(k) {
            Some(i) => {
                proof {
                    lemma_map_of_index(self.sv(), i as int);
                }
                let ghost s0 = self.sv();
                let e = self.entries.remove(i);
                proof {
                    assert(self.sv() =~= s0.remove(i as int));
                    lemma_map_of_remove(s0, i as int);
                    assert(distinct_keys(s0.remove(i as int)));
                }
                Some(e.1)
            },
            None => {
                proof {
                    assert(old(self).m().remove(k@) =~= old(self).m());
                }
                None
            },
        }
    }
}

} // verus!
