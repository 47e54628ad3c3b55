//! A map from string keys to values that remembers the order in which keys
//! were first inserted. Inserting an existing key replaces its value.

use vstd::prelude::*;
use crate::text::str_eq;

verus! {

/// The views of the values of a string-valued map.
pub open spec fn value_views(m: Map<Seq<char>, String>) -> Map<Seq<char>, Seq<char>> {
    m.map_values(|s: String| s@)
}

/// The views of the keys of `e`, in order.
pub open spec fn entry_keys<V>(e: Seq<(String, V)>) -> Seq<Seq<char>> {
    e.map_values(|p: (String, V)| p.0@)
}

/// No key occurs twice.
pub open spec fn keys_unique<V>(e: Seq<(String, V)>) -> bool {
    forall|i: int, j: int| 0 <= i < j < e.len() ==> e[i].0@ != e[j].0@
}

/// The map that the entries denote.
pub open spec fn map_of<V>(e: Seq<(String, V)>) -> Map<Seq<char>, V>
    decreases e.len(),
{
    if e.len() == 0 {
        Map::empty()
    } else {
        map_of(e.drop_last()).insert(e.last().0@, e.last().1)
    }
}

/// The keys of `map_of(e)` are exactly those of the entries.
pub proof fn lemma_map_of_dom<V>(e: Seq<(String, V)>)
    ensures
        map_of(e).dom() == entry_keys(e).to_set(),
        map_of(e).dom().finite(),
    decreases e.len(),
{
    if e.len() == 0 {
        assert(entry_keys(e).to_set() =~= Set::empty());
    } else {
        lemma_map_of_dom(e.drop_last());
        assert(entry_keys(e) =~= entry_keys(e.drop_last()).push(e.last().0@));
        entry_keys(e.drop_last()).lemma_push_to_set_commute(e.last().0@);
    }
}

/// With unique keys, the value at a key is that of its entry.
pub proof fn lemma_map_of_index<V>(e: Seq<(String, V)>, i: int)
    requires
        keys_unique(e),
        0 <= i < e.len(),
    ensures
        map_of(e).contains_key(e[i].0@),
        map_of(e)[e[i].0@] == e[i].1,
    decreases e.len(),
{
    if i < e.len() - 1 {
        assert(e.drop_last()[i] == e[i]);
        lemma_map_of_index(e.drop_last(), i);
    }
}

/// A key that no entry has is not in the map.
pub proof fn lemma_map_of_absent<V>(e: Seq<(String, V)>, k: Seq<char>)
    requires
        forall|i: int| 0 <= i < e.len() ==> e[i].0@ != k,
    ensures
        !map_of(e).contains_key(k),
{
    lemma_map_of_dom(e);
    if entry_keys(e).contains(k) {
        let i = choose|i: int| 0 <= i < entry_keys(e).len() && entry_keys(e)[i] == k;
        assert(e[i].0@ == k);
    }
}

/// With unique keys the map has as many keys as there are entries.
pub proof fn lemma_map_of_len<V>(e: Seq<(String, V)>)
    requires
        keys_unique(e),
    ensures
        map_of(e).dom().len() == e.len(),
{
    lemma_map_of_dom(e);
    let ks = entry_keys(e);
    assert forall|i: int, j: int| 0 <= i < ks.len() && 0 <= j < ks.len() && i != j implies ks[i] != ks[j] by {
        if i < j {
        } else {
        }
    }
    ks.unique_seq_to_set();
}

/// Replacing the value of entry `i` updates the map at its key.
pub proof fn lemma_map_of_update<V>(e: Seq<(String, V)>, i: int, v: V)
    requires
        keys_unique(e),
        0 <= i < e.len(),
    ensures
        map_of(e.update(i, (e[i].0, v))) == map_of(e).insert(e[i].0@, v),
        keys_unique(e.update(i, (e[i].0, v))),
{
    let e2 = e.update(i, (e[i].0, v));
    let k = e[i].0@;
    lemma_map_of_dom(e);
    lemma_map_of_dom(e2);
    assert(entry_keys(e2) =~= entry_keys(e));
    assert forall|kk: Seq<char>| map_of(e2).contains_key(kk) implies map_of(e2)[kk] == map_of(e).insert(k, v)[kk] by {
        assert(entry_keys(e2).contains(kk));
        let j = choose|j: int| 0 <= j < entry_keys(e2).len() && entry_keys(e2)[j] == kk;
        lemma_map_of_index(e2, j);
        if j != i {
            lemma_map_of_index(e, j);
        }
    }
    lemma_map_of_index(e, i);
    assert(map_of(e2).dom() =~= map_of(e).insert(k, v).dom());
    assert(map_of(e2) =~= map_of(e).insert(k, v));
}

/// A map from strings to `V` that keeps first-insertion order.
#[derive(Debug)]
pub struct OrderedMap<V> {
    entries: Vec<(String, V)>,
}

impl<V> View for OrderedMap<V> {
    type V = Map<Seq<char>, V>;

    closed spec fn view(&self) -> Map<Seq<char>, V> {
        map_of(self.entries@)
    }
}

impl<V> OrderedMap<V> {
    #[verifier::type_invariant]
    closed spec fn inv(self) -> bool {
        keys_unique(self.entries@)
    }

    /// The keys in first-insertion order.
    pub closed spec fn spec_keys(&self) -> Seq<Seq<char>> {
        entry_keys(self.entries@)
    }

    /// An empty map.
    pub fn new() -> (r: Self)
        ensures
            r@ == Map::<Seq<char>, V>::empty(),
            r.spec_keys() == Seq::<Seq<char>>::empty(),
    {
        let r = OrderedMap { entries: Vec::new() };
        assert(r.spec_keys() =~= Seq::<Seq<char>>::empty());
        r
    }

    fn index_of(&self, key: &str) -> (r: Option<usize>)
        ensures
            match r {
                Some(i) => i < self.entries@.len() && self.entries@[i as int].0@ == key@,
                None => forall|i: int| 0 <= i < self.entries@.len() ==> self.entries@[i].0@ != key@,
            },
    {
        let mut i: usize = 0;
        while i < self.entries.len()
            invariant
                i <= self.entries@.len(),
                forall|j: int| 0 <= j < i ==> self.entries@[j].0@ != key@,
            decreases self.entries@.len() - i,
        {
            if str_eq(self.entries[i].0.as_str(), key) {
                return Some(i);
            }
            i = i + 1;
        }
        None
    }

    /// Whether `key` is present.
    pub fn contains_key(&self, key: &str) -> (r: bool)
        ensures
            r == self@.contains_key(key@),
    {
        proof {
            use_type_invariant(self);
        }
        match self.index_of(key) {
            Some(i) => {
                proof {
                    lemma_map_of_index(self.entries@, i as int);
                }
                true
            },
            None => {
                proof {
                    lemma_map_of_absent(self.entries@, key@);
                }
                false
            },
        }
    }

    /// The value at `key`, if any.
    pub fn get(&self, key: &str) -> (r: Option<&V>)
        ensures
            match r {
                Some(v) => self@.contains_key(key@) && self@[key@] == *v,
                None => !self@.contains_key(key@),
            },
    {
        proof {
            use_type_invariant(self);
        }
        match self.index_of(key) {
            Some(i) => {
                proof {
                    lemma_map_of_index(self.entries@, i as int);
                }
                Some(&self.entries[i].1)
            },
            None => {
                proof {
                    lemma_map_of_absent(self.entries@, key@);
                }
                None
            },
        }
    }

    /// Sets the value at `key`; a new key goes after all existing ones.
    pub fn insert(&mut self, key: String, value: V)
        ensures
            final(self)@ == old(self)@.insert(key@, value),
            old(self)@.contains_key(key@) ==> final(self).spec_keys() == old(self).spec_keys(),
            !old(self)@.contains_key(key@) ==> final(self).spec_keys() == old(self).spec_keys().push(key@),
    {
        proof {
            use_type_invariant(&*self);
        }
        let ghost old_e = self.entries@;
        let idx = self.index_of(key.as_str());
        let mut e: Vec<(String, V)> = Vec::new();
        std::mem::swap(&mut e, &mut self.entries);
        if let Some(i) = idx {
            proof {
                lemma_map_of_update(old_e, i as int, value);
                lemma_map_of_index(old_e, i as int);
            }
            let (kk, _old_v) = e.remove(i);
            e.insert(i, (kk, value));
            proof {
                assert(e@ =~= old_e.update(i as int, (old_e[i as int].0, value)));
                assert(entry_keys(e@) =~= entry_keys(old_e));
            }
        } else {
            proof {
                lemma_map_of_absent(old_e, key@);
            }
            e.push((key, value));
            proof {
                assert(e@.drop_last() =~= old_e);
                assert(entry_keys(e@) =~= entry_keys(old_e).push(key@));
            }
        }
        self.entries = e;
    }

    /// Removes `key`, returning its value if it was present.
    pub fn remove(&mut self, key: &str) -> (r: Option<V>)
        ensures
            final(self)@ == old(self)@.remove(key@),
            match r {
                Some(v) => old(self)@.contains_key(key@) && old(self)@[key@] == v,
                None => !old(self)@.contains_key(key@),
            },
    {
        proof {
            use_type_invariant(&*self);
        }
        let ghost old_e = self.entries@;
        match self.index_of(key) {
            None => {
                proof {
                    lemma_map_of_absent(old_e, key@);
                    assert(old_e.len() >= 0);
                    assert(map_of(old_e).remove(key@) =~= map_of(old_e));
                }
                None
            },
            Some(i) => {
                proof {
                    lemma_map_of_index(old_e, i as int);
                }
                let mut e: Vec<(String, V)> = Vec::new();
                std::mem::swap(&mut e, &mut self.entries);
                let (_k, v) = e.remove(i);
                proof {
                    let ne = e@;
                    assert(ne =~= old_e.remove(i as int));
                    assert(keys_unique(ne)) by {
                        assert forall|a: int, b: int| 0 <= a < b < ne.len() implies ne[a].0@ != ne[b].0@ by {
                            let a2 = if a < i { a } else { a + 1 };
                            let b2 = if b < i { b } else { b + 1 };
                            assert(ne[a] == old_e[a2]);
                            assert(ne[b] == old_e[b2]);
                        }
                    }
                    lemma_map_of_dom(ne);
                    lemma_map_of_dom(old_e);
                    assert forall|kk: Seq<char>| #[trigger] map_of(ne).contains_key(kk) <==> map_of(old_e).remove(key@).contains_key(kk) by {
                        if map_of(ne).contains_key(kk) {
                            assert(entry_keys(ne).contains(kk));
                            let j = choose|j: int| 0 <= j < entry_keys(ne).len() && entry_keys(ne)[j] == kk;
                            let j2 = if j < i { j } else { j + 1 };
                            assert(ne[j] == old_e[j2]);
                            assert(entry_keys(old_e)[j2] == kk);
                            assert(old_e[j2].0@ != old_e[i as int].0@);
                        }
                        if map_of(old_e).remove(key@).contains_key(kk) {
                            assert(entry_keys(old_e).contains(kk));
                            let j = choose|j: int| 0 <= j < entry_keys(old_e).len() && entry_keys(old_e)[j] == kk;
                            assert(j != i);
                            let j2 = if j < i { j } else { j - 1 };
                            assert(ne[j2] == old_e[j]);
                            assert(entry_keys(ne)[j2] == kk);
                        }
                    }
                    assert forall|kk: Seq<char>| #[trigger] map_of(ne).contains_key(kk) implies map_of(ne)[kk] == map_of(old_e)[kk] by {
                        assert(entry_keys(ne).contains(kk));
                        let j = choose|j: int| 0 <= j < entry_keys(ne).len() && entry_keys(ne)[j] == kk;
                        let j2 = if j < i { j } else { j + 1 };
                        assert(ne[j] == old_e[j2]);
                        lemma_map_of_index(ne, j);
                        lemma_map_of_index(old_e, j2);
                    }
                    assert(map_of(ne) =~= map_of(old_e).remove(key@));
                }
                self.entries = e;
                Some(v)
            },
        }
    }

    /// Number of keys.
    pub fn len(&self) -> (r: usize)
        ensures
            r == self@.dom().len(),
    {
        proof {
            use_type_invariant(self);
            lemma_map_of_len(self.entries@);
        }
        self.entries.len()
    }

    /// Whether there is no key.
    pub fn is_empty(&self) -> (r: bool)
        ensures
            r == (self@.dom().len() == 0),
            r == (self@ == Map::<Seq<char>, V>::empty()),
    {
        proof {
            use_type_invariant(self);
            lemma_map_of_dom(self.entries@);
            if self@.dom().len() == 0 {
                self@.dom().lemma_len0_is_empty();
                assert(self@ =~= Map::<Seq<char>, V>::empty());
            }
        }
        self.len() == 0
    }

    /// The keys in first-insertion order.
    pub fn keys(&self) -> (r: Vec<String>)
        ensures
            crate::text::views(r@) == self.spec_keys(),
            self.spec_keys().to_set() == self@.dom(),
            self.spec_keys().no_duplicates(),
            self.spec_keys().len() == self@.dom().len(),
            self@.dom().finite(),
    {
        proof {
            use_type_invariant(self);
            lemma_map_of_dom(self.entries@);
            lemma_map_of_len(self.entries@);
            let ks = self.spec_keys();
            assert forall|i: int, j: int| 0 <= i < ks.len() && 0 <= j < ks.len() && i != j implies ks[i] != ks[j] by {
                if i < j {
                } else {
                }
            }
        }
        let mut out: Vec<String> = Vec::new();
        let mut i: usize = 0;
        while i < self.entries.len()
            invariant
                i <= self.entries@.len(),
                crate::text::views(out@) == entry_keys(self.entries@).take(i as int),
            decreases self.entries@.len() - i,
        {
            let ghost before = out@;
            out.push(self.entries[i].0.clone());
            proof {
                assert(crate::text::views(out@) =~= crate::text::views(before).push(out@[i as int]@));
                assert(crate::text::views(out@) =~= entry_keys(self.entries@).take(i + 1));
            }
            i = i + 1;
        }
        assert(entry_keys(self.entries@).take(self.entries@.len() as int) =~= entry_keys(self.entries@));
        out
    }

    /// The key and value at position `i` in first-insertion order.
    pub fn entry_at(&self, i: usize) -> (r: (&String, &V))
        requires
            i < self.spec_keys().len(),
        ensures
            r.0@ == self.spec_keys()[i as int],
            self@.contains_key(r.0@),
            self@[r.0@] == *r.1,
    {
        proof {
            use_type_invariant(self);
            lemma_map_of_index(self.entries@, i as int);
        }
        (&self.entries[i].0, &self.entries[i].1)
    }
}


impl<V: Clone> Clone for OrderedMap<V> {
    /// A copy with the same keys in the same order, each value cloned.
    fn clone(&self) -> (r: Self)
        ensures
            r.spec_keys() == self.spec_keys(),
            r@.dom() == self@.dom(),
            forall|k: Seq<char>| #[trigger] self@.contains_key(k) ==> cloned::<V>(self@[k], r@[k]),
    {
        proof {
            use_type_invariant(self);
        }
        let mut e: Vec<(String, V)> = Vec::new();
        let mut i: usize = 0;
        while i < self.entries.len()
            invariant
                i <= self.entries@.len(),
                e@.len() == i,
                keys_unique(self.entries@),
                forall|j: int| 0 <= j < i ==> #[trigger] e@[j].0@ == self.entries@[j].0@,
                forall|j: int| 0 <= j < i ==> cloned::<V>(self.entries@[j].1, #[trigger] e@[j].1),
            decreases self.entries@.len() - i,
        {
            let k = self.entries[i].0.clone();
            let v = self.entries[i].1.clone();
            e.push((k, v));
            i = i + 1;
        }
        proof {
            let se = self.entries@;
            assert(entry_keys(e@) =~= entry_keys(se));
            assert(keys_unique(e@)) by {
                assert forall|a: int, b: int| 0 <= a < b < e@.len() implies e@[a].0@ != e@[b].0@ by {
                    assert(e@[a].0@ == se[a].0@);
                    assert(e@[b].0@ == se[b].0@);
                }
            }
            lemma_map_of_dom(e@);
            lemma_map_of_dom(se);
            assert forall|k: Seq<char>| #[trigger] map_of(se).contains_key(k) implies cloned::<V>(map_of(se)[k], map_of(e@)[k]) by {
                assert(entry_keys(se).contains(k));
                let j = choose|j: int| 0 <= j < entry_keys(se).len() && entry_keys(se)[j] == k;
                lemma_map_of_index(se, j);
                assert(e@[j].0@ == se[j].0@);
                lemma_map_of_index(e@, j);
            }
        }
        OrderedMap { entries: e }
    }
}

} // verus!
