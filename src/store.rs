//! A keyed store of values with string keys that keeps the order of insertion.
use vstd::prelude::*;

verus! {

/// Values under distinct string keys, in the order they were inserted.
pub struct KeyedStore<V> {
    entries: Vec<(String, V)>,
}

/// Whether `k` is a key of one of `entries`.
pub open spec fn has_key<V>(entries: Seq<(Seq<char>, V)>, k: Seq<char>) -> bool {
    exists|i: int| 0 <= i < entries.len() && (#[trigger] entries[i]).0 == k
}

/// The keys of `entries` are pairwise distinct.
pub open spec fn keys_distinct<V>(entries: Seq<(Seq<char>, V)>) -> bool {
    forall|i: int, j: int|
        0 <= i < entries.len() && 0 <= j < entries.len() && i != j ==> (#[trigger] entries[i]).0 != (#[trigger] entries[j]).0
}

/// The map from each key of `entries` to its value.
pub open spec fn map_of<V>(entries: Seq<(Seq<char>, V)>) -> Map<Seq<char>, V> {
    Map::new(
        |k: Seq<char>| has_key(entries, k),
        |k: Seq<char>| entries[choose|i: int| 0 <= i < entries.len() && (#[trigger] entries[i]).0 == k].1,
    )
}

/// With distinct keys, the value in the map under the key of entry `i` is that entry's value.
pub proof fn lemma_map_of_index<V>(entries: Seq<(Seq<char>, V)>, i: int)
    requires
        keys_distinct(entries),
        0 <= i < entries.len(),
    ensures
        map_of(entries).contains_key(entries[i].0),
        map_of(entries)[entries[i].0] == entries[i].1,
{
    let k = entries[i].0;
    assert(has_key(entries, k));
    let j = choose|j: int| 0 <= j < entries.len() && (#[trigger] entries[j]).0 == k;
    assert(entries[j].0 == k);
}

impl<V> KeyedStore<V> {
    /// The entries, in order, with the keys' views.
    pub closed spec fn spec_entries(&self) -> Seq<(Seq<char>, V)> {
        self.entries@.map_values(|e: (String, V)| (e.0@, e.1))
    }

    pub open spec fn view(&self) -> Map<Seq<char>, V> {
        map_of(self.spec_entries())
    }

    pub open spec fn wf(&self) -> bool {
        keys_distinct(self.spec_entries())
    }

    pub fn new() -> (r: Self)
        ensures
            r.wf(),
            r.spec_entries() == Seq::<(Seq<char>, V)>::empty(),
            r@ == Map::<Seq<char>, V>::empty(),
    {
        let r = KeyedStore { entries: Vec::new() };
        assert(r.spec_entries() =~= Seq::<(Seq<char>, V)>::empty());
        assert(r@ =~= Map::<Seq<char>, V>::empty());
        r
    }

    pub fn len(&self) -> (r: usize)
        ensures
            r == self.spec_entries().len(),
    {
        self.entries.len()
    }

    /// The position of `key`, if it is held.
    pub fn index_of(&self, key: &str) -> (r: Option<usize>)
        requires
            self.wf(),
        ensures
            r is None <==> !self@.contains_key(key@),
            r matches Some(i) ==> i < self.spec_entries().len() && self.spec_entries()[i as int].0
                == key@ && self@[key@] == self.spec_entries()[i as int].1,
    {
        let wanted = String::from_str(key);
        let mut i: usize = 0;
        while i < self.entries.len()
            invariant
                self.wf(),
                wanted@ == key@,
                i <= self.spec_entries().len(),
                self.spec_entries().len() == self.entries@.len(),
                forall|j: int| 0 <= j < i ==> (#[trigger] self.spec_entries()[j]).0 != key@,
            decreases self.entries@.len() - i,
        {
            if self.entries[i].0 == wanted {
                proof {
                    lemma_map_of_index(self.spec_entries(), i as int);
                }
                return Some(i);
            }
            i = i + 1;
        }
        proof {
            if has_key(self.spec_entries(), key@) {
                let j = choose|j: int| 0 <= j < self.spec_entries().len() && (#[trigger] self.spec_entries()[j]).0 == key@;
            }
        }
        None
    }

    /// The key and value at position `i`.
    pub fn entry_at(&self, i: usize) -> (r: (&String, &V))
        requires
            i < self.spec_entries().len(),
        ensures
            r.0@ == self.spec_entries()[i as int].0,
            *r.1 == self.spec_entries()[i as int].1,
    {
        let e = &self.entries[i];
        (&e.0, &e.1)
    }

    /// The value under `key`, if any.
    pub fn get(&self, key: &str) -> (r: Option<&V>)
        requires
            self.wf(),
        ensures
            r is None <==> !self@.contains_key(key@),
            r matches Some(v) ==> *v == self@[key@],
    {
        match self.index_of(key) {
            Some(i) => Some(&self.entries[i].1),
            None => None,
        }
    }

    /// Inserts `value` under `key` unless the key is held already; says whether it did.
    pub fn insert_if_absent(&mut self, key: String, value: V) -> (r: bool)
        requires
            old(self).wf(),
        ensures
            final(self).wf(),
            r == !old(self)@.contains_key(key@),
            r ==> final(self).spec_entries() == old(self).spec_entries().push((key@, value)),
            r ==> final(self)@ == old(self)@.insert(key@, value),
            !r ==> *final(self) == *old(self),
    {
        match self.index_of(key.as_str()) {
            Some(_) => false,
            None => {
                let ghost old_entries = self.spec_entries();
                let ghost k = key@;
                self.entries.push((key, value));
                proof {
                    let e = self.spec_entries();
                    assert(e =~= old_entries.push((k, value)));
                    assert forall|i: int| 0 <= i < old_entries.len() implies (#[trigger] old_entries[i]).0 != k by {
                        if old_entries[i].0 == k {
                            assert(has_key(old_entries, k));
                        }
                    }
                    assert(keys_distinct(e));
                    assert forall|q: Seq<char>| #[trigger] map_of(e).contains_key(q) == old(self)@.insert(k, value).contains_key(q) by {
                        if has_key(old_entries, q) {
                            let j = choose|j: int| 0 <= j < old_entries.len() && (#[trigger] old_entries[j]).0 == q;
                            assert(e[j].0 == q);
                        }
                        if has_key(e, q) && q != k {
                            let j = choose|j: int| 0 <= j < e.len() && (#[trigger] e[j]).0 == q;
                            assert(old_entries[j].0 == q);
                        }
                        assert(e[old_entries.len() as int].0 == k);
                    }
                    assert forall|q: Seq<char>| #[trigger] map_of(e).contains_key(q) implies map_of(e)[q] == old(self)@.insert(k, value)[q] by {
                        let j = choose|j: int| 0 <= j < e.len() && (#[trigger] e[j]).0 == q;
                        lemma_map_of_index(e, j);
                        if j < old_entries.len() {
                            lemma_map_of_index(old_entries, j);
                        }
                    }
                    assert(map_of(e) =~= old(self)@.insert(k, value));
                }
                true
            }
        }
    }

    /// The value at position `i`, to be changed in place; the key stays.
    pub fn value_mut_at(&mut self, i: usize) -> (r: &mut V)
        requires
            old(self).wf(),
            i < old(self).spec_entries().len(),
        ensures
            *r == old(self).spec_entries()[i as int].1,
            final(self).spec_entries() == old(self).spec_entries().update(
                i as int,
                (old(self).spec_entries()[i as int].0, *final(r)),
            ),
    {
        &mut self.entries[i].1
    }
}

/// Replacing the value of entry `i` keeps the keys distinct and sets the map at its key.
pub proof fn lemma_update_value<V>(entries: Seq<(Seq<char>, V)>, i: int, v: V)
    requires
        keys_distinct(entries),
        0 <= i < entries.len(),
    ensures
        keys_distinct(entries.update(i, (entries[i].0, v))),
        map_of(entries.update(i, (entries[i].0, v))) == map_of(entries).insert(entries[i].0, v),
{
    let k = entries[i].0;
    let e = entries.update(i, (k, v));
    assert forall|a: int, b: int| 0 <= a < e.len() && 0 <= b < e.len() && a != b implies (#[trigger] e[a]).0 != (#[trigger] e[b]).0 by {
        assert(entries[a].0 == e[a].0);
        assert(entries[b].0 == e[b].0);
    }
    assert forall|q: Seq<char>| #[trigger] map_of(e).contains_key(q) == map_of(entries).insert(k, v).contains_key(q) by {
        if has_key(entries, q) {
            let j = choose|j: int| 0 <= j < entries.len() && (#[trigger] entries[j]).0 == q;
            assert(e[j].0 == q);
        }
        if has_key(e, q) {
            let j = choose|j: int| 0 <= j < e.len() && (#[trigger] e[j]).0 == q;
            assert(entries[j].0 == q);
        }
        assert(e[i].0 == k);
    }
    assert forall|q: Seq<char>| #[trigger] map_of(e).contains_key(q) implies map_of(e)[q] == map_of(entries).insert(k, v)[q] by {
        let j = choose|j: int| 0 <= j < e.len() && (#[trigger] e[j]).0 == q;
        lemma_map_of_index(e, j);
        lemma_map_of_index(entries, j);
        if j != i {
            assert(e[j] == entries[j]);
        }
    }
    assert(map_of(e) =~= map_of(entries).insert(k, v));
}

} // verus!
