//! A map over a vector of entries, keyed by the mathematical value of its keys.

use vstd::prelude::*;

verus! {

/// A key that can be compared and copied by its view.
pub trait Key: View + Sized {
    /// Compares two keys by their views.
    fn same(&self, other: &Self) -> (same: bool)
        ensures
            same == (self@ == other@),
    ;

    /// A second key with the same view.
    fn duplicate(&self) -> (copy: Self)
        ensures
            copy@ == self@,
    ;
}

impl Key for String {
    fn same(&self, other: &Self) -> (same: bool) {
        *self == *other
    }

    fn duplicate(&self) -> (copy: Self) {
        self.clone()
    }
}

/// Entries in insertion order, no two of them under the same key.
pub struct KeyedMap<K: Key, V> {
    entries: Vec<(K, V)>,
}

/// The position of the entry under `key`.
pub closed spec fn position_of<K: Key, V>(entries: Seq<(K, V)>, key: K::V) -> int {
    choose|i: int| 0 <= i < entries.len() && (#[trigger] entries[i]).0@ == key
}

/// Some entry stands under `key`.
pub closed spec fn has_key<K: Key, V>(entries: Seq<(K, V)>, key: K::V) -> bool {
    exists|i: int| 0 <= i < entries.len() && (#[trigger] entries[i]).0@ == key
}

impl<K: Key, V> View for KeyedMap<K, V> {
    type V = Map<K::V, V>;

    closed spec fn view(&self) -> Map<K::V, V> {
        Map::new(
            |key: K::V| has_key(self.entries@, key),
            |key: K::V| self.entries@[position_of(self.entries@, key)].1,
        )
    }
}

impl<K: Key, V> KeyedMap<K, V> {
    /// No two entries share a key.
    pub closed spec fn wf(&self) -> bool {
        forall|i: int, j: int|
            0 <= i < self.entries@.len() && 0 <= j < self.entries@.len() && (
            #[trigger] self.entries@[i]).0@ == (#[trigger] self.entries@[j]).0@ ==> i == j
    }

    /// The keys in insertion order.
    pub closed spec fn order(&self) -> Seq<K::V> {
        self.entries@.map_values(|entry: (K, V)| entry.0@)
    }

    proof fn lemma_at(&self, i: int)
        requires
            self.wf(),
            0 <= i < self.entries@.len(),
        ensures
            self@.dom().contains(self.entries@[i].0@),
            self@[self.entries@[i].0@] == self.entries@[i].1,
    {
        let key = self.entries@[i].0@;
        assert(has_key(self.entries@, key));
        let p = position_of(self.entries@, key);
        assert(0 <= p < self.entries@.len() && self.entries@[p].0@ == key);
    }

    proof fn lemma_absent(&self, key: K::V)
        requires
            forall|i: int| 0 <= i < self.entries@.len() ==> (#[trigger] self.entries@[i]).0@ != key,
        ensures
            !self@.dom().contains(key),
    {
        assert(!has_key(self.entries@, key));
    }

    proof fn lemma_present(&self, key: K::V) -> (p: int)
        requires
            self.wf(),
            self@.dom().contains(key),
        ensures
            0 <= p < self.entries@.len(),
            self.entries@[p].0@ == key,
            self@[key] == self.entries@[p].1,
    {
        assert(has_key(self.entries@, key));
        position_of(self.entries@, key)
    }

    /// The map holds as many keys as it has entries, and its order names each
    /// key exactly once.
    pub proof fn lemma_order(&self)
        requires
            self.wf(),
        ensures
            self@.dom().finite(),
            self.order().no_duplicates(),
            self.order().to_set() == self@.dom(),
            self.order().len() == self@.dom().len(),
    {
        let order = self.order();
        assert forall|key: K::V| order.to_set().contains(key) <==> self@.dom().contains(key) by {
            if order.contains(key) {
                let i = choose|i: int| 0 <= i < order.len() && order[i] == key;
                self.lemma_at(i);
            }
            if self@.dom().contains(key) {
                let p = self.lemma_present(key);
                assert(order[p] == key);
            }
        }
        assert(order.to_set() =~= self@.dom());
        order.unique_seq_to_set();
        vstd::seq_lib::seq_to_set_is_finite(order);
    }

    /// The empty map.
    pub fn new() -> (map: Self)
        ensures
            map.wf(),
            map@ == Map::<K::V, V>::empty(),
            map.order() == Seq::<K::V>::empty(),
    {
        let map = KeyedMap { entries: Vec::new() };
        proof {
            assert forall|key: K::V| !map@.dom().contains(key) by {
                map.lemma_absent(key);
            }
            assert(map@ =~= Map::<K::V, V>::empty());
            assert(map.order() =~= Seq::<K::V>::empty());
        }
        map
    }

    fn find(&self, key: &K) -> (found: Option<usize>)
        requires
            self.wf(),
        ensures
            found matches Some(i) ==> i < self.entries@.len() && self.entries@[i as int].0@ == key@
                && self@.dom().contains(key@) && self@[key@] == self.entries@[i as int].1,
            found is None ==> !self@.dom().contains(key@) && forall|i: int|
                0 <= i < self.entries@.len() ==> (#[trigger] self.entries@[i]).0@ != key@,
    {
        let mut i: usize = 0;
        while i < self.entries.len()
            invariant
                self.wf(),
                i <= self.entries@.len(),
                forall|j: int| 0 <= j < i ==> (#[trigger] self.entries@[j]).0@ != key@,
            decreases self.entries@.len() - i,
        {
            if self.entries[i].0.same(key) {
                proof {
                    self.lemma_at(i as int);
                }
                return Some(i);
            }
            i += 1;
        }
        proof {
            self.lemma_absent(key@);
        }
        None
    }

    /// Whether the key is present.
    pub fn contains(&self, key: &K) -> (present: bool)
        requires
            self.wf(),
        ensures
            present == self@.dom().contains(key@),
    {
        self.find(key).is_some()
    }

    /// The value under the key.
    pub fn get(&self, key: &K) -> (value: Option<&V>)
        requires
            self.wf(),
        ensures
            value is Some == self@.dom().contains(key@),
            value matches Some(v) ==> *v == self@[key@],
    {
        match self.find(key) {
            Some(i) => Some(&self.entries[i].1),
            None => None,
        }
    }

    /// The number of keys.
    pub fn len(&self) -> (len: usize)
        requires
            self.wf(),
        ensures
            len == self@.dom().len(),
            len == self.order().len(),
    {
        proof {
            self.lemma_order();
        }
        self.entries.len()
    }

    /// Puts a value under the key and hands back the one it replaces.
    pub fn insert(&mut self, key: K, value: V) -> (previous: Option<V>)
        requires
            old(self).wf(),
        ensures
            final(self).wf(),
            final(self)@ == old(self)@.insert(key@, value),
            previous is Some == old(self)@.dom().contains(key@),
            previous matches Some(v) ==> v == old(self)@[key@],
            old(self)@.dom().contains(key@) ==> final(self).order() == old(self).order(),
            !old(self)@.dom().contains(key@) ==> final(self).order() == old(self).order().push(
                key@,
            ),
    {
        match self.find(&key) {
            Some(i) => {
                let mut slot = value;
                let ghost before = *self;
                std::mem::swap(&mut slot, &mut self.entries[i].1);
                proof {
                    assert(self.entries@.len() == before.entries@.len());
                    assert forall|j: int| 0 <= j < self.entries@.len() implies (
                    #[trigger] self.entries@[j]).0@ == before.entries@[j].0@ by {}
                    assert(self.wf());
                    self.lemma_same_as_insert(&before, i as int, value);
                    assert(self.order() =~= before.order());
                }
                Some(slot)
            },
            None => {
                let ghost before = *self;
                self.entries.push((key, value));
                proof {
                    let last = before.entries@.len() as int;
                    assert(self.entries@[last] == (key, value));
                    assert forall|j: int| 0 <= j < last implies #[trigger] self.entries@[j]
                        == before.entries@[j] by {}
                    assert(self.wf());
                    self.lemma_same_as_insert(&before, last, value);
                    assert(self.order() =~= before.order().push(key@));
                }
                None
            },
        }
    }

    proof fn lemma_same_as_insert(&self, before: &Self, at: int, value: V)
        requires
            self.wf(),
            before.wf(),
            0 <= at < self.entries@.len(),
            self.entries@.len() == before.entries@.len() || (self.entries@.len()
                == before.entries@.len() + 1 && at == before.entries@.len()),
            self.entries@[at].1 == value,
            at < before.entries@.len() ==> before.entries@[at].0@ == self.entries@[at].0@,
            forall|j: int|
                0 <= j < before.entries@.len() && j != at ==> #[trigger] self.entries@[j]
                    == before.entries@[j],
        ensures
            self@ == before@.insert(self.entries@[at].0@, value),
    {
        let key = self.entries@[at].0@;
        assert forall|k: K::V| self@.dom().contains(k) == before@.insert(key, value).dom().contains(
            k,
        ) by {
            if self@.dom().contains(k) && k != key {
                let p = self.lemma_present(k);
                assert(self.entries@[p] == before.entries@[p]);
                before.lemma_at(p);
            }
            if before@.dom().contains(k) {
                let p = before.lemma_present(k);
                self.lemma_at(p);
            }
            self.lemma_at(at);
        }
        assert forall|k: K::V| self@.dom().contains(k) implies self@[k] == before@.insert(
            key,
            value,
        )[k] by {
            let p = self.lemma_present(k);
            self.lemma_at(at);
            if k != key {
                assert(self.entries@[p] == before.entries@[p]);
                before.lemma_at(p);
            }
        }
        assert(self@ =~= before@.insert(key, value));
    }

    /// Takes the value under the key out of the map.
    pub fn remove(&mut self, key: &K) -> (removed: Option<V>)
        requires
            old(self).wf(),
        ensures
            final(self).wf(),
            final(self)@ == old(self)@.remove(key@),
            removed is Some == old(self)@.dom().contains(key@),
            removed matches Some(v) ==> v == old(self)@[key@],
            final(self).order() == old(self).order().filter(|k: K::V| k != key@),
    {
        let ghost before = *self;
        match self.find(key) {
            Some(i) => {
                let entry = self.entries.remove(i);
                proof {
                    self.lemma_same_as_remove(&before, i as int, key@);
                }
                Some(entry.1)
            },
            None => {
                proof {
                    assert(self@ =~= before@.remove(key@));
                    let keep = |k: K::V| k != key@;
                    assert forall|j: int| 0 <= j < before.order().len() implies keep(
                        #[trigger] before.order()[j],
                    ) by {
                        assert(before.entries@[j].0@ != key@);
                    }
                    lemma_filter_all(before.order(), keep);
                }
                None
            },
        }
    }

    proof fn lemma_same_as_remove(&self, before: &Self, at: int, key: K::V)
        requires
            before.wf(),
            0 <= at < before.entries@.len(),
            before.entries@[at].0@ == key,
            self.entries@ == before.entries@.remove(at),
        ensures
            self.wf(),
            self@ == before@.remove(key),
            self.order() == before.order().filter(|k: K::V| k != key),
    {
        assert forall|j: int| 0 <= j < self.entries@.len() implies #[trigger] self.entries@[j]
            == before.entries@[if j < at {
            j
        } else {
            j + 1
        }] by {}
        assert(self.wf());
        assert forall|k: K::V| self@.dom().contains(k) == before@.remove(key).dom().contains(k) by {
            if self@.dom().contains(k) {
                let p = self.lemma_present(k);
                before.lemma_at(if p < at {
                    p
                } else {
                    p + 1
                });
                before.lemma_at(at);
            }
            if before@.dom().contains(k) && k != key {
                let p = before.lemma_present(k);
                assert(p != at);
                self.lemma_at(if p < at {
                    p
                } else {
                    p - 1
                });
            }
        }
        assert forall|k: K::V| self@.dom().contains(k) implies self@[k] == before@.remove(
            key,
        )[k] by {
            let p = self.lemma_present(k);
            before.lemma_at(if p < at {
                p
            } else {
                p + 1
            });
        }
        assert(self@ =~= before@.remove(key));
        let keep = |k: K::V| k != key;
        let order = before.order();
        let left = order.subrange(0, at);
        let right = order.subrange(at + 1, order.len() as int);
        assert(order =~= left + seq![key] + right);
        assert forall|j: int| 0 <= j < left.len() implies keep(#[trigger] left[j]) by {
            assert(before.entries@[j].0@ != before.entries@[at].0@);
        }
        assert forall|j: int| 0 <= j < right.len() implies keep(#[trigger] right[j]) by {
            assert(before.entries@[at + 1 + j].0@ != before.entries@[at].0@);
        }
        lemma_filter_all(left, keep);
        lemma_filter_all(right, keep);
        Seq::filter_distributes_over_add(left, seq![key], keep);
        Seq::filter_distributes_over_add(left + seq![key], right, keep);
        reveal_with_fuel(Seq::filter, 2);
        assert(seq![key].drop_last() =~= Seq::<K::V>::empty());
        assert(seq![key].filter(keep) =~= Seq::<K::V>::empty());
        assert(self.order() =~= left + right);
    }

    /// A place to change the value under the key.
    pub fn get_mut(&mut self, key: &K) -> (value: Option<&mut V>)
        requires
            old(self).wf(),
        ensures
            final(self).wf(),
            final(self).order() == old(self).order(),
            value is Some == old(self)@.dom().contains(key@),
            value matches Some(v) ==> *v == old(self)@[key@] && final(self)@ == old(self)@.insert(
                key@,
                *final(v),
            ),
            value is None ==> final(self)@ == old(self)@,
    {
        let ghost before = *self;
        match self.find(key) {
            Some(i) => {
                let value = &mut self.entries[i].1;
                proof {
                    let after = after_borrow(*self);
                    assert(after.entries@.len() == before.entries@.len());
                    assert forall|j: int| 0 <= j < after.entries@.len() implies (
                    #[trigger] after.entries@[j]).0@ == before.entries@[j].0@ by {}
                    assert(after.wf());
                    after.lemma_same_as_insert(&before, i as int, *final(value));
                    assert(after.order() =~= before.order());
                }
                Some(value)
            },
            None => None,
        }
    }

    /// The keys in insertion order.
    pub fn keys(&self) -> (keys: Vec<K>)
        requires
            self.wf(),
        ensures
            keys@.map_values(|k: K| k@) == self.order(),
    {
        let mut keys: Vec<K> = Vec::new();
        let mut i: usize = 0;
        while i < self.entries.len()
            invariant
                i <= self.entries@.len(),
                keys@.len() == i,
                forall|j: int| 0 <= j < i ==> (#[trigger] keys@[j])@ == self.entries@[j].0@,
            decreases self.entries@.len() - i,
        {
            keys.push(self.entries[i].0.duplicate());
            i += 1;
        }
        assert(keys@.map_values(|k: K| k@) =~= self.order());
        keys
    }

    /// Removes every entry.
    pub fn clear(&mut self)
        ensures
            final(self).wf(),
            final(self)@ == Map::<K::V, V>::empty(),
            final(self).order() == Seq::<K::V>::empty(),
    {
        self.entries.clear();
        proof {
            assert forall|key: K::V| !self@.dom().contains(key) by {
                self.lemma_absent(key);
            }
            assert(self@ =~= Map::<K::V, V>::empty());
            assert(self.order() =~= Seq::<K::V>::empty());
        }
    }
}

/// Filtering by a predicate that every element meets changes nothing.
pub proof fn lemma_filter_all<A>(s: Seq<A>, keep: spec_fn(A) -> bool)
    requires
        forall|i: int| 0 <= i < s.len() ==> keep(#[trigger] s[i]),
    ensures
        s.filter(keep) == s,
    decreases s.len(),
{
    reveal(Seq::filter);
    if s.len() > 0 {
        lemma_filter_all(s.drop_last(), keep);
        assert(keep(s[s.len() - 1]));
        assert(s =~= s.drop_last().push(s.last()));
    }
}

} // verus!
