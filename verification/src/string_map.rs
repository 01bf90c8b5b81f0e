//! Maps keyed by text, and the deep copies that the library hands out.
use vstd::prelude::*;

use crate::places::lemma_longer_take;

verus! {

/// Data with a mathematical model that a deep copy keeps.
pub trait Deep: Sized {
    /// The mathematical value that the data stands for.
    type Model;

    spec fn model(&self) -> Self::Model;

    fn duplicate(&self) -> (copy: Self)
        ensures
            copy.model() == self.model(),
    ;
}

impl Deep for String {
    type Model = Seq<char>;

    open spec fn model(&self) -> Seq<char> {
        self@
    }

    fn duplicate(&self) -> (copy: Self) {
        self.clone()
    }
}

impl<T: Deep> Deep for Option<T> {
    type Model = Option<T::Model>;

    open spec fn model(&self) -> Option<T::Model> {
        match self {
            Some(inner) => Some(inner.model()),
            None => None,
        }
    }

    fn duplicate(&self) -> (copy: Self) {
        match self {
            Some(inner) => Some(inner.duplicate()),
            None => None,
        }
    }
}

impl<T: Deep> Deep for Vec<T> {
    type Model = Seq<T::Model>;

    open spec fn model(&self) -> Seq<T::Model> {
        self@.map_values(|item: T| item.model())
    }

    fn duplicate(&self) -> (copy: Self) {
        let mut copy: Vec<T> = Vec::new();
        for i in 0..self.len()
            invariant
                copy@.len() == i,
                forall|j: int| 0 <= j < i ==> (#[trigger] copy@[j]).model() == self@[j].model(),
        {
            copy.push(self[i].duplicate());
        }
        proof {
            assert(copy.model() =~= self.model());
        }
        copy
    }
}

/// A map from text to values of type `V`.
///
/// No key occurs twice. The map remembers the order in which its keys were
/// first inserted, which is the order of [`StringMap::keys`].
#[derive(Debug)]
pub struct StringMap<V> {
    entries: Vec<(String, V)>,
}

impl<V> View for StringMap<V> {
    type V = Map<Seq<char>, V>;

    closed spec fn view(&self) -> Map<Seq<char>, V> {
        Map::new(
            |key: Seq<char>| self.keys().contains(key),
            |key: Seq<char>| self.entries@[self.keys().index_of(key)].1,
        )
    }
}

impl<V> StringMap<V> {
    /// The keys, in the order in which they were first inserted.
    pub closed spec fn keys(&self) -> Seq<Seq<char>> {
        self.entries@.map_values(|entry: (String, V)| entry.0@)
    }

    #[verifier::type_invariant]
    spec fn distinct_keys(&self) -> bool {
        self.keys().no_duplicates()
    }

    /// What always holds of the order of the keys: each key of the map stands
    /// in it exactly once.
    pub open spec fn ordered(&self) -> bool {
        &&& self.keys().no_duplicates()
        &&& forall|key: Seq<char>| self@.contains_key(key) <==> #[trigger] self.keys().contains(key)
    }

    proof fn lemma_ordered(&self)
        requires
            self.distinct_keys(),
        ensures
            self.ordered(),
    {
    }

    proof fn lemma_entry(&self, i: int)
        requires
            self.distinct_keys(),
            0 <= i < self.entries@.len(),
        ensures
            self.keys()[i] == self.entries@[i].0@,
            self@.contains_key(self.keys()[i]),
            self@[self.keys()[i]] == self.entries@[i].1,
    {
        let key = self.keys()[i];
        assert(self.keys().contains(key));
        let found = self.keys().index_of(key);
        assert(self.keys()[found] == key);
        assert(found == i);
    }

    pub fn new() -> (map: Self)
        ensures
            map@ == Map::<Seq<char>, V>::empty(),
            map.keys() == Seq::<Seq<char>>::empty(),
    {
        let map = StringMap { entries: Vec::new() };
        assert(map@ =~= Map::<Seq<char>, V>::empty());
        map
    }

    /// The number of keys.
    pub fn len(&self) -> (count: usize)
        ensures
            count == self.keys().len(),
            self.ordered(),
    {
        proof {
            use_type_invariant(self);
        }
        self.entries.len()
    }

    /// The `i`-th key in the order of first insertion.
    pub fn key_at(&self, i: usize) -> (key: &String)
        requires
            i < self.keys().len(),
        ensures
            key@ == self.keys()[i as int],
    {
        &self.entries[i].0
    }

    /// The value of the `i`-th key in the order of first insertion.
    pub fn value_at(&self, i: usize) -> (value: &V)
        requires
            i < self.keys().len(),
        ensures
            self@.contains_key(self.keys()[i as int]),
            *value == self@[self.keys()[i as int]],
    {
        proof {
            use_type_invariant(self);
            self.lemma_entry(i as int);
        }
        &self.entries[i].1
    }

    /// The keys with their values, in the order of first insertion.
    pub fn into_entries(self) -> (entries: Vec<(String, V)>)
        ensures
            self.ordered(),
            entries@.len() == self.keys().len(),
            forall|i: int|
                0 <= i < entries@.len() ==> (#[trigger] entries@[i]).0@ == self.keys()[i]
                    && self@.contains_key(self.keys()[i]) && entries@[i].1 == self@[self.keys()[i]],
    {
        proof {
            use_type_invariant(&self);
            assert forall|i: int| 0 <= i < self.entries@.len() implies (
            #[trigger] self.entries@[i]).0@ == self.keys()[i] && self@.contains_key(self.keys()[i])
                && self.entries@[i].1 == self@[self.keys()[i]] by {
                self.lemma_entry(i);
            }
        }
        self.entries
    }

    fn position(&self, key: &String) -> (place: Option<usize>)
        ensures
            match place {
                Some(i) => i < self.entries@.len() && self.keys()[i as int] == key@,
                None => !self.keys().contains(key@),
            },
    {
        for i in 0..self.entries.len()
            invariant
                forall|j: int| 0 <= j < i ==> self.entries@[j].0@ != key@,
        {
            if self.entries[i].0 == *key {
                return Some(i);
            }
        }
        assert(!self.keys().contains(key@));
        None
    }

    pub fn contains_key(&self, key: &String) -> (found: bool)
        ensures
            found == self@.contains_key(key@),
    {
        self.position(key).is_some()
    }

    pub fn get(&self, key: &String) -> (value: Option<&V>)
        ensures
            match value {
                Some(v) => self@.contains_key(key@) && *v == self@[key@],
                None => !self@.contains_key(key@),
            },
    {
        proof {
            use_type_invariant(self);
        }
        match self.position(key) {
            Some(i) => {
                proof {
                    self.lemma_entry(i as int);
                }
                Some(&self.entries[i].1)
            },
            None => None,
        }
    }

    /// Binds `key` to `value`, in place of what it was bound to.
    pub fn insert(&mut self, key: String, value: V)
        ensures
            final(self)@ == old(self)@.insert(key@, value),
            final(self).keys() == (if old(self)@.contains_key(key@) {
                old(self).keys()
            } else {
                old(self).keys().push(key@)
            }),
    {
        proof {
            use_type_invariant(&*self);
        }
        let place = self.position(&key);
        let mut entries: Vec<(String, V)> = Vec::new();
        std::mem::swap(&mut entries, &mut self.entries);
        let ghost before = StringMap { entries: entries };
        match place {
            Some(i) => {
                entries[i] = (key, value);
                proof {
                    let after = StringMap { entries: entries };
                    assert(after.keys() =~= before.keys());
                    before.lemma_ordered();
                    assert forall|k: Seq<char>| before.keys().contains(k) implies #[trigger] after@[k]
                        == before@.insert(key@, value)[k] by {
                        let at = before.keys().index_of(k);
                        assert(before.keys()[at] == k);
                        if at == i {
                            assert(k == key@);
                        } else {
                            assert(k != key@) by {
                                assert(before.keys()[i as int] == key@);
                            }
                        }
                    }
                    assert(after@ =~= before@.insert(key@, value));
                }
            },
            None => {
                let ghost old_entries = entries@;
                entries.push((key, value));
                proof {
                    let after = StringMap { entries: entries };
                    assert(after.keys() =~= before.keys().push(key@));
                    assert forall|k: Seq<char>| after.keys().contains(k) <==> (k == key@
                        || before.keys().contains(k)) by {
                        if before.keys().contains(k) {
                            let at = before.keys().index_of(k);
                            assert(after.keys()[at] == k);
                        }
                        if k == key@ {
                            assert(after.keys()[old_entries.len() as int] == k);
                        }
                    }
                    assert forall|k: Seq<char>| after.keys().contains(k) implies #[trigger] after@[k]
                        == before@.insert(key@, value)[k] by {
                        after.lemma_ordered();
                        if k == key@ {
                            after.lemma_entry(old_entries.len() as int);
                        } else {
                            let at = before.keys().index_of(k);
                            assert(before.keys()[at] == k);
                            before.lemma_entry(at);
                            after.lemma_entry(at);
                        }
                    }
                    assert(after@ =~= before@.insert(key@, value));
                }
            },
        }
        self.entries = entries;
    }

    /// Takes `key` out of the map, if it is there.
    pub fn remove(&mut self, key: &String)
        ensures
            final(self)@ == old(self)@.remove(key@),
            final(self).keys() == (if old(self)@.contains_key(key@) {
                old(self).keys().remove(old(self).keys().index_of(key@))
            } else {
                old(self).keys()
            }),
    {
        proof {
            use_type_invariant(&*self);
        }
        let place = self.position(key);
        let mut entries: Vec<(String, V)> = Vec::new();
        std::mem::swap(&mut entries, &mut self.entries);
        let ghost before = StringMap { entries: entries };
        match place {
            Some(i) => {
                proof {
                    before.lemma_entry(i as int);
                    assert(before.keys()[before.keys().index_of(key@)] == key@);
                }
                let _ = entries.remove(i);
                proof {
                    let after = StringMap { entries: entries };
                    assert(after.keys() =~= before.keys().remove(i as int));
                    assert(after.distinct_keys());
                    assert forall|k: Seq<char>| after.keys().contains(k) <==> (k != key@
                        && before.keys().contains(k)) by {
                        if after.keys().contains(k) {
                            let at = after.keys().index_of(k);
                            let from = if at < i { at } else { at + 1 };
                            assert(before.keys()[from] == k);
                        }
                        if k != key@ && before.keys().contains(k) {
                            let at = before.keys().index_of(k);
                            let to = if at < i { at } else { at - 1 };
                            assert(after.keys()[to] == k);
                        }
                    }
                    assert forall|k: Seq<char>| after.keys().contains(k) implies #[trigger] after@[k]
                        == before@[k] by {
                        let at = after.keys().index_of(k);
                        assert(after.keys()[at] == k);
                        let from = if at < i { at } else { at + 1 };
                        after.lemma_entry(at);
                        before.lemma_entry(from);
                    }
                    assert(after@ =~= before@.remove(key@));
                }
            },
            None => {
                proof {
                    assert(before@ =~= before@.remove(key@));
                }
            },
        }
        self.entries = entries;
    }

    /// Binds each key of `other` to what `other` binds it to.
    pub fn extend(&mut self, other: StringMap<V>)
        ensures
            old(self).ordered(),
            final(self)@ == old(self)@.union_prefer_right(other@),
            final(self).keys() == old(self).keys() + other.keys().filter(
                |key: Seq<char>| !old(self)@.contains_key(key),
            ),
    {
        proof {
            use_type_invariant(&*self);
            use_type_invariant(&other);
            self.lemma_ordered();
            other.lemma_ordered();
        }
        let ghost before = *self;
        let ghost fresh = |key: Seq<char>| !before@.contains_key(key);
        let ghost source = other;
        let ghost all = other.entries@;
        proof {
            assert(source.keys().take(0) =~= Seq::<Seq<char>>::empty());
            reveal(Seq::filter);
            assert(before.keys() + source.keys().take(0).filter(fresh) =~= before.keys());
            assert(before@ =~= before@.union_prefer_right(source@.restrict(source.keys().take(0).to_set())));
        }
        for entry in it: other.entries
            invariant
                it.seq() == all,
                source.entries@ == all,
                source.distinct_keys(),
                before.distinct_keys(),
                fresh == (|key: Seq<char>| !before@.contains_key(key)),
                self@ == before@.union_prefer_right(
                    source@.restrict(source.keys().take(it.index()).to_set()),
                ),
                self.keys() == before.keys() + source.keys().take(it.index()).filter(fresh),
        {
            let ghost n = it.index();
            let ghost earlier = self@;
            let ghost earlier_keys = self.keys();
            let (key, value) = entry;
            self.insert(key, value);
            proof {
                let taken = source.keys().take(n);
                let next = source.keys().take(n + 1);
                source.lemma_entry(n);
                lemma_longer_take(source.keys(), n);
                reveal(Seq::filter);
                assert(!taken.contains(key@));
                assert(earlier.contains_key(key@) <==> before@.contains_key(key@));
                assert(self@ =~= before@.union_prefer_right(source@.restrict(next.to_set())));
                assert(self.keys() =~= before.keys() + next.filter(fresh));
            }
        }
        proof {
            let n = source.keys().len() as int;
            assert(source.keys().take(n) =~= source.keys());
            assert(source@.restrict(source.keys().to_set()) =~= source@);
        }
    }
}

impl<V: Deep> StringMap<V> {
    /// A deep copy that also keeps the order of the keys.
    pub fn copy(&self) -> (copy: Self)
        ensures
            copy.model() == self.model(),
            copy.keys() == self.keys(),
    {
        proof {
            use_type_invariant(self);
        }
        let mut entries: Vec<(String, V)> = Vec::new();
        for i in 0..self.entries.len()
            invariant
                entries@.len() == i,
                forall|j: int|
                    0 <= j < i ==> (#[trigger] entries@[j]).0@ == self.entries@[j].0@
                        && entries@[j].1.model() == self.entries@[j].1.model(),
        {
            entries.push((self.entries[i].0.clone(), self.entries[i].1.duplicate()));
        }
        proof {
            let made = StringMap { entries: entries };
            assert(made.keys() =~= self.keys());
            assert forall|k: Seq<char>| self.keys().contains(k) implies (#[trigger] made@[k]).model()
                == self@[k].model() by {
                let at = self.keys().index_of(k);
                assert(self.keys()[at] == k);
                made.lemma_entry(at);
                self.lemma_entry(at);
            }
            assert(made.model() =~= self.model());
        }
        StringMap { entries }
    }
}

impl<V: Deep> Deep for StringMap<V> {
    type Model = Map<Seq<char>, V::Model>;

    open spec fn model(&self) -> Map<Seq<char>, V::Model> {
        self@.map_values(|value: V| value.model())
    }

    fn duplicate(&self) -> (copy: Self) {
        self.copy()
    }
}

impl<V: Clone> Clone for StringMap<V> {
    fn clone(&self) -> (copy: Self)
        ensures
            copy.keys() == self.keys(),
            forall|key: Seq<char>|
                self@.contains_key(key) ==> copy@.contains_key(key) && cloned::<V>(
                    self@[key],
                    #[trigger] copy@[key],
                ),
    {
        proof {
            use_type_invariant(self);
        }
        let mut entries: Vec<(String, V)> = Vec::new();
        for i in 0..self.entries.len()
            invariant
                entries@.len() == i,
                forall|j: int|
                    0 <= j < i ==> (#[trigger] entries@[j]).0@ == self.entries@[j].0@ && cloned::<V>(
                        self.entries@[j].1,
                        entries@[j].1,
                    ),
        {
            entries.push((self.entries[i].0.clone(), self.entries[i].1.clone()));
        }
        proof {
            let made = StringMap { entries: entries };
            assert(made.keys() =~= self.keys());
            assert forall|k: Seq<char>| self@.contains_key(k) implies made@.contains_key(k)
                && cloned::<V>(self@[k], #[trigger] made@[k]) by {
                let at = self.keys().index_of(k);
                assert(self.keys()[at] == k);
                made.lemma_entry(at);
                self.lemma_entry(at);
            }
        }
        StringMap { entries }
    }
}

} // verus!
