use vstd::prelude::*;

use crate::model::package_id::{PackageId, PackageIdView};

verus! {

/// What a value must offer to serve as the key of a [`VecMap`]: a mathematical
/// identity, and a test that decides whether two keys have the same one.
pub trait Key: Sized {
    /// The identity of a key; two keys are one entry when their identities agree.
    type Id;

    /// The identity of this key.
    spec fn id(&self) -> Self::Id;

    /// Whether `self` and `other` are the same key.
    fn same_key(&self, other: &Self) -> (yes: bool)
        ensures
            yes == (self.id() == other.id()),
    ;

    /// A second key with the identity of this one.
    fn duplicate(&self) -> (copy: Self)
        ensures
            copy.id() == self.id(),
    ;
}

impl Key for String {
    type Id = Seq<char>;

    open spec fn id(&self) -> Seq<char> {
        self@
    }

    fn same_key(&self, other: &Self) -> (yes: bool) {
        *self == *other
    }

    fn duplicate(&self) -> (copy: Self) {
        self.clone()
    }
}

impl Key for PackageId {
    type Id = PackageIdView;

    open spec fn id(&self) -> PackageIdView {
        self@
    }

    fn same_key(&self, other: &Self) -> (yes: bool) {
        self.same(other)
    }

    fn duplicate(&self) -> (copy: Self) {
        self.clone()
    }
}

/// One key of a map with the value that it holds.
#[derive(Debug)]
struct Entry<K, V> {
    key: K,
    value: V,
}

/// A map from keys to values that keeps its entries in a vector, each key once.
///
/// It stands where a hash map would: lookups compare keys one by one, and in
/// exchange the contents are a plain mathematical map in every contract.
#[derive(Debug)]
pub struct VecMap<K: Key, V> {
    entries: Vec<Entry<K, V>>,
}

impl<K: Key, V> View for VecMap<K, V> {
    type V = Map<K::Id, V>;

    closed spec fn view(&self) -> Map<K::Id, V> {
        Map::new(
            |id: K::Id| self.holds(id),
            |id: K::Id| self.entries[self.index_of(id)].value,
        )
    }
}

impl<K: Key, V> VecMap<K, V> {
    /// No key stands twice.
    #[verifier::type_invariant]
    closed spec fn distinct_keys(&self) -> bool {
        forall|i: int, j: int|
            0 <= i < j < self.entries.len() ==> self.entries[i].key.id() != self.entries[j].key.id()
    }

    /// Whether some entry has the key `id`.
    closed spec fn holds(&self, id: K::Id) -> bool {
        exists|i: int| 0 <= i < self.entries.len() && #[trigger] self.entries[i].key.id() == id
    }

    /// The place of the entry with the key `id`.
    closed spec fn index_of(&self, id: K::Id) -> int {
        choose|i: int| 0 <= i < self.entries.len() && #[trigger] self.entries[i].key.id() == id
    }

    /// An empty map.
    pub fn new() -> (map: Self)
        ensures
            map@ == Map::<K::Id, V>::empty(),
    {
        let map = VecMap { entries: Vec::new() };
        assert(map@ =~= Map::<K::Id, V>::empty());
        map
    }

    /// Where the entry of `key` stands, if there is one.
    fn position(&self, key: &K) -> (place: Option<usize>)
        ensures
            (match place {
                Some(i) => i < self.entries.len() && self.entries[i as int].key.id() == key.id()
                    && self.index_of(key.id()) == i && self.holds(key.id()),
                None => !self.holds(key.id()),
            }),
    {
        proof {
            use_type_invariant(self);
        }
        let mut i: usize = 0;
        while i < self.entries.len()
            invariant
                i <= self.entries.len(),
                self.distinct_keys(),
                forall|k: int| 0 <= k < i ==> self.entries[k].key.id() != key.id(),
            decreases self.entries.len() - i,
        {
            if self.entries[i].key.same_key(key) {
                assert(self.entries[i as int].key.id() == key.id());
                return Some(i);
            }
            i += 1;
        }
        None
    }

    /// Whether the map has an entry for `key`.
    pub fn contains_key(&self, key: &K) -> (yes: bool)
        ensures
            yes == self@.contains_key(key.id()),
    {
        self.position(key).is_some()
    }

    /// The value that `key` holds, if it holds one.
    pub fn get(&self, key: &K) -> (value: Option<&V>)
        ensures
            (match value {
                Some(v) => self@.contains_key(key.id()) && *v == self@[key.id()],
                None => !self@.contains_key(key.id()),
            }),
    {
        match self.position(key) {
            Some(i) => Some(&self.entries[i].value),
            None => None,
        }
    }

    /// Lets `key` hold `value`, in place of what it held before.
    pub fn insert(&mut self, key: K, value: V)
        ensures
            final(self)@ == old(self)@.insert(key.id(), value),
    {
        proof {
            use_type_invariant(&*self);
        }
        let ghost before = *self;
        match self.position(&key) {
            Some(i) => {
                let mut entries: Vec<Entry<K, V>> = Vec::new();
                core::mem::swap(&mut self.entries, &mut entries);
                entries.set(i, Entry { key, value });
                core::mem::swap(&mut self.entries, &mut entries);
                assert forall|id: K::Id| self.holds(id) == before.holds(id) by {
                    if before.holds(id) {
                        let k = before.index_of(id);
                        assert(self.entries[k].key.id() == id);
                    }
                    if self.holds(id) {
                        let k = self.index_of(id);
                        assert(before.entries[k].key.id() == id);
                    }
                }
                assert forall|id: K::Id| self.holds(id) implies self.index_of(id)
                    == before.index_of(id) by {
                    let a = self.index_of(id);
                    let b = before.index_of(id);
                    assert(before.entries[a].key.id() == id);
                }
                assert(self@ =~= before@.insert(key.id(), value));
            },
            None => {
                let mut entries: Vec<Entry<K, V>> = Vec::new();
                core::mem::swap(&mut self.entries, &mut entries);
                entries.push(Entry { key, value });
                core::mem::swap(&mut self.entries, &mut entries);
                assert forall|id: K::Id| self.holds(id) == (before.holds(id) || id
                    == key.id()) by {
                    if before.holds(id) {
                        let k = before.index_of(id);
                        assert(self.entries[k].key.id() == id);
                    }
                    if id == key.id() {
                        assert(self.entries[before.entries.len() as int].key.id() == id);
                    }
                }
                assert forall|id: K::Id| before.holds(id) implies self.index_of(id)
                    == before.index_of(id) by {
                    let b = before.index_of(id);
                    assert(self.entries[b].key.id() == id);
                    let a = self.index_of(id);
                }
                assert(self.entries[before.entries.len() as int].key.id() == key.id());
                assert(self@ =~= before@.insert(key.id(), value));
            },
        }
    }

    /// Takes the entry of `key` out of the map, if there is one.
    pub fn remove(&mut self, key: &K)
        ensures
            final(self)@ == old(self)@.remove(key.id()),
    {
        proof {
            use_type_invariant(&*self);
        }
        let ghost before = *self;
        match self.position(key) {
            Some(i) => {
                let mut entries: Vec<Entry<K, V>> = Vec::new();
                core::mem::swap(&mut self.entries, &mut entries);
                entries.remove(i);
                core::mem::swap(&mut self.entries, &mut entries);
                assert forall|id: K::Id| self.holds(id) == (before.holds(id) && id
                    != key.id()) by {
                    if before.holds(id) && id != key.id() {
                        let k = before.index_of(id);
                        if k < i {
                            assert(self.entries[k].key.id() == id);
                        } else {
                            assert(self.entries[k - 1].key.id() == id);
                        }
                    }
                    if self.holds(id) {
                        let k = self.index_of(id);
                        if k < i {
                            assert(before.entries[k].key.id() == id);
                        } else {
                            assert(before.entries[k + 1].key.id() == id);
                        }
                    }
                }
                assert forall|id: K::Id| self.holds(id) implies self.entries[self.index_of(
                    id,
                )].value == before.entries[before.index_of(id)].value by {
                    let a = self.index_of(id);
                    let b = before.index_of(id);
                    if a < i {
                        assert(before.entries[a].key.id() == id);
                    } else {
                        assert(before.entries[a + 1].key.id() == id);
                    }
                }
                assert(self@ =~= before@.remove(key.id()));
            },
            None => {
                assert(self@ =~= before@.remove(key.id()));
            },
        }
    }
}

impl<K: Key> VecMap<K, ()> {
    /// A second map with the keys of this one.
    pub fn duplicate(&self) -> (copy: Self)
        ensures
            copy@ == self@,
    {
        proof {
            use_type_invariant(self);
        }
        let mut entries: Vec<Entry<K, ()>> = Vec::new();
        let mut i: usize = 0;
        while i < self.entries.len()
            invariant
                i <= self.entries.len(),
                entries.len() == i,
                forall|k: int| 0 <= k < i ==> entries[k].key.id() == self.entries[k].key.id(),
            decreases self.entries.len() - i,
        {
            entries.push(Entry { key: self.entries[i].key.duplicate(), value: () });
            i += 1;
        }
        let copy = VecMap { entries };
        assert forall|id: K::Id| copy.holds(id) == self.holds(id) by {
            if self.holds(id) {
                let k = self.index_of(id);
                assert(copy.entries[k].key.id() == id);
            }
            if copy.holds(id) {
                let k = copy.index_of(id);
                assert(self.entries[k].key.id() == id);
            }
        }
        assert(copy@ =~= self@);
        copy
    }
}

} // verus!
