//! The standard hash map as a backend.
//!
//! The map's own entries do the work; the types here only give them the
//! container as owner, so that `HashMap<K, V, S>` with any hasher `S` can take
//! part in the protocol. The contracts rest on the map's model in `vstd`, and
//! are owed where the key type and the hasher follow that model.
use crate::collection::{
    Clear, Collection, CollectionMut, CollectionRef, Get, GetKeyValue, GetMut, Keyed, KeyedRef, Len,
    MapInsert, Remove,
};
use crate::entry_api::{
    Entry, EntryApi, EntryFlag, EntryRefApi, EntryRefFlag, EntryTypes, OccupiedEntry,
    RefOccupiedEntry, SupportsKeyVacantEntry, ToKey, VacantEntry,
};
use crate::model::resolve;
use std::borrow::Borrow;
use std::collections::hash_map;
use std::collections::HashMap;
use std::hash::{BuildHasher, Hash};
use std::marker::PhantomData;
use vstd::prelude::*;
use vstd::std_specs::hash::*;

verus! {

impl<K, V, S: BuildHasher> Collection for HashMap<K, V, S> {
    type Item = V;
}

impl<K, V, S: BuildHasher> CollectionRef for HashMap<K, V, S> {

}

impl<K, V, S: BuildHasher> CollectionMut for HashMap<K, V, S> {

}

impl<K, V, S: BuildHasher> Keyed for HashMap<K, V, S> {
    type Key = K;

    type KeyView = K;

    open spec fn key_view(key: K) -> K {
        key
    }

    open spec fn model(&self) -> Map<K, V> {
        self@
    }

    open spec fn obeys_model() -> bool {
        obeys_key_model::<K>() && builds_valid_hashers::<S>()
    }
}

impl<K, V, S: BuildHasher> KeyedRef for HashMap<K, V, S> {

}

impl<K, V, S: BuildHasher> Len for HashMap<K, V, S> {
    open spec fn spec_len(&self) -> nat {
        spec_hash_map_len(self) as nat
    }

    open spec fn spec_is_empty(&self) -> bool {
        self@.is_empty()
    }

    /// The map's own `len`: the number of associations in the model.
    #[inline(always)]
    fn len(&self) -> (n: usize)
        ensures
            Self::obeys_model() ==> n == self@.len(),
    {
        HashMap::len(self)
    }

    #[inline(always)]
    fn is_empty(&self) -> (b: bool) {
        HashMap::is_empty(self)
    }
}

impl<'a, Q, K: Hash + Eq, V, S: BuildHasher> Get<&'a Q> for HashMap<K, V, S> where
    K: Borrow<Q>,
    Q: Hash + Eq + ?Sized,
 {
    open spec fn finds(&self, key: &'a Q, item: Option<V>) -> bool {
        Self::obeys_model() ==> match item {
            Some(v) => maps_borrowed_key_to_value(self@, key, v),
            None => !contains_borrowed_key(self@, key),
        }
    }

    #[inline(always)]
    fn get(&self, key: &'a Q) -> (r: Option<&V>) {
        HashMap::get(self, key)
    }
}

/// `HashMap::get_mut`: a mutable reference to the value that the borrowed
/// key leads to. Where the key model holds, the claim is: the value shown is
/// the one held under the stored key that `key` leads to, which is the key
/// whose removal is the removal of `key`, and the map ends as it was but for
/// that key, which holds what the reference is left holding;
/// where nothing is found, the map does not hold the key. With or without the
/// key model, a call that returns no reference leaves the map as it is.
#[verifier::external_body]
fn hash_map_get_mut<'a, Q, K: Hash + Eq, V, S: BuildHasher>(
    map: &'a mut HashMap<K, V, S>,
    key: &Q,
) -> (r: Option<&'a mut V>) where K: Borrow<Q>, Q: Hash + Eq + ?Sized
    ensures
        obeys_key_model::<K>() && builds_valid_hashers::<S>() ==> match r {
            Some(v) => maps_borrowed_key_to_value(old(map)@, key, *v) && exists|k: K|
                old(map)@.contains_key(k) && old(map)@[k] == *v && borrowed_key_removed(
                    old(map)@,
                    old(map)@.remove(k),
                    key,
                ) && final(map)@ == old(map)@.insert(k, *final(v)),
            None => !contains_borrowed_key(old(map)@, key),
        },
        r is None ==> final(map)@ == old(map)@,
{
    map.get_mut(key)
}

impl<'a, Q, K: Hash + Eq, V, S: BuildHasher> GetMut<&'a Q> for HashMap<K, V, S> where
    K: Borrow<Q>,
    Q: Hash + Eq + ?Sized,
 {
    open spec fn replaces(&self, key: &'a Q, item: V, after: &Self) -> bool {
        Self::obeys_model() ==> exists|k: K|
            self@.contains_key(k) && maps_borrowed_key_to_value(self@, key, self@[k])
                && borrowed_key_removed(self@, self@.remove(k), key) && after@ == self@.insert(
                k,
                item,
            )
    }

    #[inline(always)]
    fn get_mut(&mut self, key: &'a Q) -> (r: Option<&mut V>) {
        hash_map_get_mut(self, key)
    }
}

/// `HashMap::get_key_value`: the stored key and the value that the borrowed
/// key leads to. Where the key model holds, the claim is: the pair is an
/// association of the map, its key is the key whose removal is the removal
/// of `key`, and its value is the one that `key` leads to; where nothing is
/// returned, the map does not hold the key.
#[verifier::external_body]
fn hash_map_get_key_value<'a, Q, K: Hash + Eq, V, S: BuildHasher>(
    map: &'a HashMap<K, V, S>,
    key: &Q,
) -> (r: Option<(&'a K, &'a V)>) where K: Borrow<Q>, Q: Hash + Eq + ?Sized
    ensures
        obeys_key_model::<K>() && builds_valid_hashers::<S>() ==> match r {
            Some((k, v)) => map@.contains_key(*k) && map@[*k] == *v
                && maps_borrowed_key_to_value(map@, key, *v) && borrowed_key_removed(
                map@,
                map@.remove(*k),
                key,
            ),
            None => !contains_borrowed_key(map@, key),
        },
{
    map.get_key_value(key)
}

impl<'a, Q, K: Hash + Eq, V, S: BuildHasher> GetKeyValue<&'a Q> for HashMap<K, V, S> where
    K: Borrow<Q>,
    Q: Hash + Eq + ?Sized,
 {
    open spec fn finds_pair(&self, key: &'a Q, pair: Option<(K, V)>) -> bool {
        Self::obeys_model() ==> match pair {
            Some((k, v)) => self@.contains_key(k) && self@[k] == v && maps_borrowed_key_to_value(
                self@,
                key,
                v,
            ) && borrowed_key_removed(self@, self@.remove(k), key),
            None => !contains_borrowed_key(self@, key),
        }
    }

    #[inline(always)]
    fn get_key_value(&self, key: &'a Q) -> (r: Option<(&K, &V)>) {
        hash_map_get_key_value(self, key)
    }
}

impl<K: Hash + Eq, V, S: BuildHasher> MapInsert<K> for HashMap<K, V, S> {
    type Output = Option<V>;

    open spec fn inserts(&self, key: K, value: V, after: &Self, out: Option<V>) -> bool {
        Self::obeys_model() ==> after@ == self@.insert(key, value) && out == self@.get(key)
    }

    #[inline(always)]
    fn insert(&mut self, key: K, value: V) -> (out: Option<V>) {
        HashMap::insert(self, key, value)
    }
}

impl<'a, Q, K: Hash + Eq, V, S: BuildHasher> Remove<&'a Q> for HashMap<K, V, S> where
    K: Borrow<Q>,
    Q: Hash + Eq + ?Sized,
 {
    open spec fn removes(&self, key: &'a Q, after: &Self, out: Option<V>) -> bool {
        Self::obeys_model() ==> borrowed_key_removed(self@, after@, key) && match out {
            Some(v) => maps_borrowed_key_to_value(self@, key, v),
            None => !contains_borrowed_key(self@, key),
        }
    }

    #[inline(always)]
    fn remove(&mut self, key: &'a Q) -> (out: Option<V>) {
        HashMap::remove(self, key)
    }
}

impl<K, V, S: BuildHasher> Clear for HashMap<K, V, S> {
    #[inline(always)]
    fn clear(&mut self) {
        HashMap::clear(self)
    }
}

/// An occupied entry of a hash map with hasher `S`: the map's own occupied
/// entry, with the hasher kept as a marker so that the entry's owner is
/// `HashMap<K, V, S>`.
pub struct OccupiedEntryS<'a, K, V, S: 'a>(
    pub hash_map::OccupiedEntry<'a, K, V>,
    pub PhantomData<S>,
);

/// A vacant entry of a hash map with hasher `S`: the map's own vacant entry,
/// with the hasher kept as a marker so that the entry's owner is
/// `HashMap<K, V, S>`.
pub struct VacantEntryS<'a, K, V, S: 'a>(
    pub hash_map::VacantEntry<'a, K, V>,
    pub PhantomData<S>,
);

/// Each operation is the map's own. Beyond what every occupied entry
/// promises, each says what the slot holds when the entry's borrow ends: the
/// terminal operations decide it, the others leave it as it was foretold.
impl<'a, K, V, S: 'a + BuildHasher> OccupiedEntry<'a, HashMap<K, V, S>> for OccupiedEntryS<
    'a,
    K,
    V,
    S,
> {
    open spec fn spec_key(self) -> K {
        self.0.spec_key()
    }

    open spec fn value(self) -> V {
        self.0.value()
    }

    #[inline(always)]
    fn key(&self) -> (k: &K) {
        hash_map::OccupiedEntry::key(&self.0)
    }

    #[inline(always)]
    fn remove_entry(self) -> (kv: (K, V))
        ensures
            self.0.final_value() == None::<V>,
    {
        hash_map::OccupiedEntry::remove_entry(self.0)
    }

    #[inline(always)]
    fn get(&self) -> (v: &V) {
        hash_map::OccupiedEntry::get(&self.0)
    }

    #[inline(always)]
    fn get_mut(&mut self) -> (v: &mut V)
        ensures
            final(self).0.final_value() == old(self).0.final_value(),
    {
        hash_map::OccupiedEntry::get_mut(&mut self.0)
    }

    #[inline(always)]
    fn into_mut(self) -> (v: &'a mut V)
        ensures
            self.0.final_value() == Some(*final(v)),
    {
        hash_map::OccupiedEntry::into_mut(self.0)
    }

    #[inline(always)]
    fn insert(&mut self, value: V) -> (previous: V)
        ensures
            final(self).0.final_value() == old(self).0.final_value(),
    {
        hash_map::OccupiedEntry::insert(&mut self.0, value)
    }

    #[inline(always)]
    fn remove(self) -> (v: V)
        ensures
            self.0.final_value() == None::<V>,
    {
        hash_map::OccupiedEntry::remove(self.0)
    }
}

/// Each operation is the map's own. Filling the slot decides what it holds
/// when the entry's borrow ends; taking the key back leaves it empty.
impl<'a, K, V, S: 'a + BuildHasher> VacantEntry<'a, HashMap<K, V, S>, EntryFlag> for VacantEntryS<
    'a,
    K,
    V,
    S,
> {
    open spec fn spec_key(self) -> K {
        self.0.spec_key()
    }

    #[inline(always)]
    fn insert(self, value: V) -> (v: &'a mut V)
        ensures
            self.0.final_value() == Some(*final(v)),
    {
        hash_map::VacantEntry::insert(self.0, value)
    }

    #[inline(always)]
    fn key(&self) -> (k: &K) {
        hash_map::VacantEntry::key(&self.0)
    }

    #[inline(always)]
    fn into_key(self) -> (k: K)
        ensures
            self.0.final_value() == None::<V>,
    {
        hash_map::VacantEntry::into_key(self.0)
    }
}

impl<'a, K: Hash + Eq + 'a, V: 'a, S: BuildHasher + 'a> EntryTypes<'a, EntryFlag> for HashMap<
    K,
    V,
    S,
> {
    type Occupied = OccupiedEntryS<'a, K, V, S>;

    type Vacant = VacantEntryS<'a, K, V, S>;
}

impl<'a, K: Hash + Eq + 'a, V: 'a, S: BuildHasher + 'a> EntryApi<'a> for HashMap<K, V, S> {
    /// The map's own `entry`. When the entry's borrow ends, the map holds
    /// what it held before, but for the slot of `key`, which holds what the
    /// entry left in it.
    #[inline(always)]
    fn native_entry(&'a mut self, key: K) -> (e: Entry<'a, Self, EntryFlag>)
        ensures
            Self::obeys_model() ==> final(self)@ == resolve(
                old(self)@,
                key,
                match e {
                    Entry::Occupied(o) => o.0.final_value(),
                    Entry::Vacant(v) => v.0.final_value(),
                },
            ),
    {
        match HashMap::entry(self, key) {
            hash_map::Entry::Occupied(o) => {
                let occupied = OccupiedEntryS(o, PhantomData);
                assert(occupied.spec_key() == o.spec_key() && occupied.value() == o.value());
                Entry::Occupied(occupied)
            },
            hash_map::Entry::Vacant(v) => {
                let vacant = VacantEntryS(v, PhantomData);
                assert(vacant.spec_key() == v.spec_key());
                Entry::Vacant(vacant)
            },
        }
    }
}

/// A vacant entry of the by-reference path over a hash map with hasher `S`.
///
/// The standard hash map can hold a vacant slot open only for a key that it
/// owns. So this path makes the key from its borrowed form before the lookup:
/// still one lookup, at the price of one key made even where the slot turns
/// out to be occupied. The entry holds the borrowed key that was looked up
/// and the map's own vacant entry for the key made from it, under a name of
/// its own so that callers can tell which path they are on.
pub struct RefVacantEntryS<'a, Q: ?Sized, K, V, S: 'a>(
    pub &'a Q,
    pub hash_map::VacantEntry<'a, K, V>,
    pub PhantomData<S>,
);

/// Each operation is the map's own. Filling the slot decides what it holds
/// when the entry's borrow ends; taking the key back leaves it empty.
impl<'a, Q: ?Sized, K, V, S: 'a + BuildHasher> VacantEntry<
    'a,
    HashMap<K, V, S>,
    EntryRefFlag<Q>,
> for RefVacantEntryS<'a, Q, K, V, S> {
    open spec fn spec_key(self) -> K {
        self.1.spec_key()
    }

    #[inline(always)]
    fn insert(self, value: V) -> (v: &'a mut V)
        ensures
            self.1.final_value() == Some(*final(v)),
    {
        hash_map::VacantEntry::insert(self.1, value)
    }

    #[inline(always)]
    fn key(&self) -> (k: &K) where EntryRefFlag<Q>: SupportsKeyVacantEntry {
        hash_map::VacantEntry::key(&self.1)
    }

    #[inline(always)]
    fn into_key(self) -> (k: K) where EntryRefFlag<Q>: SupportsKeyVacantEntry
        ensures
            self.1.final_value() == None::<V>,
    {
        hash_map::VacantEntry::into_key(self.1)
    }
}

impl<'a, Q: ?Sized + 'a, K: Hash + Eq + 'a, V: 'a, S: BuildHasher + 'a> EntryTypes<
    'a,
    EntryRefFlag<Q>,
> for HashMap<K, V, S> {
    type Occupied = RefOccupiedEntry<OccupiedEntryS<'a, K, V, S>, HashMap<K, V, S>>;

    type Vacant = RefVacantEntryS<'a, Q, K, V, S>;
}

impl<'a, Q: ?Sized + ToKey<K> + 'a, K: Hash + Eq + 'a, V: 'a, S: BuildHasher + 'a> EntryRefApi<
    'a,
    Q,
> for HashMap<K, V, S> {
    /// Makes the key from `key`, then the map's own `entry` on it. When the
    /// entry's borrow ends, the map holds what it held before, but for the
    /// slot of the entry's key, which holds what the entry left in it.
    #[inline(always)]
    fn native_entry_ref(&'a mut self, key: &'a Q) -> (e: Entry<'a, Self, EntryRefFlag<Q>>)
        ensures
            Self::obeys_model() ==> final(self)@ == resolve(
                old(self)@,
                e.spec_key(),
                match e {
                    Entry::Occupied(o) => o.inner().0.final_value(),
                    Entry::Vacant(v) => v.1.final_value(),
                },
            ),
    {
        let owned = key.to_key();
        let ghost k = owned;
        match HashMap::entry(self, owned) {
            hash_map::Entry::Occupied(o) => {
                let occupied = RefOccupiedEntry::new(OccupiedEntryS(o, PhantomData));
                assert(occupied.spec_key() == o.spec_key() && occupied.value() == o.value());
                assert(Self::obeys_model() ==> key.names(k) && occupied.spec_key()
                    == Self::key_view(k));
                Entry::Occupied(occupied)
            },
            hash_map::Entry::Vacant(v) => {
                let vacant = RefVacantEntryS(key, v, PhantomData);
                assert(vacant.spec_key() == v.spec_key());
                assert(Self::obeys_model() ==> key.names(k) && vacant.spec_key()
                    == Self::key_view(k));
                Entry::Vacant(vacant)
            },
        }
    }
}

} // verus!
