//! A backend that counts the native lookups of the backend it wraps.
//!
//! Every entry costs the wrapped backend exactly one native lookup, made when
//! the entry is made. The entry that is handed out borrows the wrapped
//! backend only, so nothing that is done with it afterwards can reach the
//! count: when the entry's borrow ends, the count stands one higher than
//! before, whichever operations the entry went through.
use crate::collection::{Collection, CollectionMut, CollectionRef, Keyed, KeyedRef};
use crate::entry_api::{
    Entry, EntryApi, EntryFlag, EntryRefApi, EntryRefFlag, EntryTypes, OccupiedEntry,
    SupportsKeyVacantEntry, ToKey, VacantEntry,
};
use std::marker::PhantomData;
use vstd::prelude::*;

verus! {

/// The backend `C`, with a count of the native lookups made through this
/// wrapper. The count stops at `usize::MAX`.
pub struct Counted<C> {
    inner: C,
    lookups: usize,
}

/// The count after one more lookup.
pub open spec fn one_more(count: nat) -> nat {
    if count < usize::MAX {
        count + 1
    } else {
        count
    }
}

impl<C> Counted<C> {
    /// The wrapped backend.
    pub closed spec fn inner(self) -> C {
        self.inner
    }

    /// The number of native lookups made so far.
    pub closed spec fn spec_lookups(self) -> nat {
        self.lookups as nat
    }

    /// Wraps `inner`, with no lookup counted.
    pub fn new(inner: C) -> (r: Self)
        ensures
            r.inner() == inner,
            r.spec_lookups() == 0,
    {
        Counted { inner, lookups: 0 }
    }

    /// Returns the number of native lookups made so far.
    pub fn lookups(&self) -> (n: usize)
        ensures
            n == self.spec_lookups(),
    {
        self.lookups
    }

    /// Returns a reference to the wrapped backend.
    pub fn get_ref(&self) -> (r: &C)
        ensures
            *r == self.inner(),
    {
        &self.inner
    }

    /// Unwraps the backend, and drops the count.
    pub fn into_inner(self) -> (r: C)
        ensures
            r == self.inner(),
    {
        self.inner
    }
}

impl<C: Collection> Collection for Counted<C> {
    type Item = C::Item;
}

impl<C: CollectionRef> CollectionRef for Counted<C> {

}

impl<C: CollectionMut> CollectionMut for Counted<C> {

}

impl<C: Keyed> Keyed for Counted<C> {
    type Key = C::Key;

    type KeyView = C::KeyView;

    open spec fn key_view(key: C::Key) -> C::KeyView {
        C::key_view(key)
    }

    open spec fn model(&self) -> Map<C::KeyView, C::Item> {
        self.inner().model()
    }

    open spec fn obeys_model() -> bool {
        C::obeys_model()
    }
}

impl<C: KeyedRef> KeyedRef for Counted<C> {

}

/// An occupied entry `Occ` of the backend `C`, owned by `Counted<C>`.
pub struct CountedOccupiedEntry<Occ, C>(pub Occ, pub PhantomData<C>);

/// A vacant entry `Vac` of path `T` of the backend `C`, owned by
/// `Counted<C>`.
pub struct CountedVacantEntry<Vac, C, T>(pub Vac, pub PhantomData<(C, T)>);

/// Each operation is the wrapped entry's, and nothing else.
impl<'a, Occ: OccupiedEntry<'a, C>, C: CollectionMut + CollectionRef + KeyedRef> OccupiedEntry<
    'a,
    Counted<C>,
> for CountedOccupiedEntry<Occ, C> {
    open spec fn spec_key(self) -> C::KeyView {
        self.0.spec_key()
    }

    open spec fn value(self) -> C::Item {
        self.0.value()
    }

    #[inline(always)]
    fn key(&self) -> (k: &C::Key) {
        self.0.key()
    }

    #[inline(always)]
    fn remove_entry(self) -> (kv: (C::Key, C::Item))
        ensures
            call_ensures(Occ::remove_entry, (self.0,), kv),
    {
        self.0.remove_entry()
    }

    #[inline(always)]
    fn get(&self) -> (v: &C::Item) {
        self.0.get()
    }

    #[inline(always)]
    fn get_mut(&mut self) -> (v: &mut C::Item)
        ensures
            exists|p: &mut Occ|
                *p == old(self).0 && *final(p) == final(self).0 && call_ensures(
                    Occ::get_mut,
                    (p,),
                    v,
                ),
    {
        self.0.get_mut()
    }

    #[inline(always)]
    fn into_mut(self) -> (v: &'a mut C::Item)
        ensures
            call_ensures(Occ::into_mut, (self.0,), v),
    {
        self.0.into_mut()
    }

    #[inline(always)]
    fn insert(&mut self, value: C::Item) -> (previous: C::Item)
        ensures
            exists|p: &mut Occ|
                *p == old(self).0 && *final(p) == final(self).0 && call_ensures(
                    Occ::insert,
                    (p, value),
                    previous,
                ),
    {
        self.0.insert(value)
    }

    #[inline(always)]
    fn remove(self) -> (v: C::Item)
        ensures
            call_ensures(Occ::remove, (self.0,), v),
    {
        self.0.remove()
    }
}

/// Each operation is the wrapped entry's, and nothing else.
impl<'a, Vac: VacantEntry<'a, C, T>, C: CollectionMut + CollectionRef + KeyedRef, T> VacantEntry<
    'a,
    Counted<C>,
    T,
> for CountedVacantEntry<Vac, C, T> {
    open spec fn spec_key(self) -> C::KeyView {
        self.0.spec_key()
    }

    #[inline(always)]
    fn insert(self, value: C::Item) -> (v: &'a mut C::Item)
        ensures
            call_ensures(Vac::insert, (self.0, value), v),
    {
        self.0.insert(value)
    }

    #[inline(always)]
    fn key(&self) -> (k: &C::Key) where T: SupportsKeyVacantEntry {
        self.0.key()
    }

    #[inline(always)]
    fn into_key(self) -> (k: C::Key) where T: SupportsKeyVacantEntry
        ensures
            call_ensures(Vac::into_key, (self.0,), k),
    {
        self.0.into_key()
    }
}

impl<'a, C: EntryTypes<'a, T> + 'a, T: 'a> EntryTypes<'a, T> for Counted<C> {
    type Occupied = CountedOccupiedEntry<C::Occupied, C>;

    type Vacant = CountedVacantEntry<C::Vacant, C, T>;
}

/// The entry of the wrapped backend that stands behind an entry of the
/// wrapper.
pub open spec fn wrapped_entry<'a, C: EntryTypes<'a, T> + 'a, T: 'a>(
    e: Entry<'a, Counted<C>, T>,
) -> Entry<'a, C, T> {
    match e {
        Entry::Occupied(o) => Entry::Occupied(o.0),
        Entry::Vacant(v) => Entry::Vacant(v.0),
    }
}

impl<'a, C: EntryApi<'a> + 'a> EntryApi<'a> for Counted<C> {
    /// Counts one lookup, and makes the wrapped backend's native lookup.
    /// When the entry's borrow ends, the count is one more than before, and
    /// the wrapped backend is what its own lookup and the entry made of it.
    fn native_entry(&'a mut self, key: C::Key) -> (e: Entry<'a, Self, EntryFlag>)
        ensures
            final(self).spec_lookups() == one_more(old(self).spec_lookups()),
            exists|inner: &'a mut C|
                *inner == old(self).inner() && *final(inner) == final(self).inner()
                    && call_ensures(C::native_entry, (inner, key), wrapped_entry(e)),
    {
        if self.lookups < usize::MAX {
            self.lookups = self.lookups + 1;
        }
        match self.inner.native_entry(key) {
            Entry::Occupied(o) => {
                let occupied = CountedOccupiedEntry(o, PhantomData);
                assert(occupied.spec_key() == o.spec_key() && occupied.value() == o.value());
                Entry::Occupied(occupied)
            },
            Entry::Vacant(v) => {
                let vacant = CountedVacantEntry(v, PhantomData);
                assert(vacant.spec_key() == v.spec_key());
                Entry::Vacant(vacant)
            },
        }
    }
}

impl<'a, Q: ?Sized + ToKey<C::Key> + 'a, C: EntryRefApi<'a, Q> + 'a> EntryRefApi<
    'a,
    Q,
> for Counted<C> {
    /// Counts one lookup, and makes the wrapped backend's native lookup.
    /// When the entry's borrow ends, the count is one more than before, and
    /// the wrapped backend is what its own lookup and the entry made of it.
    fn native_entry_ref(&'a mut self, key: &'a Q) -> (e: Entry<'a, Self, EntryRefFlag<Q>>)
        ensures
            final(self).spec_lookups() == one_more(old(self).spec_lookups()),
            exists|inner: &'a mut C|
                *inner == old(self).inner() && *final(inner) == final(self).inner()
                    && call_ensures(C::native_entry_ref, (inner, key), wrapped_entry(e)),
    {
        if self.lookups < usize::MAX {
            self.lookups = self.lookups + 1;
        }
        match self.inner.native_entry_ref(key) {
            Entry::Occupied(o) => {
                let occupied = CountedOccupiedEntry(o, PhantomData);
                assert(occupied.spec_key() == o.spec_key() && occupied.value() == o.value());
                proof {
                    if Self::obeys_model() {
                        let k = choose|k: C::Key| key.names(k) && o.spec_key() == C::key_view(k);
                        assert(key.names(k) && occupied.spec_key() == Self::key_view(k));
                    }
                }
                Entry::Occupied(occupied)
            },
            Entry::Vacant(v) => {
                let vacant = CountedVacantEntry(v, PhantomData);
                assert(vacant.spec_key() == v.spec_key());
                proof {
                    if Self::obeys_model() {
                        let k = choose|k: C::Key| key.names(k) && v.spec_key() == C::key_view(k);
                        assert(key.names(k) && vacant.spec_key() == Self::key_view(k));
                    }
                }
                Entry::Vacant(vacant)
            },
        }
    }
}

} // verus!
