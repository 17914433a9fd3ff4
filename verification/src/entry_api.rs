//! The entry protocol: one lookup yields an [`Entry`], which is either an
//! occupied slot or a vacant one, and every later step goes through that
//! handle without looking the key up again.
//!
//! An entry borrows its container exclusively. What the container holds when
//! that borrow ends depends on what is done with the entry afterwards, so the
//! contracts here come in two layers. The traits state what holds of the
//! handle itself: its key, the item it shows, what each operation returns.
//! Each backend adds, on its own implementation of an operation, what the
//! operation means for the container. The operations of [`Entry`] are defined
//! by the operation of the role that they delegate to, and say so with
//! `call_ensures`, which carries the backend's own clauses to the caller.
use crate::collection::{Collection, CollectionMut, CollectionRef, Keyed, KeyedRef};
use crate::model::or_value;
use std::marker::PhantomData;
use vstd::prelude::*;

verus! {

/// Names the lookup path by which an entry was made.
pub trait LookupPath {
    /// Whether a vacant entry of this path has the key itself in hand.
    spec fn owns_key() -> bool;
}

/// The path of [`EntryApi::entry`]: the caller hands over the key.
pub struct EntryFlag;

/// The path of [`EntryRefApi::entry_ref`]: the caller lends a borrowed form
/// `Q` of the key. This type never implements [`SupportsKeyVacantEntry`].
pub struct EntryRefFlag<Q: ?Sized>(PhantomData<Q>);

impl LookupPath for EntryFlag {
    open spec fn owns_key() -> bool {
        true
    }
}

impl<Q: ?Sized> LookupPath for EntryRefFlag<Q> {
    open spec fn owns_key() -> bool {
        false
    }
}

/// Marks the paths whose vacant entries can show and give back their key.
///
/// The key operations of [`VacantEntry`] ask for this marker, so on any other
/// path a call of them does not compile.
pub trait SupportsKeyVacantEntry: LookupPath {
    /// A path with this marker has the key in hand.
    proof fn key_in_hand()
        ensures
            Self::owns_key(),
    ;
}

impl SupportsKeyVacantEntry for EntryFlag {
    proof fn key_in_hand() {
    }
}

/// A borrowed form of a key, from which the key can be made when a slot has
/// to be filled.
pub trait ToKey<K> {
    /// Whether `key` is a key that this borrowed form stands for.
    spec fn names(&self, key: K) -> bool;

    /// Makes the key. This allocates or copies, as the key type demands.
    fn to_key(&self) -> (key: K)
        ensures
            self.names(key),
    ;
}

impl<K: Clone> ToKey<K> for K {
    open spec fn names(&self, key: K) -> bool {
        cloned(*self, key)
    }

    fn to_key(&self) -> (key: K) {
        self.clone()
    }
}

impl ToKey<String> for str {
    open spec fn names(&self, key: String) -> bool {
        key@ == self@
    }

    fn to_key(&self) -> (key: String) {
        self.to_owned()
    }
}

/// A view into an occupied slot: the key was found, and the item is there.
///
/// The slot stays populated for as long as the entry lives, because nothing
/// else can reach the container while the entry holds its borrow. Reading,
/// replacing and mutating leave the entry usable; `into_mut`, `remove` and
/// `remove_entry` consume it.
pub trait OccupiedEntry<'a, C: CollectionMut + CollectionRef + KeyedRef + ?Sized>: Sized {
    /// The view of the key whose slot this is.
    spec fn spec_key(self) -> C::KeyView;

    /// The item that the slot holds now.
    spec fn value(self) -> C::Item;

    /// Gets a reference to the key in the entry.
    fn key(&self) -> (k: &C::Key)
        ensures
            C::key_view(*k) == self.spec_key(),
    ;

    /// Takes the key and the item out of the container.
    fn remove_entry(self) -> (kv: (C::Key, C::Item))
        ensures
            C::key_view(kv.0) == self.spec_key(),
            kv.1 == self.value(),
    ;

    /// Gets a reference to the item in the entry.
    fn get(&self) -> (v: &C::Item)
        ensures
            *v == self.value(),
    ;

    /// Gets a mutable reference to the item in the entry. What is written
    /// through it is what the entry shows afterwards.
    fn get_mut(&mut self) -> (v: &mut C::Item)
        ensures
            *v == old(self).value(),
            final(self).spec_key() == old(self).spec_key(),
            final(self).value() == *final(v),
    ;

    /// Converts the entry into a mutable reference to the item, with the
    /// scope of the container's borrow.
    fn into_mut(self) -> (v: &'a mut C::Item)
        ensures
            *v == self.value(),
    ;

    /// Sets the item of the entry, and returns the item that was there.
    fn insert(&mut self, value: C::Item) -> (previous: C::Item)
        ensures
            previous == old(self).value(),
            final(self).spec_key() == old(self).spec_key(),
            final(self).value() == value,
    ;

    /// Takes the item out of the container, and returns it. By default this
    /// is `remove_entry` without the key.
    fn remove(self) -> (v: C::Item)
        ensures
            v == self.value(),
        default_ensures
            exists|k: C::Key| call_ensures(Self::remove_entry, (self,), (k, v)),
    {
        self.remove_entry().1
    }
}

/// A view into a vacant slot: the key was not found.
///
/// `T` names the lookup path. Inserting is open on every path; showing the
/// key or taking it back is open only where the path has the key in hand.
pub trait VacantEntry<'a, C: CollectionMut + CollectionRef + KeyedRef + ?Sized, T = EntryFlag>:
    Sized {
    /// The view of the key whose slot this would be.
    spec fn spec_key(self) -> C::KeyView;

    /// Fills the slot with `value`, and returns a mutable reference to it
    /// with the scope of the container's borrow.
    fn insert(self, value: C::Item) -> (v: &'a mut C::Item)
        ensures
            *v == value,
    ;

    /// Gets a reference to the key that an insert would use.
    fn key(&self) -> (k: &C::Key) where T: SupportsKeyVacantEntry
        ensures
            C::key_view(*k) == self.spec_key(),
    ;

    /// Takes the key back, and leaves the slot vacant.
    fn into_key(self) -> (k: C::Key) where T: SupportsKeyVacantEntry
        ensures
            C::key_view(k) == self.spec_key(),
    ;
}

/// The two roles that a container gives to the entries of path `T`, for a
/// borrow of scope `'a`.
pub trait EntryTypes<'a, T>: CollectionMut + CollectionRef + KeyedRef + Sized {
    /// The handle for a key that was found.
    type Occupied: OccupiedEntry<'a, Self>;

    /// The handle for a key that was not found.
    type Vacant: VacantEntry<'a, Self, T>;
}

/// A view into a single slot of a container, which is either occupied or
/// vacant. It is the result of exactly one lookup; a new entry takes a new
/// lookup.
pub enum Entry<'a, C: EntryTypes<'a, T> + 'a, T: 'a = EntryFlag> {
    /// An occupied entry.
    Occupied(<C as EntryTypes<'a, T>>::Occupied),
    /// A vacant entry.
    Vacant(<C as EntryTypes<'a, T>>::Vacant),
}

impl<'a, C: EntryTypes<'a, T> + 'a, T> Entry<'a, C, T> {
    /// The view of the key that was looked up.
    pub open spec fn spec_key(self) -> C::KeyView {
        match self {
            Entry::Occupied(o) => o.spec_key(),
            Entry::Vacant(v) => v.spec_key(),
        }
    }

    /// The item that the lookup found, if it found one.
    pub open spec fn value(self) -> Option<C::Item> {
        match self {
            Entry::Occupied(o) => Some(o.value()),
            Entry::Vacant(_) => None,
        }
    }

    /// Ensures an item is in the slot by inserting `default` if it is vacant,
    /// and returns a mutable reference to the item.
    ///
    /// An item that is already there is never overwritten. The call is the
    /// occupied role's `into_mut` or the vacant role's `insert`, and nothing
    /// else.
    #[inline]
    pub fn or_insert(self, default: C::Item) -> (r: &'a mut C::Item)
        ensures
            *r == or_value(self.value(), default),
            match self {
                Entry::Occupied(o) => call_ensures(
                    <C::Occupied as OccupiedEntry<'a, C>>::into_mut,
                    (o,),
                    r,
                ),
                Entry::Vacant(v) => call_ensures(
                    <C::Vacant as VacantEntry<'a, C, T>>::insert,
                    (v, default),
                    r,
                ),
            },
    {
        match self {
            Entry::Occupied(entry) => entry.into_mut(),
            Entry::Vacant(entry) => entry.insert(default),
        }
    }

    /// Ensures an item is in the slot by inserting the result of `default` if
    /// it is vacant, and returns a mutable reference to the item.
    ///
    /// `default` runs only for a vacant slot, and then once: it need not be
    /// callable when the key was found, and what is inserted is what it
    /// returned.
    #[inline]
    pub fn or_insert_with<F: FnOnce() -> C::Item>(self, default: F) -> (r: &'a mut C::Item)
        requires
            self is Vacant ==> call_requires(default, ()),
        ensures
            match self {
                Entry::Occupied(o) => *r == o.value() && call_ensures(
                    <C::Occupied as OccupiedEntry<'a, C>>::into_mut,
                    (o,),
                    r,
                ),
                Entry::Vacant(v) => call_ensures(default, (), *r) && call_ensures(
                    <C::Vacant as VacantEntry<'a, C, T>>::insert,
                    (v, *r),
                    r,
                ),
            },
    {
        match self {
            Entry::Occupied(entry) => entry.into_mut(),
            Entry::Vacant(entry) => entry.insert(default()),
        }
    }

    /// Gives `f` mutable access to the item of an occupied entry, before any
    /// later insert. A vacant entry passes through untouched, and `f` does
    /// not run.
    ///
    /// For an occupied entry the result is the same slot, holding what `f`
    /// left of the item; the entry itself is what `get_mut` left of it.
    #[inline]
    pub fn and_modify<F>(self, f: F) -> (e: Self) where F: FnOnce(&mut C::Item)
        requires
            self matches Entry::Occupied(o) ==> forall|s: &mut C::Item|
                *s == o.value() ==> call_requires(f, (s,)),
        ensures
            self is Vacant ==> e == self,
            self matches Entry::Occupied(o) ==> {
                &&& e matches Entry::Occupied(o2)
                &&& o2.spec_key() == o.spec_key()
                &&& exists|s: &mut C::Item|
                    *s == o.value() && *final(s) == o2.value() && call_ensures(f, (s,), ())
                &&& exists|p: &mut C::Occupied, s: &mut C::Item|
                    *p == o && *final(p) == o2 && call_ensures(
                        <C::Occupied as OccupiedEntry<'a, C>>::get_mut,
                        (p,),
                        s,
                    )
            },
    {
        match self {
            Entry::Occupied(mut entry) => {
                f(entry.get_mut());
                Entry::Occupied(entry)
            },
            Entry::Vacant(entry) => Entry::Vacant(entry),
        }
    }
}

impl<'a, C: EntryTypes<'a, T> + 'a, T: SupportsKeyVacantEntry> Entry<'a, C, T> {
    /// Returns a reference to this entry's key, whichever role holds it.
    #[inline]
    pub fn key(&self) -> (k: &C::Key)
        ensures
            C::key_view(*k) == self.spec_key(),
    {
        match self {
            Entry::Occupied(entry) => entry.key(),
            Entry::Vacant(entry) => entry.key(),
        }
    }

    /// Ensures an item is in the slot by inserting, if it is vacant, the
    /// result of `default` on the entry's key, and returns a mutable
    /// reference to the item.
    ///
    /// `default` runs only for a vacant slot, and then once, on a reference
    /// to the key that the insert uses.
    #[inline]
    pub fn or_insert_with_key<F: FnOnce(&C::Key) -> C::Item>(self, default: F) -> (r:
        &'a mut C::Item)
        requires
            self matches Entry::Vacant(v) ==> forall|k: &C::Key|
                C::key_view(*k) == v.spec_key() ==> call_requires(default, (k,)),
        ensures
            match self {
                Entry::Occupied(o) => *r == o.value() && call_ensures(
                    <C::Occupied as OccupiedEntry<'a, C>>::into_mut,
                    (o,),
                    r,
                ),
                Entry::Vacant(v) => {
                    &&& exists|k: &C::Key|
                        C::key_view(*k) == v.spec_key() && call_ensures(default, (k,), *r)
                    &&& call_ensures(<C::Vacant as VacantEntry<'a, C, T>>::insert, (v, *r), r)
                },
            },
    {
        match self {
            Entry::Occupied(entry) => entry.into_mut(),
            Entry::Vacant(entry) => {
                let value = default(entry.key());
                entry.insert(value)
            },
        }
    }
}

impl<'a, C: EntryTypes<'a, T> + 'a, T> Entry<'a, C, T> where C::Item: Default {
    /// Ensures an item is in the slot by inserting the item type's default
    /// if it is vacant, and returns a mutable reference to the item.
    #[inline]
    pub fn or_default(self) -> (r: &'a mut C::Item)
        ensures
            match self {
                Entry::Occupied(o) => *r == o.value() && call_ensures(
                    <C::Occupied as OccupiedEntry<'a, C>>::into_mut,
                    (o,),
                    r,
                ),
                Entry::Vacant(v) => call_ensures(<C::Item as Default>::default, (), *r)
                    && call_ensures(<C::Vacant as VacantEntry<'a, C, T>>::insert, (v, *r), r),
            },
    {
        match self {
            Entry::Occupied(entry) => entry.into_mut(),
            Entry::Vacant(entry) => entry.insert(Default::default()),
        }
    }
}

/// A container that gives entries for keys handed over by value.
pub trait EntryApi<'a>: EntryTypes<'a, EntryFlag> {
    /// The backend's own lookup of `key`. The entry is occupied exactly when
    /// the container holds the key, and then shows the item held.
    ///
    /// A backend states here, on its implementation, how the container's
    /// final contents follow from what is done with the entry.
    fn native_entry(&'a mut self, key: Self::Key) -> (e: Entry<'a, Self, EntryFlag>)
        ensures
            Self::obeys_model() ==> e.spec_key() == Self::key_view(key) && e.value() == old(
                self,
            ).model().get(e.spec_key()),
    ;

    /// Gets the given key's entry in the container for in-place manipulation.
    ///
    /// This is one call of `native_entry` on this container and key: the
    /// single lookup of an entry's life.
    fn entry(&'a mut self, key: Self::Key) -> (e: Entry<'a, Self, EntryFlag>)
        ensures
            Self::obeys_model() ==> e.spec_key() == Self::key_view(key) && e.value() == old(
                self,
            ).model().get(e.spec_key()),
            exists|this: &'a mut Self|
                *this == *old(self) && *final(this) == *final(self) && call_ensures(
                    Self::native_entry,
                    (this, key),
                    e,
                ),
    {
        self.native_entry(key)
    }
}

/// A container that gives entries for keys lent in the borrowed form `Q`.
///
/// The vacant entries of this path can be filled, but cannot show or give
/// back a key.
pub trait EntryRefApi<'a, Q: ?Sized + 'a>: EntryTypes<'a, EntryRefFlag<Q>> where
    Q: ToKey<Self::Key>,
 {
    /// The backend's own lookup by the borrowed key. The entry is the one of
    /// a key that `key` stands for: occupied exactly when the container holds
    /// that key, and then showing the item held.
    ///
    /// A backend states here, on its implementation, how the container's
    /// final contents follow from what is done with the entry.
    fn native_entry_ref(&'a mut self, key: &'a Q) -> (e: Entry<'a, Self, EntryRefFlag<Q>>)
        ensures
            Self::obeys_model() ==> (exists|k: Self::Key|
                key.names(k) && e.spec_key() == Self::key_view(k)) && e.value() == old(
                self,
            ).model().get(e.spec_key()),
    ;

    /// Gets the entry of the key that `key` stands for, for in-place
    /// manipulation.
    ///
    /// This is one call of `native_entry_ref` on this container and key: the
    /// single lookup of an entry's life.
    fn entry_ref(&'a mut self, key: &'a Q) -> (e: Entry<'a, Self, EntryRefFlag<Q>>)
        ensures
            Self::obeys_model() ==> (exists|k: Self::Key|
                key.names(k) && e.spec_key() == Self::key_view(k)) && e.value() == old(
                self,
            ).model().get(e.spec_key()),
            exists|this: &'a mut Self|
                *this == *old(self) && *final(this) == *final(self) && call_ensures(
                    Self::native_entry_ref,
                    (this, key),
                    e,
                ),
    {
        self.native_entry_ref(key)
    }
}

/// An occupied entry of the by-reference path: a thin wrapper that forwards
/// every operation to the occupied entry `Occ` of container `C` that it holds.
pub struct RefOccupiedEntry<Occ, C: ?Sized>(Occ, PhantomData<C>);

impl<Occ, C: ?Sized> RefOccupiedEntry<Occ, C> {
    /// The entry that this one forwards to.
    pub closed spec fn inner(self) -> Occ {
        self.0
    }

    /// Wraps the occupied entry `x`.
    #[inline(always)]
    pub fn new(x: Occ) -> (r: Self)
        ensures
            r.inner() == x,
    {
        RefOccupiedEntry(x, PhantomData)
    }
}

impl<'a, Occ: OccupiedEntry<'a, C>, C: CollectionMut + CollectionRef + KeyedRef + ?Sized>
    OccupiedEntry<'a, C> for RefOccupiedEntry<Occ, C> {
    open spec fn spec_key(self) -> C::KeyView {
        self.inner().spec_key()
    }

    open spec fn value(self) -> C::Item {
        self.inner().value()
    }

    #[inline(always)]
    fn key(&self) -> (k: &C::Key) {
        self.0.key()
    }

    #[inline(always)]
    fn remove_entry(self) -> (kv: (C::Key, C::Item))
        ensures
            call_ensures(Occ::remove_entry, (self.inner(),), kv),
    {
        self.0.remove_entry()
    }

    #[inline(always)]
    fn get(&self) -> (v: &C::Item) {
        self.0.get()
    }

    #[inline(always)]
    fn get_mut(&mut self) -> (v: &mut C::Item)
        ensures
            exists|p: &mut Occ|
                *p == old(self).inner() && *final(p) == final(self).inner() && call_ensures(
                    Occ::get_mut,
                    (p,),
                    v,
                ),
    {
        self.0.get_mut()
    }

    #[inline(always)]
    fn into_mut(self) -> (v: &'a mut C::Item)
        ensures
            call_ensures(Occ::into_mut, (self.inner(),), v),
    {
        self.0.into_mut()
    }

    #[inline(always)]
    fn insert(&mut self, value: C::Item) -> (previous: C::Item)
        ensures
            exists|p: &mut Occ|
                *p == old(self).inner() && *final(p) == final(self).inner() && call_ensures(
                    Occ::insert,
                    (p, value),
                    previous,
                ),
    {
        self.0.insert(value)
    }

    #[inline(always)]
    fn remove(self) -> (v: C::Item)
        ensures
            call_ensures(Occ::remove, (self.inner(),), v),
    {
        self.0.remove()
    }
}

/// A vacant slot that was found without a key in hand, and takes the key
/// together with the item when it is filled.
pub trait RawVacantEntry<'a, C: CollectionMut + CollectionRef + KeyedRef + ?Sized>: Sized {
    /// The view of the key whose slot this would be.
    spec fn spec_key(self) -> C::KeyView;

    /// Fills the slot with `key` and `value`, and returns references to both
    /// with the scope of the container's borrow.
    fn insert(self, key: C::Key, value: C::Item) -> (kv: (&'a C::Key, &'a mut C::Item))
        ensures
            C::key_view(*kv.0) == C::key_view(key),
            *kv.1 == value,
    ;
}

/// A vacant entry of the by-reference path: the borrowed key `Q` that was
/// looked up, and the raw vacant slot `Vacant` of container `C` that the
/// lookup found. The key is made only when the slot is filled.
pub struct RefVacantEntry<Q, Vacant, C: ?Sized> {
    key: Q,
    raw: Vacant,
    _phantom: PhantomData<C>,
}

impl<Q, Vacant, C: ?Sized> RefVacantEntry<Q, Vacant, C> {
    /// The borrowed key that was looked up.
    pub closed spec fn held_key(self) -> Q {
        self.key
    }

    /// The raw vacant slot that the lookup found.
    pub closed spec fn raw(self) -> Vacant {
        self.raw
    }

    /// Returns the borrowed key that was looked up.
    #[inline(always)]
    pub fn borrowed_key(&self) -> (k: &Q)
        ensures
            *k == self.held_key(),
    {
        &self.key
    }

    /// Joins the borrowed key `key` and the raw vacant slot `raw`.
    #[inline(always)]
    pub fn new(key: Q, raw: Vacant) -> (r: Self)
        ensures
            r.held_key() == key,
            r.raw() == raw,
    {
        RefVacantEntry { key, raw, _phantom: PhantomData }
    }
}

impl<
    'a,
    Q: ?Sized + ToKey<C::Key>,
    Vac: RawVacantEntry<'a, C>,
    C: CollectionMut + CollectionRef + KeyedRef + ?Sized,
> VacantEntry<'a, C, EntryRefFlag<Q>> for RefVacantEntry<&'a Q, Vac, C> where C::Key: 'a {
    open spec fn spec_key(self) -> C::KeyView {
        self.raw().spec_key()
    }

    /// Makes the key from the borrowed form, and fills the raw slot with it
    /// and `value`.
    #[inline(always)]
    fn insert(self, value: C::Item) -> (v: &'a mut C::Item)
        ensures
            exists|k: C::Key, kv: (&'a C::Key, &'a mut C::Item)|
                self.held_key().names(k) && call_ensures(Vac::insert, (self.raw(), k, value), kv)
                    && *kv.1 == *v && *final(kv.1) == *final(v),
    {
        let key = self.key.to_key();
        let ghost k = key;
        let kv = self.raw.insert(key, value);
        assert(call_ensures(Vac::insert, (self.raw(), k, value), kv));
        kv.1
    }

    /// Never runs: the by-reference path has no key in hand, and its flag
    /// does not carry the marker that this operation asks for.
    fn key(&self) -> (k: &C::Key) where EntryRefFlag<Q>: SupportsKeyVacantEntry {
        proof {
            <EntryRefFlag<Q> as SupportsKeyVacantEntry>::key_in_hand();
        }
        unreached()
    }

    /// Never runs: the by-reference path has no key in hand, and its flag
    /// does not carry the marker that this operation asks for.
    fn into_key(self) -> (k: C::Key) where EntryRefFlag<Q>: SupportsKeyVacantEntry {
        proof {
            <EntryRefFlag<Q> as SupportsKeyVacantEntry>::key_in_hand();
        }
        unreached()
    }
}

} // verus!
