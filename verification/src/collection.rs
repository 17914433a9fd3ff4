//! Capability interfaces: what a container must declare about itself before
//! entries can be taken from it.
use vstd::prelude::*;

verus! {

/// A container of items.
pub trait Collection {
    /// What the container stores.
    type Item;
}

/// A container that hands out shared views of its items.
///
/// A view is a plain shared reference, valid for the scope of the borrow
/// that produced it.
pub trait CollectionRef: Collection {
    /// Narrows the scope of an item view: a view that is valid for `'long`
    /// is valid for every scope `'short` inside it, and shows the same item.
    fn upcast_item_ref<'short, 'long: 'short>(r: &'long Self::Item) -> (s: &'short Self::Item) where
        Self: 'long,

        ensures
            *s == *r,
    {
        r
    }
}

/// A container that hands out exclusive views of its items.
///
/// A view is a plain exclusive reference; what is written through it is what
/// the container holds once the view is gone.
pub trait CollectionMut: Collection {
    /// Narrows the scope of an exclusive item view. The narrowed view shows
    /// the same item, and what it is left holding is what the wider view is
    /// left holding.
    fn upcast_item_mut<'short, 'long: 'short>(r: &'long mut Self::Item) -> (s:
        &'short mut Self::Item) where Self: 'long
        ensures
            *s == *old(r),
            *final(r) == *final(s),
    {
        r
    }
}

/// A container whose items are found by key, with at most one item per key.
///
/// Such a container is modelled as a map from key views to items. Two keys are
/// the same key to the container exactly when their views are equal.
pub trait Keyed: Collection {
    /// What an item is found by.
    type Key;

    /// The mathematical value by which the container tells keys apart.
    type KeyView;

    /// The view of a key.
    spec fn key_view(key: Self::Key) -> Self::KeyView;

    /// The associations that the container holds.
    spec fn model(&self) -> Map<Self::KeyView, Self::Item>;

    /// Whether the container's operations are known to follow the map model.
    /// Every contract that speaks of `model` is owed only where this holds.
    spec fn obeys_model() -> bool;
}

/// A keyed container that hands out shared views of its keys.
pub trait KeyedRef: Keyed {
    /// Narrows the scope of a key view: a view that is valid for `'long` is
    /// valid for every scope `'short` inside it, and shows the same key.
    fn upcast_key_ref<'short, 'long: 'short>(r: &'long Self::Key) -> (s: &'short Self::Key) where
        Self: 'long,

        ensures
            *s == *r,
    {
        r
    }
}

/// A container that can tell how many items it holds.
pub trait Len {
    /// The number of items held.
    spec fn spec_len(&self) -> nat;

    /// Whether no item is held.
    spec fn spec_is_empty(&self) -> bool;

    /// Returns the number of items in the container.
    fn len(&self) -> (n: usize)
        ensures
            n == self.spec_len(),
    ;

    /// Returns `true` if the container holds no items.
    fn is_empty(&self) -> (b: bool)
        ensures
            b == self.spec_is_empty(),
    ;
}

/// A container whose items can be read by a key presented as a `T`.
pub trait Get<T>: CollectionRef {
    /// Whether a lookup by `key` finds `item`, or finds nothing where `item`
    /// is `None`.
    spec fn finds(&self, key: T, item: Option<Self::Item>) -> bool;

    /// Returns a reference to the item that `key` leads to, if there is one.
    fn get(&self, key: T) -> (r: Option<&Self::Item>)
        ensures
            self.finds(
                key,
                match r {
                    Some(item) => Some(*item),
                    None => None,
                },
            ),
    ;
}

/// A container whose items can be mutated by a key presented as a `T`.
pub trait GetMut<T>: Get<T> + CollectionMut + Keyed {
    /// Whether `after` is this container with the item that `key` leads to
    /// replaced by `item`.
    spec fn replaces(&self, key: T, item: Self::Item, after: &Self) -> bool;

    /// Returns a mutable reference to the item that `key` leads to, if there
    /// is one. What is written through it replaces the item; where nothing
    /// is found, the container stays as it is.
    fn get_mut(&mut self, key: T) -> (r: Option<&mut Self::Item>)
        ensures
            match r {
                Some(item) => old(self).finds(key, Some(*item)) && old(self).replaces(
                    key,
                    *final(item),
                    final(self),
                ),
                None => old(self).finds(key, None) && final(self).model() == old(self).model(),
            },
    ;
}

/// A container whose keys and items can be read together by a key presented
/// as a `T`.
pub trait GetKeyValue<T>: CollectionRef + KeyedRef {
    /// Whether a lookup by `key` finds the stored key and item `pair`, or
    /// finds nothing where `pair` is `None`.
    spec fn finds_pair(&self, key: T, pair: Option<(Self::Key, Self::Item)>) -> bool;

    /// Returns references to the stored key and the item that `key` leads
    /// to, if there are any.
    fn get_key_value(&self, key: T) -> (r: Option<(&Self::Key, &Self::Item)>)
        ensures
            self.finds_pair(
                key,
                match r {
                    Some((k, item)) => Some((*k, *item)),
                    None => None,
                },
            ),
    ;
}

/// A container into which an item can be put under a key of type `K`.
pub trait MapInsert<K>: Collection {
    /// What an insert reports back.
    type Output;

    /// Whether `after` is this container with `value` put under `key`, and
    /// `out` what the insert reports of the slot's former state.
    spec fn inserts(&self, key: K, value: Self::Item, after: &Self, out: Self::Output) -> bool;

    /// Puts `value` under `key`, replacing what was there.
    fn insert(&mut self, key: K, value: Self::Item) -> (out: Self::Output)
        ensures
            old(self).inserts(key, value, final(self), out),
    ;
}

/// A container from which an item can be taken by a key presented as a `T`.
pub trait Remove<T>: Collection {
    /// Whether `after` is this container without the item that `key` leads
    /// to, and `out` that item, if there was one.
    spec fn removes(&self, key: T, after: &Self, out: Option<Self::Item>) -> bool;

    /// Takes out the item that `key` leads to, and returns it.
    fn remove(&mut self, key: T) -> (out: Option<Self::Item>)
        ensures
            old(self).removes(key, final(self), out),
    ;
}

/// A container that can be emptied.
pub trait Clear: Len {
    /// Takes every item out of the container.
    fn clear(&mut self)
        ensures
            final(self).spec_is_empty(),
    ;
}

} // verus!
