//! The entry protocol on maps: what a lookup finds, what the container holds
//! once an entry has ended, and the laws that connect the two.
//!
//! A backend states the effect of an entry on its container with [`resolve`];
//! the laws below say what that means for the next lookup.
use vstd::prelude::*;

verus! {

/// The item that `or_insert` hands out: the one found, or else the default.
pub open spec fn or_value<V>(found: Option<V>, default: V) -> V {
    match found {
        Some(item) => item,
        None => default,
    }
}

/// What a container holds once an entry at `key` has ended with its slot
/// holding `last`: the item left in the slot, or no item if the slot was
/// emptied or never filled.
pub open spec fn resolve<K, V>(before: Map<K, V>, key: K, last: Option<V>) -> Map<K, V> {
    match last {
        Some(item) => before.insert(key, item),
        None => before.remove(key),
    }
}

/// An entry that ends with an item in its slot leaves the key occupied: the
/// next lookup of the key finds that item.
pub proof fn filled_slot_is_found<K, V>(before: Map<K, V>, key: K, item: V)
    ensures
        resolve(before, key, Some(item)).get(key) == Some(item),
{
}

/// An entry that ends with its slot empty leaves the key vacant: after
/// `remove` or `remove_entry` the container does not contain the key.
pub proof fn emptied_slot_is_vacant<K, V>(before: Map<K, V>, key: K)
    ensures
        !resolve(before, key, None).contains_key(key),
        resolve(before, key, None).get(key) == None::<V>,
{
}

/// An entry touches one slot only: every other key is found afterwards
/// exactly as it was found before.
pub proof fn other_slots_are_kept<K, V>(before: Map<K, V>, key: K, last: Option<V>, other: K)
    requires
        other != key,
    ensures
        resolve(before, key, last).get(other) == before.get(other),
{
}

/// An entry that ends with its slot as the lookup found it leaves the
/// container as it was.
pub proof fn untouched_slot_keeps_container<K, V>(before: Map<K, V>, key: K)
    ensures
        resolve(before, key, before.get(key)) == before,
{
    assert(resolve(before, key, before.get(key)) =~= before);
}

/// `or_insert` never overwrites: where the key is present, the item handed
/// out is the one held, whatever the default, and a caller who does not
/// write through the view leaves the container as it was.
pub proof fn or_insert_keeps_found_item<K, V>(before: Map<K, V>, key: K, default: V)
    requires
        before.contains_key(key),
    ensures
        or_value(before.get(key), default) == before[key],
        resolve(before, key, Some(or_value(before.get(key), default))) == before,
{
    assert(before.insert(key, before[key]) =~= before);
}

/// `or_insert` on an absent key leaves the default in the slot, and nothing
/// else changes.
pub proof fn or_insert_fills_vacant_slot<K, V>(before: Map<K, V>, key: K, default: V)
    requires
        !before.contains_key(key),
    ensures
        or_value(before.get(key), default) == default,
        resolve(before, key, Some(or_value(before.get(key), default))) == before.insert(
            key,
            default,
        ),
{
}

/// Modify-if-present before insert-if-absent, twice on a key that starts out
/// absent. The first round finds nothing to modify and inserts the default
/// unmodified; the second finds the default, modifies it to `modified`, and
/// inserts nothing.
pub proof fn modify_then_insert_twice<K, V>(before: Map<K, V>, key: K, default: V, modified: V)
    requires
        !before.contains_key(key),
    ensures
        ({
            let first = resolve(before, key, Some(or_value(before.get(key), default)));
            let second = resolve(first, key, Some(or_value(Some(modified), default)));
            &&& first.get(key) == Some(default)
            &&& second.get(key) == Some(modified)
            &&& second == before.insert(key, modified)
        }),
{
    let first = resolve(before, key, Some(or_value(before.get(key), default)));
    let second = resolve(first, key, Some(or_value(Some(modified), default)));
    assert(second =~= before.insert(key, modified));
}

} // verus!
