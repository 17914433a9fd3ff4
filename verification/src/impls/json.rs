//! The JSON object map of `serde_json` as a backend.
//!
//! The object's own entries take the two roles directly. They offer no way
//! to take the key back out of a vacant entry, and key and item are taken out
//! of an occupied entry here in two steps; both are made by cloning the key,
//! which is an allocation that the other backends do not pay.
//!
//! The object is modelled by its members, named by the characters of their
//! keys. An entry is modelled by its key and by the borrow of the object that
//! it holds: what that borrow shows is the object as it stands, and what it is
//! left holding is the object when the entry's borrow ends. The operations
//! that end an entry say what the object then holds. An entry that is merely
//! dropped says nothing, so taking the key back out of a vacant entry, which
//! drops it, does not either.
use crate::collection::{
    Clear, Collection, CollectionMut, CollectionRef, Get, GetKeyValue, GetMut, Keyed, KeyedRef, Len,
    MapInsert, Remove,
};
use crate::entry_api::{Entry, EntryApi, EntryFlag, EntryTypes, OccupiedEntry, VacantEntry};
use serde_json::map::OccupiedEntry as JsonOccupiedEntry;
use serde_json::map::VacantEntry as JsonVacantEntry;
use vstd::prelude::*;

verus! {

/// `serde_json::Map`, the map behind a JSON object.
#[verifier::external_type_specification]
#[verifier::external_body]
#[verifier::reject_recursive_types(K)]
#[verifier::reject_recursive_types(V)]
pub struct ExJsonMap<K, V>(serde_json::Map<K, V>);

/// `serde_json::Value`, any JSON value. It is carried, never looked into.
#[verifier::external_type_specification]
#[verifier::external_body]
pub struct ExJsonValue(serde_json::Value);

/// `serde_json::map::OccupiedEntry`, the object's own occupied entry.
#[verifier::external_type_specification]
#[verifier::external_body]
pub struct ExJsonOccupiedEntry<'a>(JsonOccupiedEntry<'a>);

/// `serde_json::map::VacantEntry`, the object's own vacant entry.
#[verifier::external_type_specification]
#[verifier::external_body]
pub struct ExJsonVacantEntry<'a>(JsonVacantEntry<'a>);

/// The members that a JSON object holds, by the characters of their keys.
pub uninterp spec fn json_members(object: serde_json::Map<String, serde_json::Value>) -> Map<
    Seq<char>,
    serde_json::Value,
>;

/// The borrow of the object that an occupied entry holds.
pub uninterp spec fn json_occupied_owner(entry: JsonOccupiedEntry<'_>) -> &mut serde_json::Map<
    String,
    serde_json::Value,
>;

/// The characters of the key that `OccupiedEntry::key` shows.
pub uninterp spec fn json_occupied_key(entry: JsonOccupiedEntry<'_>) -> Seq<char>;

/// The borrow of the object that a vacant entry holds.
pub uninterp spec fn json_vacant_owner(entry: JsonVacantEntry<'_>) -> &mut serde_json::Map<
    String,
    serde_json::Value,
>;

/// The characters of the key that `VacantEntry::key` shows.
pub uninterp spec fn json_vacant_key(entry: JsonVacantEntry<'_>) -> Seq<char>;

/// The value of the member that an occupied entry stands for, in the object
/// as the entry's borrow shows it.
pub open spec fn json_occupied_value(entry: JsonOccupiedEntry<'_>) -> serde_json::Value {
    json_members(*json_occupied_owner(entry))[json_occupied_key(entry)]
}

/// Whether `e` is an entry at `key` into `object`: its key has the characters
/// of `key`, its borrow shows `object`, and it is occupied exactly when the
/// object has a member under the key.
pub open spec fn json_entry_into<'a>(
    e: Entry<'a, serde_json::Map<String, serde_json::Value>, EntryFlag>,
    object: serde_json::Map<String, serde_json::Value>,
    key: Seq<char>,
) -> bool {
    match e {
        Entry::Occupied(o) => {
            &&& json_occupied_key(o) == key
            &&& *json_occupied_owner(o) == object
            &&& json_members(object).contains_key(key)
        },
        Entry::Vacant(v) => {
            &&& json_vacant_key(v) == key
            &&& *json_vacant_owner(v) == object
            &&& !json_members(object).contains_key(key)
        },
    }
}

/// The borrow of the object that `e` holds, whichever role it has. What this
/// borrow is left holding is the object when the entry's borrow ends.
pub open spec fn json_entry_leaves<'a>(
    e: Entry<'a, serde_json::Map<String, serde_json::Value>, EntryFlag>,
) -> &'a mut serde_json::Map<String, serde_json::Value> {
    match e {
        Entry::Occupied(o) => json_occupied_owner(o),
        Entry::Vacant(v) => json_vacant_owner(v),
    }
}

/// `Map::entry` on an owned key, with the object's entry moved into the
/// variant of the same name. The entry is occupied exactly when the object
/// has a member under the key; either way its key has the characters of
/// `key`, and it holds the borrow that was passed in: the object as it
/// stands, to be left as the entry leaves it.
#[verifier::external_body]
fn object_entry<'a>(object: &'a mut serde_json::Map<String, serde_json::Value>, key: String) -> (e:
    Entry<'a, serde_json::Map<String, serde_json::Value>, EntryFlag>)
    ensures
        json_entry_into(e, *old(object), key@),
        *final(json_entry_leaves(e)) == *final(object),
{
    match object.entry(key) {
        serde_json::map::Entry::Occupied(o) => Entry::Occupied(o),
        serde_json::map::Entry::Vacant(v) => Entry::Vacant(v),
    }
}

/// `OccupiedEntry::key` returns the key of the entry's member.
#[verifier::external_body]
fn occupied_key<'a, 'b>(entry: &'b JsonOccupiedEntry<'a>) -> (key: &'b String)
    ensures
        key@ == json_occupied_key(*entry),
{
    entry.key()
}

/// `OccupiedEntry::get` returns the value of the entry's member.
#[verifier::external_body]
fn occupied_get<'a, 'b>(entry: &'b JsonOccupiedEntry<'a>) -> (value: &'b serde_json::Value)
    ensures
        *value == json_occupied_value(*entry),
{
    entry.get()
}

/// `OccupiedEntry::get_mut` returns a mutable reference to the value of the
/// entry's member. It shows the value; what it is left holding is the
/// member's value in the object that the entry shows afterwards. The entry
/// keeps its key and its borrow.
#[verifier::external_body]
fn occupied_get_mut<'a, 'b>(entry: &'b mut JsonOccupiedEntry<'a>) -> (value:
    &'b mut serde_json::Value)
    ensures
        *value == json_occupied_value(*old(entry)),
        json_occupied_key(*final(entry)) == json_occupied_key(*old(entry)),
        json_members(*json_occupied_owner(*final(entry))) == json_members(
            *json_occupied_owner(*old(entry)),
        ).insert(json_occupied_key(*old(entry)), *final(value)),
        *final(json_occupied_owner(*final(entry))) == *final(json_occupied_owner(*old(entry))),
{
    entry.get_mut()
}

/// `OccupiedEntry::into_mut` turns the entry into a mutable reference to the
/// value of its member. When the entry's borrow ends, the object holds what
/// the entry showed, with the member's value as the reference left it.
#[verifier::external_body]
fn occupied_into_mut<'a>(entry: JsonOccupiedEntry<'a>) -> (value: &'a mut serde_json::Value)
    ensures
        *value == json_occupied_value(entry),
        json_members(*final(json_occupied_owner(entry))) == json_members(
            *json_occupied_owner(entry),
        ).insert(json_occupied_key(entry), *final(value)),
{
    entry.into_mut()
}

/// `OccupiedEntry::insert` sets the value of the entry's member and returns
/// the value that was there. The entry keeps its key and its borrow, and
/// shows the object with the new value.
#[verifier::external_body]
fn occupied_insert<'a>(entry: &mut JsonOccupiedEntry<'a>, value: serde_json::Value) -> (previous:
    serde_json::Value)
    ensures
        previous == json_occupied_value(*old(entry)),
        json_occupied_key(*final(entry)) == json_occupied_key(*old(entry)),
        json_members(*json_occupied_owner(*final(entry))) == json_members(
            *json_occupied_owner(*old(entry)),
        ).insert(json_occupied_key(*old(entry)), value),
        *final(json_occupied_owner(*final(entry))) == *final(json_occupied_owner(*old(entry))),
{
    entry.insert(value)
}

/// `OccupiedEntry::remove` takes the entry's member out of the object and
/// returns its value. When the entry's borrow ends, the object no longer has
/// the member; with the returned value put back under the key, it would hold
/// what the entry showed.
#[verifier::external_body]
fn occupied_remove<'a>(entry: JsonOccupiedEntry<'a>) -> (value: serde_json::Value)
    ensures
        value == json_occupied_value(entry),
        json_members(*json_occupied_owner(entry)) == json_members(
            *final(json_occupied_owner(entry)),
        ).insert(json_occupied_key(entry), value) && !json_members(
            *final(json_occupied_owner(entry)),
        ).contains_key(json_occupied_key(entry)),
{
    entry.remove()
}

/// `VacantEntry::key` returns the key that an insert would use.
#[verifier::external_body]
fn vacant_key<'a, 'b>(entry: &'b JsonVacantEntry<'a>) -> (key: &'b String)
    ensures
        key@ == json_vacant_key(*entry),
{
    entry.key()
}

/// `VacantEntry::insert` puts `value` under the entry's key and returns a
/// mutable reference to it. When the entry's borrow ends, the object holds
/// what the entry showed, and under the key what the reference was left
/// holding.
#[verifier::external_body]
fn vacant_insert<'a>(entry: JsonVacantEntry<'a>, value: serde_json::Value) -> (slot:
    &'a mut serde_json::Value)
    ensures
        *slot == value,
        json_members(*final(json_vacant_owner(entry))) == json_members(
            *json_vacant_owner(entry),
        ).insert(json_vacant_key(entry), *final(slot)),
{
    entry.insert(value)
}

/// `Map::len` returns the number of members.
#[verifier::external_body]
fn object_len(object: &serde_json::Map<String, serde_json::Value>) -> (n: usize)
    ensures
        n == json_members(*object).len(),
{
    object.len()
}

/// `Map::is_empty` tells whether the object has no members.
#[verifier::external_body]
fn object_is_empty(object: &serde_json::Map<String, serde_json::Value>) -> (b: bool)
    ensures
        b == json_members(*object).is_empty(),
{
    object.is_empty()
}

/// `Map::get` by a string slice returns the value of the member under that
/// key, if there is one.
#[verifier::external_body]
fn object_get<'a>(object: &'a serde_json::Map<String, serde_json::Value>, key: &str) -> (r: Option<
    &'a serde_json::Value,
>)
    ensures
        json_members(*object).get(key@) == match r {
            Some(value) => Some(*value),
            None => None,
        },
{
    object.get(key)
}

/// `Map::get_mut` by a string slice returns a mutable reference to the value
/// of the member under that key, if there is one. What the reference is left
/// holding is the member's value afterwards; nothing else changes.
#[verifier::external_body]
fn object_get_mut<'a>(
    object: &'a mut serde_json::Map<String, serde_json::Value>,
    key: &str,
) -> (r: Option<&'a mut serde_json::Value>)
    ensures
        match r {
            Some(value) => json_members(*old(object)).get(key@) == Some(*value) && json_members(
                *final(object),
            ) == json_members(*old(object)).insert(key@, *final(value)),
            None => !json_members(*old(object)).contains_key(key@) && json_members(*final(object))
                == json_members(*old(object)),
        },
{
    object.get_mut(key)
}

/// `Map::get_key_value` by a string slice returns the stored key and the
/// value of the member under that key, if there is one.
#[verifier::external_body]
fn object_get_key_value<'a>(
    object: &'a serde_json::Map<String, serde_json::Value>,
    key: &str,
) -> (r: Option<(&'a String, &'a serde_json::Value)>)
    ensures
        match r {
            Some((k, value)) => k@ == key@ && json_members(*object).get(key@) == Some(*value),
            None => !json_members(*object).contains_key(key@),
        },
{
    object.get_key_value(key)
}

/// `Map::insert` puts `value` under `key` and returns the value that was
/// there, if there was one.
#[verifier::external_body]
fn object_insert(
    object: &mut serde_json::Map<String, serde_json::Value>,
    key: String,
    value: serde_json::Value,
) -> (previous: Option<serde_json::Value>)
    ensures
        json_members(*final(object)) == json_members(*old(object)).insert(key@, value),
        previous == json_members(*old(object)).get(key@),
{
    object.insert(key, value)
}

/// `Map::remove` by a string slice takes the member under that key out of
/// the object and returns its value, if there was one.
#[verifier::external_body]
fn object_remove(object: &mut serde_json::Map<String, serde_json::Value>, key: &str) -> (removed:
    Option<serde_json::Value>)
    ensures
        json_members(*final(object)) == json_members(*old(object)).remove(key@),
        removed == json_members(*old(object)).get(key@),
{
    object.remove(key)
}

/// `Map::clear` takes every member out of the object.
#[verifier::external_body]
fn object_clear(object: &mut serde_json::Map<String, serde_json::Value>)
    ensures
        json_members(*final(object)).is_empty(),
{
    object.clear()
}

impl Collection for serde_json::Map<String, serde_json::Value> {
    type Item = serde_json::Value;
}

impl CollectionRef for serde_json::Map<String, serde_json::Value> {

}

impl CollectionMut for serde_json::Map<String, serde_json::Value> {

}

impl Keyed for serde_json::Map<String, serde_json::Value> {
    type Key = String;

    type KeyView = Seq<char>;

    open spec fn key_view(key: String) -> Seq<char> {
        key@
    }

    open spec fn model(&self) -> Map<Seq<char>, serde_json::Value> {
        json_members(*self)
    }

    open spec fn obeys_model() -> bool {
        true
    }
}

impl KeyedRef for serde_json::Map<String, serde_json::Value> {

}

impl Len for serde_json::Map<String, serde_json::Value> {
    open spec fn spec_len(&self) -> nat {
        json_members(*self).len()
    }

    open spec fn spec_is_empty(&self) -> bool {
        json_members(*self).is_empty()
    }

    #[inline(always)]
    fn len(&self) -> (n: usize) {
        object_len(self)
    }

    #[inline(always)]
    fn is_empty(&self) -> (b: bool) {
        object_is_empty(self)
    }
}

impl<'a> Get<&'a str> for serde_json::Map<String, serde_json::Value> {
    open spec fn finds(&self, key: &'a str, item: Option<serde_json::Value>) -> bool {
        item == json_members(*self).get(key@)
    }

    #[inline(always)]
    fn get(&self, key: &'a str) -> (r: Option<&serde_json::Value>) {
        object_get(self, key)
    }
}

impl<'a> GetMut<&'a str> for serde_json::Map<String, serde_json::Value> {
    open spec fn replaces(&self, key: &'a str, item: serde_json::Value, after: &Self) -> bool {
        json_members(*after) == json_members(*self).insert(key@, item)
    }

    #[inline(always)]
    fn get_mut(&mut self, key: &'a str) -> (r: Option<&mut serde_json::Value>) {
        object_get_mut(self, key)
    }
}

impl<'a> GetKeyValue<&'a str> for serde_json::Map<String, serde_json::Value> {
    open spec fn finds_pair(&self, key: &'a str, pair: Option<(String, serde_json::Value)>) -> bool {
        match pair {
            Some((k, value)) => k@ == key@ && json_members(*self).get(key@) == Some(value),
            None => !json_members(*self).contains_key(key@),
        }
    }

    #[inline(always)]
    fn get_key_value(&self, key: &'a str) -> (r: Option<(&String, &serde_json::Value)>) {
        object_get_key_value(self, key)
    }
}

impl MapInsert<String> for serde_json::Map<String, serde_json::Value> {
    type Output = Option<serde_json::Value>;

    open spec fn inserts(
        &self,
        key: String,
        value: serde_json::Value,
        after: &Self,
        out: Option<serde_json::Value>,
    ) -> bool {
        json_members(*after) == json_members(*self).insert(key@, value) && out == json_members(
            *self,
        ).get(key@)
    }

    #[inline(always)]
    fn insert(&mut self, key: String, value: serde_json::Value) -> (out: Option<
        serde_json::Value,
    >) {
        object_insert(self, key, value)
    }
}

impl<'a> Remove<&'a str> for serde_json::Map<String, serde_json::Value> {
    open spec fn removes(&self, key: &'a str, after: &Self, out: Option<serde_json::Value>) -> bool {
        json_members(*after) == json_members(*self).remove(key@) && out == json_members(
            *self,
        ).get(key@)
    }

    #[inline(always)]
    fn remove(&mut self, key: &'a str) -> (out: Option<serde_json::Value>) {
        object_remove(self, key)
    }
}

impl Clear for serde_json::Map<String, serde_json::Value> {
    #[inline(always)]
    fn clear(&mut self) {
        object_clear(self)
    }
}

/// Each operation is the object's own, but for `remove_entry`. Beyond what
/// every occupied entry promises, the operations that end the entry say what
/// the object holds when the entry's borrow ends, and the others that the
/// entry keeps its borrow.
impl<'a> OccupiedEntry<'a, serde_json::Map<String, serde_json::Value>> for JsonOccupiedEntry<'a> {
    open spec fn spec_key(self) -> Seq<char> {
        json_occupied_key(self)
    }

    open spec fn value(self) -> serde_json::Value {
        json_occupied_value(self)
    }

    #[inline(always)]
    fn key(&self) -> (k: &String) {
        occupied_key(self)
    }

    /// The object's entries give the item alone, so the key is cloned first
    /// and the item taken out after.
    #[inline(always)]
    fn remove_entry(self) -> (kv: (String, serde_json::Value))
        ensures
            json_members(*final(json_occupied_owner(self))) == json_members(
                *json_occupied_owner(self),
            ).remove(json_occupied_key(self)),
    {
        let key = occupied_key(&self).clone();
        let item = occupied_remove(self);
        assert(json_members(*final(json_occupied_owner(self))) =~= json_members(
            *json_occupied_owner(self),
        ).remove(json_occupied_key(self)));
        (key, item)
    }

    #[inline(always)]
    fn get(&self) -> (v: &serde_json::Value) {
        occupied_get(self)
    }

    #[inline(always)]
    fn get_mut(&mut self) -> (v: &mut serde_json::Value)
        ensures
            json_members(*json_occupied_owner(*final(self))) == json_members(
                *json_occupied_owner(*old(self)),
            ).insert(json_occupied_key(*old(self)), *final(v)),
            *final(json_occupied_owner(*final(self))) == *final(json_occupied_owner(*old(self))),
    {
        occupied_get_mut(self)
    }

    #[inline(always)]
    fn into_mut(self) -> (v: &'a mut serde_json::Value)
        ensures
            json_members(*final(json_occupied_owner(self))) == json_members(
                *json_occupied_owner(self),
            ).insert(json_occupied_key(self), *final(v)),
    {
        occupied_into_mut(self)
    }

    #[inline(always)]
    fn insert(&mut self, value: serde_json::Value) -> (previous: serde_json::Value)
        ensures
            json_members(*json_occupied_owner(*final(self))) == json_members(
                *json_occupied_owner(*old(self)),
            ).insert(json_occupied_key(*old(self)), value),
            *final(json_occupied_owner(*final(self))) == *final(json_occupied_owner(*old(self))),
    {
        occupied_insert(self, value)
    }

    #[inline(always)]
    fn remove(self) -> (v: serde_json::Value)
        ensures
            json_members(*final(json_occupied_owner(self))) == json_members(
                *json_occupied_owner(self),
            ).remove(json_occupied_key(self)),
    {
        let item = occupied_remove(self);
        assert(json_members(*final(json_occupied_owner(self))) =~= json_members(
            *json_occupied_owner(self),
        ).remove(json_occupied_key(self)));
        item
    }
}

/// Filling the slot says what the object holds when the entry's borrow ends.
/// Taking the key back drops the entry, and says nothing of the object.
impl<'a> VacantEntry<'a, serde_json::Map<String, serde_json::Value>, EntryFlag> for JsonVacantEntry<
    'a,
> {
    open spec fn spec_key(self) -> Seq<char> {
        json_vacant_key(self)
    }

    #[inline(always)]
    fn insert(self, value: serde_json::Value) -> (v: &'a mut serde_json::Value)
        ensures
            json_members(*final(json_vacant_owner(self))) == json_members(
                *json_vacant_owner(self),
            ).insert(json_vacant_key(self), *final(v)),
    {
        vacant_insert(self, value)
    }

    #[inline(always)]
    fn key(&self) -> (k: &String) {
        vacant_key(self)
    }

    /// The object's vacant entry cannot give its key back, so the key is
    /// cloned and the entry dropped.
    #[inline(always)]
    fn into_key(self) -> (k: String) {
        vacant_key(&self).clone()
    }
}

impl<'a> EntryTypes<'a, EntryFlag> for serde_json::Map<String, serde_json::Value> {
    type Occupied = JsonOccupiedEntry<'a>;

    type Vacant = JsonVacantEntry<'a>;
}

impl<'a> EntryApi<'a> for serde_json::Map<String, serde_json::Value> {
    /// The object's own `entry`. The entry holds the borrow of the object:
    /// it shows the object as it stands, and what it leaves is what the
    /// object holds when the entry's borrow ends.
    #[inline(always)]
    fn native_entry(&'a mut self, key: String) -> (e: Entry<'a, Self, EntryFlag>)
        ensures
            json_entry_into(e, *old(self), key@),
            *final(json_entry_leaves(e)) == *final(self),
    {
        let ghost name = key@;
        let e = object_entry(self, key);
        assert(e matches Entry::Occupied(o) ==> o.spec_key() == name && o.value() == json_members(
            *old(self),
        )[name]);
        assert(e matches Entry::Vacant(v) ==> v.spec_key() == name);
        e
    }
}

} // verus!
