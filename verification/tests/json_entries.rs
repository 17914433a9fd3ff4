use cc_traits::{
    Clear, Entry, EntryApi, EntryFlag, EntryTypes, Get, GetKeyValue, GetMut, Len, MapInsert,
    OccupiedEntry, Remove, VacantEntry,
};
use serde_json::Value;

type Object = serde_json::Map<String, Value>;

fn entry_of<'a, C: EntryApi<'a>>(c: &'a mut C, key: C::Key) -> Entry<'a, C, EntryFlag> {
    c.entry(key)
}

/// The role operations, taken through the traits: the object's entries have
/// methods of their own under the same names.
fn key_of<'a, 'b, C: EntryTypes<'a, EntryFlag>>(o: &'b C::Occupied) -> &'b C::Key {
    o.key()
}

fn get_of<'a, 'b, C: EntryTypes<'a, EntryFlag>>(o: &'b C::Occupied) -> &'b C::Item {
    o.get()
}

fn get_mut_of<'a, 'b, C: EntryTypes<'a, EntryFlag>>(o: &'b mut C::Occupied) -> &'b mut C::Item {
    o.get_mut()
}

fn into_mut_of<'a, C: EntryTypes<'a, EntryFlag>>(o: C::Occupied) -> &'a mut C::Item {
    o.into_mut()
}

fn insert_of<'a, C: EntryTypes<'a, EntryFlag>>(o: &mut C::Occupied, item: C::Item) -> C::Item {
    o.insert(item)
}

fn remove_of<'a, C: EntryTypes<'a, EntryFlag>>(o: C::Occupied) -> C::Item {
    o.remove()
}

fn remove_entry_of<'a, C: EntryTypes<'a, EntryFlag>>(o: C::Occupied) -> (C::Key, C::Item) {
    o.remove_entry()
}

fn vacant_key_of<'a, 'b, C: EntryTypes<'a, EntryFlag>>(v: &'b C::Vacant) -> &'b C::Key {
    v.key()
}

fn vacant_insert_of<'a, C: EntryTypes<'a, EntryFlag>>(v: C::Vacant, item: C::Item) -> &'a mut C::Item {
    v.insert(item)
}

fn into_key_of<'a, C: EntryTypes<'a, EntryFlag>>(v: C::Vacant) -> C::Key {
    v.into_key()
}

fn sample() -> Object {
    let mut object = Object::new();
    object.insert("a".to_string(), Value::from(1));
    object.insert("b".to_string(), Value::from("two"));
    object
}

#[test]
fn json_entry_is_occupied_for_a_member() {
    let mut object = sample();
    match entry_of(&mut object, "a".to_string()) {
        Entry::Occupied(o) => {
            assert_eq!(key_of::<Object>(&o), "a");
            assert_eq!(*get_of::<Object>(&o), Value::from(1));
        }
        Entry::Vacant(_) => panic!("the member is there"),
    }
    match entry_of(&mut object, "b".to_string()) {
        Entry::Occupied(o) => {
            assert_eq!(key_of::<Object>(&o), "b");
            assert_eq!(*get_of::<Object>(&o), Value::from("two"));
        }
        Entry::Vacant(_) => panic!("the member is there"),
    }
}

#[test]
fn json_entry_is_vacant_for_a_missing_member() {
    let mut object = sample();
    match entry_of(&mut object, "c".to_string()) {
        Entry::Vacant(v) => assert_eq!(vacant_key_of::<Object>(&v), "c"),
        Entry::Occupied(_) => panic!("the member is missing"),
    }
    assert_eq!(object, sample());
}

#[test]
fn json_occupied_then_replace() {
    let mut object = Object::new();
    object.insert("k".to_string(), Value::from(5));
    match entry_of(&mut object, "k".to_string()) {
        Entry::Occupied(mut o) => {
            assert_eq!(*get_of::<Object>(&o), Value::from(5));
            assert_eq!(insert_of::<Object>(&mut o, Value::from(9)), Value::from(5));
            assert_eq!(*get_of::<Object>(&o), Value::from(9));
            assert_eq!(key_of::<Object>(&o), "k");
        }
        Entry::Vacant(_) => panic!("the member is there"),
    }
    assert_eq!(object["k"], Value::from(9));
}

#[test]
fn json_vacant_then_insert() {
    let mut object = Object::new();
    match entry_of(&mut object, "k".to_string()) {
        Entry::Vacant(v) => {
            let slot = vacant_insert_of::<Object>(v, Value::from(7));
            assert_eq!(*slot, Value::from(7));
        }
        Entry::Occupied(_) => panic!("the object was empty"),
    }
    match entry_of(&mut object, "k".to_string()) {
        Entry::Occupied(o) => assert_eq!(*get_of::<Object>(&o), Value::from(7)),
        Entry::Vacant(_) => panic!("the member was inserted"),
    }
}

#[test]
fn json_occupied_get_mut_and_into_mut_write_through() {
    let mut object = sample();
    match entry_of(&mut object, "a".to_string()) {
        Entry::Occupied(mut o) => {
            let slot = get_mut_of::<Object>(&mut o);
            assert_eq!(*slot, Value::from(1));
            *slot = Value::from(10);
            assert_eq!(*get_of::<Object>(&o), Value::from(10));
            let slot = into_mut_of::<Object>(o);
            assert_eq!(*slot, Value::from(10));
            *slot = Value::Bool(true);
        }
        Entry::Vacant(_) => panic!("the member is there"),
    }
    assert_eq!(object["a"], Value::Bool(true));
    assert_eq!(object["b"], Value::from("two"));
}

#[test]
fn json_occupied_remove_takes_the_member_out() {
    let mut object = sample();
    match entry_of(&mut object, "a".to_string()) {
        Entry::Occupied(o) => assert_eq!(remove_of::<Object>(o), Value::from(1)),
        Entry::Vacant(_) => panic!("the member is there"),
    }
    assert!(!object.contains_key("a"));
    assert_eq!(object.len(), 1);
}

#[test]
fn json_remove_entry_round_trip() {
    let mut object = sample();
    match entry_of(&mut object, "b".to_string()) {
        Entry::Occupied(o) => {
            let seen = get_of::<Object>(&o).clone();
            let (key, item) = remove_entry_of::<Object>(o);
            assert_eq!(key, "b");
            assert_eq!(item, Value::from("two"));
            assert_eq!(item, seen);
        }
        Entry::Vacant(_) => panic!("the member is there"),
    }
    assert!(!object.contains_key("b"));
    assert!(matches!(entry_of(&mut object, "b".to_string()), Entry::Vacant(_)));
}

#[test]
fn json_vacant_into_key_clones_the_key_and_inserts_nothing() {
    let mut object = sample();
    match entry_of(&mut object, "c".to_string()) {
        Entry::Vacant(v) => assert_eq!(into_key_of::<Object>(v), "c"),
        Entry::Occupied(_) => panic!("the member is missing"),
    }
    assert_eq!(object, sample());
}

#[test]
fn json_derived_operations() {
    let mut object = Object::new();
    assert_eq!(*entry_of(&mut object, "n".to_string()).or_insert(Value::from(3)), Value::from(3));
    assert_eq!(*entry_of(&mut object, "n".to_string()).or_insert(Value::from(4)), Value::from(3));
    assert_eq!(*entry_of(&mut object, "d".to_string()).or_default(), Value::Null);
    assert_eq!(
        *entry_of(&mut object, "w".to_string()).or_insert_with(|| Value::from("made")),
        Value::from("made")
    );
    assert_eq!(
        *entry_of(&mut object, "key".to_string())
            .or_insert_with_key(|key| Value::from(key.len() as u64)),
        Value::from(3u64)
    );
    assert_eq!(entry_of(&mut object, "n".to_string()).key(), "n");
    entry_of(&mut object, "n".to_string())
        .and_modify(|v| *v = Value::from(30))
        .or_insert(Value::from(0));
    entry_of(&mut object, "m".to_string())
        .and_modify(|v| *v = Value::from(30))
        .or_insert(Value::from(0));
    assert_eq!(object["n"], Value::from(30));
    assert_eq!(object["m"], Value::from(0));
    assert_eq!(object.len(), 5);
}

#[test]
fn json_object_len_and_is_empty() {
    let mut object = Object::new();
    assert_eq!(Len::len(&object), 0);
    assert!(Len::is_empty(&object));
    object.insert("a".to_string(), Value::Null);
    object.insert("b".to_string(), Value::Null);
    assert_eq!(Len::len(&object), 2);
    assert!(!Len::is_empty(&object));
}

#[test]
fn json_object_get_and_get_key_value() {
    let object = sample();
    assert_eq!(Get::get(&object, "a"), Some(&Value::from(1)));
    assert_eq!(Get::get(&object, "zz"), None);
    assert_eq!(
        GetKeyValue::get_key_value(&object, "b"),
        Some((&"b".to_string(), &Value::from("two")))
    );
    assert_eq!(GetKeyValue::get_key_value(&object, "zz"), None);
}

#[test]
fn json_object_get_mut_writes_through() {
    let mut object = sample();
    match GetMut::get_mut(&mut object, "a") {
        Some(slot) => {
            assert_eq!(*slot, Value::from(1));
            *slot = Value::from(11);
        }
        None => panic!("the member is there"),
    }
    assert!(GetMut::get_mut(&mut object, "zz").is_none());
    assert_eq!(object["a"], Value::from(11));
    assert_eq!(object.len(), 2);
}

#[test]
fn json_object_insert_remove_clear() {
    let mut object = Object::new();
    assert_eq!(MapInsert::insert(&mut object, "a".to_string(), Value::from(1)), None);
    assert_eq!(
        MapInsert::insert(&mut object, "a".to_string(), Value::from(2)),
        Some(Value::from(1))
    );
    assert_eq!(object["a"], Value::from(2));
    assert_eq!(Remove::remove(&mut object, "zz"), None);
    assert_eq!(Remove::remove(&mut object, "a"), Some(Value::from(2)));
    assert!(object.is_empty());
    object.insert("x".to_string(), Value::Null);
    object.insert("y".to_string(), Value::Null);
    Clear::clear(&mut object);
    assert!(object.is_empty());
}
