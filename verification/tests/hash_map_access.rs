use cc_traits::{
    Clear, CollectionMut, CollectionRef, Get, GetKeyValue, GetMut, KeyedRef, Len, MapInsert, Remove,
};
use std::collections::HashMap;

fn sample() -> HashMap<String, u32> {
    let mut map = HashMap::new();
    map.insert("a".to_string(), 1);
    map.insert("b".to_string(), 2);
    map
}

#[test]
fn hash_map_len_and_is_empty() {
    let empty: HashMap<String, u32> = HashMap::new();
    assert_eq!(Len::len(&empty), 0);
    assert!(Len::is_empty(&empty));
    let map = sample();
    assert_eq!(Len::len(&map), 2);
    assert!(!Len::is_empty(&map));
}

#[test]
fn hash_map_get_by_a_borrowed_key() {
    let map = sample();
    assert_eq!(Get::get(&map, "a"), Some(&1));
    assert_eq!(Get::get(&map, &"b".to_string()), Some(&2));
    assert_eq!(Get::get(&map, "zz"), None);
}

#[test]
fn hash_map_get_mut_writes_through() {
    let mut map = sample();
    match GetMut::get_mut(&mut map, "a") {
        Some(item) => {
            assert_eq!(*item, 1);
            *item = 8;
        }
        None => panic!("the key is present"),
    }
    assert!(GetMut::get_mut(&mut map, "zz").is_none());
    assert_eq!(map["a"], 8);
    assert_eq!(map["b"], 2);
    assert_eq!(map.len(), 2);
}

#[test]
fn hash_map_get_key_value_shows_the_stored_key() {
    let map = sample();
    assert_eq!(GetKeyValue::get_key_value(&map, "b"), Some((&"b".to_string(), &2)));
    assert_eq!(GetKeyValue::get_key_value(&map, "zz"), None);
}

#[test]
fn hash_map_insert_reports_the_old_item() {
    let mut map = sample();
    assert_eq!(MapInsert::insert(&mut map, "c".to_string(), 3), None);
    assert_eq!(MapInsert::insert(&mut map, "a".to_string(), 10), Some(1));
    assert_eq!(map["a"], 10);
    assert_eq!(map["c"], 3);
    assert_eq!(map.len(), 3);
}

#[test]
fn hash_map_remove_takes_the_item_out() {
    let mut map = sample();
    assert_eq!(Remove::remove(&mut map, "a"), Some(1));
    assert_eq!(Remove::remove(&mut map, "a"), None);
    assert_eq!(map.len(), 1);
    assert_eq!(map["b"], 2);
}

#[test]
fn hash_map_clear_empties_the_map() {
    let mut map = sample();
    Clear::clear(&mut map);
    assert!(map.is_empty());
}

#[test]
fn views_can_be_narrowed() {
    let mut item = 5u32;
    let key = "k".to_string();
    {
        let shown = <HashMap<String, u32> as CollectionRef>::upcast_item_ref(&item);
        assert_eq!(*shown, 5);
        let shown = <HashMap<String, u32> as KeyedRef>::upcast_key_ref(&key);
        assert_eq!(shown, "k");
    }
    {
        let held = <HashMap<String, u32> as CollectionMut>::upcast_item_mut(&mut item);
        assert_eq!(*held, 5);
        *held = 6;
    }
    assert_eq!(item, 6);
}
