use cc_traits::{Entry, EntryApi, EntryFlag, OccupiedEntry, VacantEntry};
use std::cell::Cell;
use std::collections::HashMap;

/// Takes the entry through the trait, whatever the container's own methods
/// are called.
fn entry_of<'a, C: EntryApi<'a>>(c: &'a mut C, key: C::Key) -> Entry<'a, C, EntryFlag> {
    c.entry(key)
}

#[test]
fn entry_counts_letters() {
    let mut letters: HashMap<char, u32> = HashMap::new();
    for ch in "a short treatise on fungi".chars() {
        let counter = entry_of(&mut letters, ch).or_insert(0);
        *counter += 1;
    }
    assert_eq!(letters[&'s'], 2);
    assert_eq!(letters[&'t'], 3);
    assert_eq!(letters[&'u'], 1);
    assert!(!letters.contains_key(&'y'));
}

#[test]
fn occupied_key_is_the_key_looked_up() {
    let mut map: HashMap<&'static str, i32> = HashMap::new();
    entry_of(&mut map, "poneyland").or_insert(12);
    match entry_of(&mut map, "poneyland") {
        Entry::Occupied(o) => assert_eq!(*o.key(), "poneyland"),
        Entry::Vacant(_) => panic!("the key was inserted"),
    }
}

#[test]
fn occupied_remove_entry_deletes_the_slot() {
    let mut map: HashMap<&'static str, i32> = HashMap::new();
    entry_of(&mut map, "poneyland").or_insert(12);
    if let Entry::Occupied(o) = entry_of(&mut map, "poneyland") {
        let seen = *o.get();
        let (key, item) = o.remove_entry();
        assert_eq!(key, "poneyland");
        assert_eq!(item, 12);
        assert_eq!(item, seen);
    } else {
        panic!("the key was inserted");
    }
    assert_eq!(map.contains_key("poneyland"), false);
    assert!(matches!(entry_of(&mut map, "poneyland"), Entry::Vacant(_)));
}

#[test]
fn occupied_get_shows_the_item() {
    let mut map: HashMap<&'static str, i32> = HashMap::new();
    entry_of(&mut map, "poneyland").or_insert(12);
    if let Entry::Occupied(o) = entry_of(&mut map, "poneyland") {
        assert_eq!(*o.get(), 12);
    } else {
        panic!("the key was inserted");
    }
}

#[test]
fn occupied_get_mut_can_be_used_repeatedly() {
    let mut map: HashMap<&'static str, i32> = HashMap::new();
    entry_of(&mut map, "poneyland").or_insert(12);
    assert_eq!(map["poneyland"], 12);
    if let Entry::Occupied(mut o) = entry_of(&mut map, "poneyland") {
        *o.get_mut() += 10;
        assert_eq!(*o.get(), 22);
        *o.get_mut() += 2;
    } else {
        panic!("the key was inserted");
    }
    assert_eq!(map["poneyland"], 24);
}

#[test]
fn occupied_into_mut_outlives_the_entry() {
    let mut map: HashMap<&'static str, i32> = HashMap::new();
    entry_of(&mut map, "poneyland").or_insert(12);
    let item = match entry_of(&mut map, "poneyland") {
        Entry::Occupied(o) => o.into_mut(),
        Entry::Vacant(_) => panic!("the key was inserted"),
    };
    *item += 10;
    assert_eq!(map["poneyland"], 22);
}

#[test]
fn occupied_insert_returns_the_old_item() {
    let mut map: HashMap<&'static str, i32> = HashMap::new();
    entry_of(&mut map, "poneyland").or_insert(12);
    if let Entry::Occupied(mut o) = entry_of(&mut map, "poneyland") {
        assert_eq!(o.insert(15), 12);
    } else {
        panic!("the key was inserted");
    }
    assert_eq!(map["poneyland"], 15);
}

#[test]
fn occupied_remove_returns_the_item() {
    let mut map: HashMap<&'static str, i32> = HashMap::new();
    entry_of(&mut map, "poneyland").or_insert(12);
    if let Entry::Occupied(o) = entry_of(&mut map, "poneyland") {
        assert_eq!(o.remove(), 12);
    } else {
        panic!("the key was inserted");
    }
    assert_eq!(map.contains_key("poneyland"), false);
}

#[test]
fn vacant_insert_fills_the_slot() {
    let mut map: HashMap<&'static str, i32> = HashMap::new();
    if let Entry::Vacant(v) = entry_of(&mut map, "poneyland") {
        v.insert(37);
    } else {
        panic!("the map was empty");
    }
    assert_eq!(map["poneyland"], 37);
}

#[test]
fn vacant_key_is_the_key_looked_up() {
    let mut map: HashMap<&'static str, i32> = HashMap::new();
    match entry_of(&mut map, "poneyland") {
        Entry::Vacant(v) => assert_eq!(*v.key(), "poneyland"),
        Entry::Occupied(_) => panic!("the map was empty"),
    }
    assert!(map.is_empty());
}

#[test]
fn vacant_into_key_gives_the_key_back_and_inserts_nothing() {
    let mut map: HashMap<String, i32> = HashMap::new();
    match entry_of(&mut map, "poneyland".to_string()) {
        Entry::Vacant(v) => assert_eq!(v.into_key(), "poneyland".to_string()),
        Entry::Occupied(_) => panic!("the map was empty"),
    }
    assert!(map.is_empty());
}

#[test]
fn or_insert_inserts_once() {
    let mut map: HashMap<&'static str, u32> = HashMap::new();
    entry_of(&mut map, "poneyland").or_insert(3);
    assert_eq!(map["poneyland"], 3);
    *entry_of(&mut map, "poneyland").or_insert(10) *= 2;
    assert_eq!(map["poneyland"], 6);
}

#[test]
fn or_insert_never_overwrites_a_present_item() {
    let defaults: [u32; 5] = [0, 1, 5, 6, u32::MAX];
    for default in defaults {
        let mut map: HashMap<u8, u32> = HashMap::new();
        map.insert(1, 5);
        map.insert(2, 20);
        assert_eq!(*entry_of(&mut map, 1).or_insert(default), 5);
        assert_eq!(map.len(), 2);
        assert_eq!(map[&1], 5);
        assert_eq!(map[&2], 20);
    }
}

#[test]
fn or_insert_with_moves_its_capture_in() {
    let mut map: HashMap<&'static str, String> = HashMap::new();
    let s = "hoho".to_string();
    entry_of(&mut map, "poneyland").or_insert_with(|| s);
    assert_eq!(map["poneyland"], "hoho".to_string());
}

#[test]
fn or_insert_with_runs_the_thunk_only_for_a_vacant_slot() {
    let calls = Cell::new(0u32);
    let mut map: HashMap<u8, u32> = HashMap::new();
    map.insert(1, 5);

    let found = *entry_of(&mut map, 1).or_insert_with(|| {
        calls.set(calls.get() + 1);
        7
    });
    assert_eq!(found, 5);
    assert_eq!(calls.get(), 0);

    let made = *entry_of(&mut map, 2).or_insert_with(|| {
        calls.set(calls.get() + 1);
        7
    });
    assert_eq!(made, 7);
    assert_eq!(calls.get(), 1);
    assert_eq!(map[&1], 5);
    assert_eq!(map[&2], 7);
}

#[test]
fn and_modify_runs_before_the_insert_decision() {
    let mut map: HashMap<&'static str, u32> = HashMap::new();
    entry_of(&mut map, "poneyland").and_modify(|e| *e += 1).or_insert(42);
    assert_eq!(map["poneyland"], 42);
    entry_of(&mut map, "poneyland").and_modify(|e| *e += 1).or_insert(42);
    assert_eq!(map["poneyland"], 43);
}

#[test]
fn and_modify_leaves_a_vacant_entry_vacant() {
    let calls = Cell::new(0u32);
    let mut map: HashMap<u8, u32> = HashMap::new();
    let entry = entry_of(&mut map, 9).and_modify(|e| {
        calls.set(calls.get() + 1);
        *e += 1
    });
    assert!(matches!(entry, Entry::Vacant(_)));
    assert_eq!(calls.get(), 0);
    assert!(map.is_empty());
}

#[test]
fn and_modify_keeps_an_occupied_entry_occupied() {
    let mut map: HashMap<u8, u32> = HashMap::new();
    map.insert(9, 10);
    match entry_of(&mut map, 9).and_modify(|e| *e *= 3) {
        Entry::Occupied(o) => {
            assert_eq!(*o.key(), 9);
            assert_eq!(*o.get(), 30);
        }
        Entry::Vacant(_) => panic!("the key was inserted"),
    }
    assert_eq!(map[&9], 30);
}

#[test]
fn entry_key_shows_the_key_in_either_state() {
    let mut map: HashMap<&'static str, u32> = HashMap::new();
    assert_eq!(*entry_of(&mut map, "poneyland").key(), "poneyland");
    map.insert("poneyland", 1);
    assert_eq!(*entry_of(&mut map, "poneyland").key(), "poneyland");
    assert_eq!(map.len(), 1);
}

#[test]
fn or_insert_with_key_derives_the_item_from_the_key() {
    let mut map: HashMap<&'static str, usize> = HashMap::new();
    entry_of(&mut map, "poneyland").or_insert_with_key(|key| key.chars().count());
    assert_eq!(map["poneyland"], 9);
    let calls = Cell::new(0u32);
    let found = *entry_of(&mut map, "poneyland").or_insert_with_key(|_| {
        calls.set(calls.get() + 1);
        0
    });
    assert_eq!(found, 9);
    assert_eq!(calls.get(), 0);
}

#[test]
fn or_default_inserts_the_default_item() {
    let mut map: HashMap<&'static str, Option<u32>> = HashMap::new();
    entry_of(&mut map, "poneyland").or_default();
    assert_eq!(map["poneyland"], None);
    let mut counts: HashMap<&'static str, u32> = HashMap::new();
    counts.insert("a", 4);
    assert_eq!(*entry_of(&mut counts, "a").or_default(), 4);
    assert_eq!(*entry_of(&mut counts, "b").or_default(), 0);
    assert_eq!(counts.len(), 2);
}

#[test]
fn occupied_then_replace() {
    let mut map: HashMap<&'static str, u32> = HashMap::new();
    map.insert("k", 5);
    match entry_of(&mut map, "k") {
        Entry::Occupied(mut o) => {
            assert_eq!(*o.get(), 5);
            assert_eq!(o.insert(9), 5);
            assert_eq!(*o.get(), 9);
        }
        Entry::Vacant(_) => panic!("the key is present"),
    }
    assert_eq!(map["k"], 9);
    assert_eq!(map.len(), 1);
}

#[test]
fn vacant_then_insert() {
    let mut map: HashMap<&'static str, u32> = HashMap::new();
    map.insert("other", 1);
    match entry_of(&mut map, "k") {
        Entry::Vacant(v) => {
            let item = v.insert(7);
            assert_eq!(*item, 7);
        }
        Entry::Occupied(_) => panic!("the key is absent"),
    }
    match entry_of(&mut map, "k") {
        Entry::Occupied(o) => assert_eq!(*o.get(), 7),
        Entry::Vacant(_) => panic!("the key was inserted"),
    }
    assert_eq!(map["other"], 1);
    assert_eq!(map.len(), 2);
}

#[test]
fn an_entry_that_is_dropped_changes_nothing() {
    let mut map: HashMap<u8, u32> = HashMap::new();
    map.insert(1, 5);
    assert!(matches!(entry_of(&mut map, 1), Entry::Occupied(_)));
    assert!(matches!(entry_of(&mut map, 2), Entry::Vacant(_)));
    assert_eq!(map.len(), 1);
    assert_eq!(map[&1], 5);
}
