use collection_utils::indexed_hash_map::IndexedHashMap;

#[test]
fn test_insert_new_key_value_pair() {
    let mut map = IndexedHashMap::new();
    map.insert("key1", "value1");
    assert_eq!(map.get(&"key1"), Some(&"value1"));
}

#[test]
fn test_insert_existing_key_value_pair() {
    let mut map = IndexedHashMap::new();
    map.insert("key1", "value1");
    map.insert("key1", "value2");
    assert_eq!(map.get(&"key1"), Some(&"value2"));
}

#[test]
fn test_get_existing_key() {
    let mut map = IndexedHashMap::new();
    map.insert("key1", "value1");
    assert_eq!(map.get(&"key1"), Some(&"value1"));
}

#[test]
fn test_get_non_existing_key() {
    let map = IndexedHashMap::<&str, i32>::new();
    assert_eq!(map.get(&"key1"), None);
}

#[test]
fn test_remove_existing_key() {
    let mut map = IndexedHashMap::new();
    map.insert("key1", "value1");
    assert_eq!(map.remove(&"key1"), Some("value1"));
    assert_eq!(map.get(&"key1"), None);
}

#[test]
fn test_remove_non_existing_key() {
    let mut map = IndexedHashMap::<&str, i32>::new();
    assert_eq!(map.remove(&"key1"), None);
}

#[test]
fn test_insert_large_number_of_key_value_pairs() {
    let mut map = IndexedHashMap::new();
    for i in 0..100000 {
        map.insert(i, i);
    }
    assert_eq!(map.len(), 100000);
}

#[test]
fn test_remove_from_non_empty_map() {
    let mut map = IndexedHashMap::new();
    map.insert("key1", "value1");
    map.insert("key2", "value2");
    map.insert("key3", "value3");
    assert_eq!(map.remove(&"key2"), Some("value2"));
    assert_eq!(map.len(), 2);
}

#[test]
fn test_get_value_by_out_of_bounds_index() {
    let map = IndexedHashMap::<i32, i32>::new();
    assert_eq!(map.try_index(0), None);
}

#[test]
fn test_iterate_over_map() {
    let mut map = IndexedHashMap::new();
    map.insert("key1", "value1");
    map.insert("key2", "value2");
    map.insert("key3", "value3");

    let mut expect = vec![
        (&"key1", &"value1"),
        (&"key2", &"value2"),
        (&"key3", &"value3"),
    ];

    let mut iter = map.iter().into_iter();
    let next: (usize, &&str, &&str) = iter.next().unwrap();
    let next_index = expect
        .iter()
        .enumerate()
        .find(|(_, (key, value))| *key == next.1 && *value == next.2)
        .unwrap()
        .0;
    expect.remove(next_index);

    let next: (usize, &&str, &&str) = iter.next().unwrap();
    let next_index = expect
        .iter()
        .enumerate()
        .find(|(_, (key, value))| *key == next.1 && *value == next.2)
        .unwrap()
        .0;
    expect.remove(next_index);

    let next: (usize, &&str, &&str) = iter.next().unwrap();
    let next_index = expect
        .iter()
        .enumerate()
        .find(|(_, (key, value))| *key == next.1 && *value == next.2)
        .unwrap()
        .0;
    expect.remove(next_index);

    assert_eq!(expect.len(), 0);
    assert_eq!(iter.next(), None);
}

#[test]
fn test_from_iter() {
    let iter: Vec<(i32, &str)> = vec![(1, "one"), (2, "two"), (3, "three")];
    let mut map: IndexedHashMap<i32, &str> = IndexedHashMap::new();
    let replaced = map.consume_from(iter);
    assert!(replaced.is_empty());
    assert_eq!(map.len(), 3);
}

#[test]
fn removing_a_middle_slot_moves_the_last_key_there() {
    let mut map = IndexedHashMap::new();
    map.insert('a', 1);
    map.insert('b', 2);
    map.insert('c', 3);
    assert_eq!(map.remove(&'a'), Some(1));
    assert_eq!(map.key_to_index(&'c'), Some(&0));
    assert_eq!(map.index_to_key(&0), Some(&'c'));
    assert_eq!(map.key_to_index(&'b'), Some(&1));
    assert_eq!(map.index_to_key(&1), Some(&'b'));
    assert_eq!(map.try_index(0), Some(&3));
    assert_eq!(map.try_index(1), Some(&2));
    assert!(!map.contains_index(&2));
}

#[test]
fn removing_the_last_slot_moves_nothing() {
    let mut map = IndexedHashMap::new();
    map.insert('a', 1);
    map.insert('b', 2);
    map.insert('c', 3);
    assert_eq!(map.remove(&'c'), Some(3));
    assert_eq!(map.key_to_index(&'a'), Some(&0));
    assert_eq!(map.key_to_index(&'b'), Some(&1));
    assert_eq!(map.values(), vec![&1, &2]);
}

#[test]
fn every_key_maps_back_after_mixed_operations() {
    let mut map = IndexedHashMap::new();
    for i in 0..20u32 {
        map.insert(i, i * 2);
    }
    for i in [3u32, 19, 0, 7, 12] {
        assert_eq!(map.remove(&i), Some(i * 2));
    }
    assert_eq!(map.len(), 15);
    for (slot, key, value) in map.iter() {
        assert_eq!(map.key_to_index(key), Some(&slot));
        assert_eq!(*value, key * 2);
        assert!(slot < map.len());
    }
}

#[test]
fn round_trip_leaves_the_map_empty() {
    let mut map = IndexedHashMap::new();
    for i in 0..10u8 {
        assert_eq!(map.insert(i, i), None);
    }
    for i in [4u8, 9, 0, 1, 8, 2, 7, 3, 6, 5] {
        map.remove(&i);
    }
    assert_eq!(map.len(), 0);
    assert!(map.is_empty());
}

#[test]
fn clear_twice_is_clear_once() {
    let mut map = IndexedHashMap::new();
    map.insert(1, "x");
    map.clear();
    assert!(map.is_empty());
    map.clear();
    assert!(map.is_empty());
    assert_eq!(map.keys().len(), 0);
}

#[test]
fn update_keeps_the_slot() {
    let mut map = IndexedHashMap::new();
    map.insert("a", 1);
    map.insert("b", 2);
    assert_eq!(map.insert("a", 5), Some(1));
    assert_eq!(map.key_to_index(&"a"), Some(&0));
    if let Some(v) = map.get_mut(&"b") {
        *v = 7;
    }
    if let Some(v) = map.try_index_mut(0) {
        *v += 1;
    }
    for v in map.values_mut() {
        *v *= 10;
    }
    assert_eq!(map.into_vec(), vec![("a", 60), ("b", 70)]);
}

#[test]
fn extend_from_slice_reports_replaced_values() {
    let mut map = IndexedHashMap::new();
    map.insert(1, 10);
    let replaced = map.extend_from_slice(&[(1, 11), (2, 20), (1, 12)]);
    assert_eq!(replaced, vec![10, 11]);
    assert_eq!(map.get(&1), Some(&12));
    assert!(map.contains_key(&2));
    assert_eq!(map.keys(), vec![&1, &2]);
}

#[test]
#[should_panic]
fn indexed_hash_map_test_index_non_existing_key() {
    let map = IndexedHashMap::<&str, i32>::new();
    let _ = map[&"key1"];
}

#[test]
fn indexing_by_key_and_by_slot() {
    let mut map = IndexedHashMap::new();
    map.insert("a", 1);
    map.insert("b", 2);
    assert_eq!(map[&"b"], 2);
    assert_eq!(map[0], 1);
}
