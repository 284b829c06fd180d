use collection_utils::indexed_map::IndexedMap;

#[test]
fn indexed_map_test_insert_new_key_value_pair() {
    let mut map = IndexedMap::new();
    map.push("key1", "value1");
    assert_eq!(map.get_value(&"key1"), Some(&"value1"));
}

#[test]
fn indexed_map_test_insert_existing_key_value_pair() {
    let mut map = IndexedMap::new();
    map.push("key1", "value1");
    map.push("key1", "value2");
    assert_eq!(map.get_value(&"key1"), Some(&"value2"));
}

#[test]
fn indexed_map_test_get_existing_key() {
    let mut map = IndexedMap::new();
    map.push("key1", "value1");
    assert_eq!(map.get_value(&"key1"), Some(&"value1"));
}

#[test]
fn indexed_map_test_get_non_existing_key() {
    let map = IndexedMap::<&str, i32>::new();
    assert_eq!(map.get_value(&"key1"), None);
}

#[test]
fn indexed_map_test_remove_existing_key() {
    let mut map = IndexedMap::new();
    map.push("key1", "value1");
    assert_eq!(map.remove(&"key1"), Some("value1"));
    assert_eq!(map.get_value(&"key1"), None);
}

#[test]
fn indexed_map_test_remove_non_existing_key() {
    let mut map = IndexedMap::<&str, i32>::new();
    assert_eq!(map.remove(&"key1"), None);
}

#[test]
fn indexed_map_test_insert_large_number_of_key_value_pairs() {
    let mut map = IndexedMap::new();
    for i in 0..100000 {
        map.push(i, i);
    }
    assert_eq!(map.len(), 100000);
}

#[test]
fn indexed_map_test_remove_from_non_empty_map() {
    let mut map = IndexedMap::new();
    map.push("key1", "value1");
    map.push("key2", "value2");
    map.push("key3", "value3");
    assert_eq!(map.remove(&"key2"), Some("value2"));
    assert_eq!(map.len(), 2);
}

#[test]
fn indexed_map_test_get_value_by_out_of_bounds_index() {
    let map = IndexedMap::<i32, i32>::new();
    assert_eq!(map.value_at(0), None);
}

#[test]
fn indexed_map_test_iterate_over_map() {
    let mut map = IndexedMap::new();
    map.push("key1", "value1");
    map.push("key2", "value2");
    map.push("key3", "value3");

    let mut expect = vec![
        (&"key1", &"value1"),
        (&"key2", &"value2"),
        (&"key3", &"value3"),
    ];

    let mut iter = map.iter().enumerate();
    let next = iter.next().unwrap();

    let next_index = expect
        .iter()
        .enumerate()
        .find(|(_, (key, value))| **key == next.1.0 && **value == next.1.1)
        .unwrap()
        .0;

    expect.remove(next_index);

    let next = iter.next().unwrap();

    let next_index = expect
        .iter()
        .enumerate()
        .find(|(_, (key, value))| **key == next.1.0 && **value == next.1.1)
        .unwrap()
        .0;

    expect.remove(next_index);

    let next = iter.next().unwrap();
    let next_index = expect
        .iter()
        .enumerate()
        .find(|(_, (key, value))| **key == next.1.0 && **value == next.1.1)
        .unwrap()
        .0;
    expect.remove(next_index);

    assert_eq!(expect.len(), 0);
    assert_eq!(iter.next(), None);
}

#[test]
fn indexed_map_test_from_iter() {
    let iter: Vec<(i32, &str)> = vec![(1, "one"), (2, "two"), (3, "three")];
    let map: IndexedMap<i32, &str> = IndexedMap::from_vec(iter);
    assert_eq!(map.len(), 3);
}

#[test]
fn indexed_map_push_moves_existing_key_to_end() {
    let mut map = IndexedMap::new();
    map.push(1, "a");
    map.push(2, "b");
    assert_eq!(map.push(1, "c"), Some("a"));
    assert_eq!(map.keys(), vec![&2, &1]);
    assert_eq!(map.values(), vec![&"b", &"c"]);
}

#[test]
fn indexed_map_insert_at_position() {
    let mut map = IndexedMap::new();
    map.push(1, 10);
    map.push(2, 20);
    assert_eq!(map.insert(3, 30, 1), None);
    assert_eq!(map.keys(), vec![&1, &3, &2]);
    assert_eq!(map.insert(1, 11, 3), Some(10));
    assert_eq!(map.keys(), vec![&3, &2, &1]);
    assert_eq!(map.key_index(&2), Some(1));
}

#[test]
fn indexed_map_sorts() {
    let mut map = IndexedMap::new();
    map.push(3, 1);
    map.push(1, 3);
    map.push(2, 2);
    map.sort();
    assert_eq!(map.keys(), vec![&1, &2, &3]);
    map.sort_by_value();
    assert_eq!(map.values(), vec![&1, &2, &3]);
    map.sort_by(|a, b| b.cmp(a));
    assert_eq!(map.len(), 3);
}

#[test]
fn indexed_map_retain_and_drain() {
    let mut map = IndexedMap::new();
    for i in 0..6 {
        map.push(i, i * 10);
    }
    map.retain(|k, _| k % 2 == 0);
    assert_eq!(map.keys(), vec![&0, &2, &4]);
    let taken = map.drain(1, 3);
    assert_eq!(taken, vec![(2, 20), (4, 40)]);
    assert_eq!(map.len(), 1);
}

#[test]
fn indexed_map_positional_access() {
    let mut map = IndexedMap::new();
    map.push("a", 1);
    map.push("b", 2);
    assert_eq!(map.get(1), Some((&"b", &2)));
    assert_eq!(map.key_at(0), Some(&"a"));
    if let Some(v) = map.value_at_mut(0) {
        *v = 5;
    }
    if let Some((_, v)) = map.get_mut(1) {
        *v = 6;
    }
    if let Some(v) = map.get_value_mut(&"a") {
        *v += 1;
    }
    assert_eq!(map.values(), vec![&6, &6]);
    map.swap(0, 1);
    assert_eq!(map.remove_at(0), Some(("b", 6)));
    assert_eq!(map.remove_at(5), None);
    assert!(map.contains_key(&"a"));
    assert_eq!(map.swap_remove(0), ("a", 6));
    assert_eq!(map.pop(), None);
}

#[test]
fn indexed_map_append_dedups() {
    let mut a = IndexedMap::new();
    a.push(1, 1);
    a.push(2, 2);
    let mut b = IndexedMap::new();
    b.push(1, 10);
    b.push(3, 30);
    a.append(&mut b);
    assert_eq!(b.len(), 0);
    assert_eq!(a.keys(), vec![&2, &1, &3]);
    assert_eq!(a.get_value(&1), Some(&10));
}

#[test]
#[should_panic]
fn indexed_map_test_index_non_existing_key() {
    let map = IndexedMap::<&str, i32>::new();
    let _ = map[&"key1"];
}

#[test]
fn indexed_map_indexing() {
    let mut map = IndexedMap::new();
    map.push("a", 1);
    map.push("b", 2);
    assert_eq!(map[&"b"], 2);
    assert_eq!(map[0], 1);
}
