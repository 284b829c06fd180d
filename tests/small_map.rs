use collection_utils::small_map::SmallMap;

type TestMap = SmallMap<i32, String, 2>;

#[test]
fn test_insert_and_get() {
    let mut map = TestMap::new();

    // Insert new key
    assert_eq!(map.insert(1, "one".to_string()), None);
    assert_eq!(map.len(), 1);
    assert_eq!(map.get(&1), Some(&"one".to_string()));

    // Insert existing key (should replace)
    assert_eq!(map.insert(1, "ONE".to_string()), Some("one".to_string()));
    assert_eq!(map.len(), 1);
    assert_eq!(map.get(&1), Some(&"ONE".to_string()));

    // Insert another key
    assert_eq!(map.insert(2, "two".to_string()), None);
    assert_eq!(map.len(), 2);
    assert_eq!(map.get(&2), Some(&"two".to_string()));
}

#[test]
fn test_get_nonexistent() {
    let map = TestMap::new();
    assert_eq!(map.get(&1), None);
}

#[test]
fn test_contains_key() {
    let mut map = TestMap::new();
    map.insert(1, "one".to_string());

    assert!(map.contains_key(&1));
    assert!(!map.contains_key(&2));
}

#[test]
fn small_map_test_get_mut() {
    let mut map = TestMap::new();
    map.insert(1, "one".to_string());

    if let Some(value) = map.get_mut(&1) {
        *value = "ONE".to_string();
    }

    assert_eq!(map.get(&1), Some(&"ONE".to_string()));
    assert_eq!(map.get_mut(&2), None);
}

#[test]
fn small_map_test_len() {
    let mut map = TestMap::new();
    assert_eq!(map.len(), 0);

    map.insert(1, "one".to_string());
    assert_eq!(map.len(), 1);

    map.insert(2, "two".to_string());
    assert_eq!(map.len(), 2);

    map.insert(1, "ONE".to_string()); // Replace, shouldn't increase len
    assert_eq!(map.len(), 2);

    map.remove(&1);
    assert_eq!(map.len(), 1);
}

#[test]
fn test_keys() {
    let mut map = TestMap::new();
    map.insert(1, "one".to_string());
    map.insert(2, "two".to_string());
    map.insert(3, "three".to_string());

    let keys: Vec<_> = map.keys().into_iter().copied().collect();
    assert_eq!(keys.len(), 3);
    assert!(keys.contains(&1));
    assert!(keys.contains(&2));
    assert!(keys.contains(&3));
}

#[test]
fn test_values() {
    let mut map = TestMap::new();
    map.insert(1, "one".to_string());
    map.insert(2, "two".to_string());

    let values: Vec<_> = map.values().into_iter().cloned().collect();
    assert_eq!(values.len(), 2);
    assert!(values.contains(&"one".to_string()));
    assert!(values.contains(&"two".to_string()));
}

#[test]
fn small_map_test_drain() {
    let mut map = TestMap::new();
    map.insert(1, "one".to_string());
    map.insert(2, "two".to_string());
    map.insert(3, "three".to_string());

    let drained: Vec<_> = map.drain(1..3).into_iter().collect();
    assert_eq!(drained.len(), 2);
    assert_eq!(map.len(), 1);
}

#[test]
fn small_map_test_remove() {
    let mut map = TestMap::new();
    map.insert(1, "one".to_string());
    map.insert(2, "two".to_string());

    assert_eq!(map.remove(&1), Some("one".to_string()));
    assert_eq!(map.len(), 1);
    assert!(!map.contains_key(&1));

    assert_eq!(map.remove(&3), None); // Non-existent key
}

#[test]
fn small_map_test_reserve() {
    let mut map = TestMap::new();
    let initial_capacity = map.capacity();
    map.reserve(100);
    assert!(map.capacity() >= initial_capacity + 100);
}

#[test]
fn small_map_test_try_reserve() {
    let mut map = TestMap::new();
    assert!(map.try_reserve(10).is_ok());
}

#[test]
fn small_map_test_reserve_exact() {
    let mut map = TestMap::new();
    map.insert(1, "one".to_string());
    map.insert(2, "two".to_string());
    let initial_capacity = map.capacity();
    map.reserve_exact(50);
    let curr_cap = map.capacity();
    let expect_cap = initial_capacity + 50;
    assert!(curr_cap >= expect_cap, "curr_cap: {curr_cap}, expect_cap: {expect_cap}");
}

#[test]
fn small_map_test_try_reserve_exact() {
    let mut map = TestMap::new();
    assert!(map.try_reserve_exact(10).is_ok());
}

#[test]
fn small_map_test_shrink_to_fit() {
    let mut map = TestMap::new();
    map.reserve(100);
    map.insert(1, "one".to_string());

    let capacity_before = map.capacity();
    map.shrink_to_fit();
    let capacity_after = map.capacity();

    // Should not increase capacity
    assert!(capacity_after <= capacity_before);
}

#[test]
fn small_map_test_retain() {
    let mut map = TestMap::new();
    map.insert(1, "one".to_string());
    map.insert(2, "two".to_string());
    map.insert(3, "three".to_string());

    map.retain(|&k, _| k % 2 == 1); // Keep only odd keys

    assert_eq!(map.len(), 2);
    assert!(map.contains_key(&1));
    assert!(map.contains_key(&3));
    assert!(!map.contains_key(&2));
}

#[test]
fn small_map_test_iter() {
    let mut map = TestMap::new();
    map.insert(1, "one".to_string());
    map.insert(2, "two".to_string());

    let items: Vec<_> = map.iter().collect();
    assert_eq!(items.len(), 2);
    assert!(items.contains(&&(1, "one".to_string())));
    assert!(items.contains(&&(2, "two".to_string())));
}

#[test]
fn small_map_test_iter_mut() {
    let mut map = TestMap::new();
    map.insert(1, "one".to_string());
    map.insert(2, "two".to_string());

    for (_, value) in map.iter_mut() {
        value.push_str("_modified");
    }

    assert_eq!(map.get(&1), Some(&"one_modified".to_string()));
    assert_eq!(map.get(&2), Some(&"two_modified".to_string()));
}

#[test]
fn small_map_test_into_iterator() {
    let mut map = TestMap::new();
    map.insert(1, "one".to_string());
    map.insert(2, "two".to_string());

    let items: Vec<_> = map.into_vec().into_iter().collect();
    assert_eq!(items.len(), 2);
    assert!(items.contains(&(1, "one".to_string())));
    assert!(items.contains(&(2, "two".to_string())));
}

#[test]
fn small_map_test_into_iterator_ref() {
    let mut map = TestMap::new();
    map.insert(1, "one".to_string());
    map.insert(2, "two".to_string());

    let items: Vec<_> = map.iter().collect();
    assert_eq!(items.len(), 2);
    assert!(items.contains(&&(1, "one".to_string())));
    assert!(items.contains(&&(2, "two".to_string())));
}

#[test]
fn small_map_test_into_iterator_mut() {
    let mut map = TestMap::new();
    map.insert(1, "one".to_string());
    map.insert(2, "two".to_string());

    for (_, value) in map.iter_mut() {
        value.push_str("_mut");
    }

    assert_eq!(map.get(&1), Some(&"one_mut".to_string()));
    assert_eq!(map.get(&2), Some(&"two_mut".to_string()));
}

#[test]
fn small_map_test_from_iterator() {
    let pairs = vec![
        (1, "one".to_string()),
        (2, "two".to_string()),
        (1, "ONE".to_string()),
    ];
    let map: TestMap = SmallMap::from_vec(pairs);

    assert_eq!(map.len(), 2);
    assert_eq!(map.get(&1), Some(&"ONE".to_string())); // Last value for duplicate key
    assert_eq!(map.get(&2), Some(&"two".to_string()));
}

#[test]
fn small_map_test_extend() {
    let mut map = TestMap::new();
    map.insert(1, "one".to_string());

    let additional = vec![(2, "two".to_string()), (3, "three".to_string())];
    map.extend(additional);

    assert_eq!(map.len(), 3);
    assert_eq!(map.get(&2), Some(&"two".to_string()));
    assert_eq!(map.get(&3), Some(&"three".to_string()));
}

#[test]
fn test_extend_with_duplicates() {
    let mut map = TestMap::new();
    map.insert(1, "one".to_string());

    let additional = vec![(1, "ONE".to_string()), (2, "two".to_string())];
    map.extend(additional);

    assert_eq!(map.len(), 2);
    assert_eq!(map.get(&1), Some(&"ONE".to_string())); // Should be replaced
}

#[test]
fn small_map_test_clone() {
    let mut map = TestMap::new();
    map.insert(1, "one".to_string());
    map.insert(2, "two".to_string());

    let cloned = map.clone();
    assert_eq!(map.len(), cloned.len());
    assert_eq!(map.get(&1), cloned.get(&1));
    assert_eq!(map.get(&2), cloned.get(&2));
}

#[test]
fn small_map_test_debug() {
    let mut map = TestMap::new();
    map.insert(1, "one".to_string());

    let debug_str = format!("{:?}", map);
    assert!(debug_str.contains("SmallMap"));
}

#[test]
fn small_map_test_drain_range() {
    let mut map = TestMap::new();
    for i in 0..5 {
        map.insert(i, format!("value_{}", i));
    }

    let drained: Vec<_> = map.drain(1..4).into_iter().collect();
    assert_eq!(drained.len(), 3);
    assert_eq!(map.len(), 2);
}

#[test]
fn small_map_test_iterator_methods() {
    let mut map = TestMap::new();
    map.insert(1, "one".to_string());
    map.insert(2, "two".to_string());
    map.insert(3, "three".to_string());

    // Test iterator count
    assert_eq!(map.iter_mut().count(), 3);

    // Test iterator size_hint
    let iter = map.iter_mut();
    assert_eq!(iter.size_hint(), (3, Some(3)));

    // Test iterator last
    let iter = map.iter_mut();
    let last = iter.last();
    assert!(last.is_some());

    // Test iterator nth
    let mut iter = map.iter_mut();
    let second = iter.nth(1);
    assert!(second.is_some());
}

#[test]
fn small_map_test_iterator_for_each() {
    let mut map = TestMap::new();
    map.insert(1, "one".to_string());
    map.insert(2, "two".to_string());

    let mut count = 0;
    map.iter_mut().for_each(|(..)| count += 1);
    assert_eq!(count, 2);
}

#[test]
fn small_map_test_iterator_fold() {
    let mut map = TestMap::new();
    map.insert(1, "1".to_string());
    map.insert(2, "2".to_string());

    let sum = map.iter_mut().fold(0, |acc, (k, _)| acc + *k);
    assert_eq!(sum, 3);
}

#[test]
fn small_map_test_iterator_all() {
    let mut map = TestMap::new();
    map.insert(1, "one".to_string());
    map.insert(2, "two".to_string());

    assert!(map.iter_mut().all(|(k, _)| *k > 0));
    assert!(!map.iter_mut().all(|(k, _)| *k > 1));
}

#[test]
fn small_map_test_iterator_any() {
    let mut map = TestMap::new();
    map.insert(1, "one".to_string());
    map.insert(2, "two".to_string());

    assert!(map.iter_mut().any(|(k, _)| *k == 1));
    assert!(!map.iter_mut().any(|(k, _)| *k == 3));
}

#[test]
fn small_map_test_iterator_find_map() {
    let mut map = TestMap::new();
    map.insert(1, "one".to_string());
    map.insert(2, "two".to_string());

    let found = map.iter_mut().find_map(|(k, v)| {
        if *k == 2 {
            Some(v.clone())
        } else {
            None
        }
    });

    assert_eq!(found, Some("two".to_string()));
}

#[test]
fn small_map_test_iterator_position() {
    let mut map = TestMap::new();
    map.insert(1, "one".to_string());
    map.insert(2, "two".to_string());
    map.insert(3, "three".to_string());

    let pos = map.iter_mut().position(|(k, _)| *k == 2);
    assert_eq!(pos, Some(1)); // Second element (0-indexed)
}

#[test]
fn small_map_test_double_ended_iterator() {
    let mut map = TestMap::new();
    map.insert(1, "one".to_string());
    map.insert(2, "two".to_string());
    map.insert(3, "three".to_string());

    let mut iter = map.iter_mut();
    let first = iter.next();
    let last = iter.next_back();

    assert!(first.is_some());
    assert!(last.is_some());
    assert_ne!(first.unwrap().0, last.unwrap().0);
}

#[test]
fn small_map_test_exact_size_iterator() {
    let mut map = TestMap::new();
    map.insert(1, "one".to_string());
    map.insert(2, "two".to_string());

    let iter = map.iter_mut();
    assert_eq!(iter.len(), 2);
}

#[test]
fn small_map_test_drain_partial_consumption() {
    let mut map = TestMap::new();
    for i in 0..5 {
        map.insert(i, format!("value_{}", i));
    }

    let mut drain = map.drain(1..4).into_iter();
    let first = drain.next();
    assert!(first.is_some());

    // Drop the iterator without consuming all
    drop(drain);

    // The range should still be removed
    assert_eq!(map.len(), 2);
}

#[test]
fn small_map_test_retain_all_true() {
    let mut map = TestMap::new();
    map.insert(1, "one".to_string());
    map.insert(2, "two".to_string());

    let len_before = map.len();
    map.retain(|_, _| true); // Keep all

    assert_eq!(map.len(), len_before);
}

#[test]
fn small_map_test_new() {
    let map: TestMap = SmallMap::new();
    assert_eq!(map.len(), 0);
    assert!(map.is_empty());
}

#[test]
fn small_map_test_default() {
    let map: TestMap = SmallMap::default();
    assert_eq!(map.len(), 0);
    assert!(map.is_empty());
}

#[test]
fn small_map_test_with_capacity() {
    let map: TestMap = SmallMap::with_capacity(10);
    assert_eq!(map.len(), 0);
    assert!(map.capacity() >= 10);
}

#[test]
fn test_get_key_value() {
    let mut map = TestMap::new();
    map.insert(1, "one".to_string());
    map.insert(2, "two".to_string());

    assert_eq!(map.get_key_value(&1), Some((&1, &"one".to_string())));
    assert_eq!(map.get_key_value(&3), None);
}

#[test]
fn small_map_test_is_empty() {
    let mut map = TestMap::new();
    assert!(map.is_empty());

    map.insert(1, "one".to_string());
    assert!(!map.is_empty());

    map.remove(&1);
    assert!(map.is_empty());
}

#[test]
fn small_map_test_capacity() {
    let map: TestMap = SmallMap::with_capacity(10);
    assert!(map.capacity() >= 10);

    let small_map: TestMap = SmallMap::new();
    // Should have inline capacity
    assert!(small_map.capacity() >= 2);
}

#[test]
fn small_map_test_spilled() {
    let mut map: TestMap = SmallMap::new();
    assert!(!map.spilled()); // Should be inline initially

    // Fill beyond inline capacity to force spill
    for i in 0..10 {
        map.insert(i, format!("value_{}", i));
    }
    // Depending on implementation, this might spill
}

#[test]
fn test_into_keys() {
    let mut map = TestMap::new();
    map.insert(1, "one".to_string());
    map.insert(2, "two".to_string());

    let keys: Vec<_> = map.into_keys().into_iter().collect();
    assert_eq!(keys.len(), 2);
    assert!(keys.contains(&1));
    assert!(keys.contains(&2));
}

#[test]
fn test_into_values() {
    let mut map = TestMap::new();
    map.insert(1, "one".to_string());
    map.insert(2, "two".to_string());

    let values: Vec<_> = map.into_values().into_iter().collect();
    assert_eq!(values.len(), 2);
    assert!(values.contains(&"one".to_string()));
    assert!(values.contains(&"two".to_string()));
}

#[test]
fn small_map_test_clear() {
    let mut map = TestMap::new();
    map.insert(1, "one".to_string());
    map.insert(2, "two".to_string());

    assert_eq!(map.len(), 2);
    map.clear();
    assert_eq!(map.len(), 0);
    assert!(map.is_empty());
}

#[test]
fn small_map_test_as_slice() {
    let mut map = TestMap::new();
    map.insert(1, "one".to_string());
    map.insert(2, "two".to_string());

    let slice = map.as_slice();
    assert_eq!(slice.len(), 2);
    assert!(slice.contains(&(1, "one".to_string())));
    assert!(slice.contains(&(2, "two".to_string())));
}

#[test]
fn small_map_test_as_mut_slice() {
    let mut map = TestMap::new();
    map.insert(1, "one".to_string());

    let slice = map.as_mut_slice();
    slice[0].1 = "ONE".to_string();

    assert_eq!(map.get(&1), Some(&"ONE".to_string()));
}

#[test]
fn small_map_test_into_vec() {
    let mut map = TestMap::new();
    map.insert(1, "one".to_string());
    map.insert(2, "two".to_string());

    let vec = map.into_vec();
    assert_eq!(vec.len(), 2);
    assert!(vec.contains(&(1, "one".to_string())));
    assert!(vec.contains(&(2, "two".to_string())));
}

#[test]
fn small_map_test_large_capacity() {
    let mut map: SmallMap<i32, String, 1> = SmallMap::with_capacity(1000);
    for i in 0..100 {
        map.insert(i, format!("value_{}", i));
    }

    assert_eq!(map.len(), 100);
    assert!(map.spilled()); // Should definitely spill with small inline capacity
}

#[test]
fn small_map_test_drain_all() {
    let mut map = TestMap::new();
    map.insert(1, "one".to_string());
    map.insert(2, "two".to_string());

    let all = map.len();
    let drained: Vec<_> = map.drain(0..all).into_iter().collect();
    assert_eq!(drained.len(), 2);
    assert_eq!(map.len(), 0);
    assert!(map.is_empty());
}

#[test]
fn test_empty_map_operations() {
    let mut map = TestMap::new();

    assert_eq!(map.get(&1), None);
    assert_eq!(map.get_mut(&1), None);
    assert_eq!(map.get_key_value(&1), None);
    assert!(!map.contains_key(&1));
    assert_eq!(map.remove(&1), None);
    assert_eq!(map.keys().into_iter().count(), 0);
    assert_eq!(map.values().into_iter().count(), 0);
    assert_eq!(map.iter().count(), 0);

    let all = map.len();
    let drained: Vec<_> = map.drain(0..all).into_iter().collect();
    assert_eq!(drained.len(), 0);
}

#[test]
fn small_map_test_single_element_operations() {
    let mut map = TestMap::new();
    map.insert(42, "answer".to_string());

    assert_eq!(map.len(), 1);
    assert!(!map.is_empty());
    assert_eq!(map.get(&42), Some(&"answer".to_string()));
    assert!(map.contains_key(&42));

    let keys: Vec<_> = map.keys().into_iter().copied().collect();
    assert_eq!(keys, vec![42]);

    let values: Vec<_> = map.values().into_iter().cloned().collect();
    assert_eq!(values, vec!["answer".to_string()]);
}

#[test]
fn small_map_test_capacity_operations() {
    let mut map: SmallMap<i32, String, 2> = SmallMap::new();
    let initial_capacity = map.capacity();

    // Fill beyond inline capacity
    for i in 0..10 {
        map.insert(i, format!("value_{}", i));
    }

    assert!(map.capacity() >= initial_capacity);
    assert_eq!(map.len(), 10);

    // Test reserve operations don't decrease capacity unnecessarily
    let before_reserve = map.capacity();
    map.reserve(5);
    assert!(map.capacity() >= before_reserve);
}

#[test]
fn small_map_test_retain_all_false() {
    let mut map = TestMap::new();
    map.insert(1, "one".to_string());
    map.insert(2, "two".to_string());

    map.retain(|_, _| false); // Remove all

    assert_eq!(map.len(), 0);
    assert!(map.is_empty());
}

#[test]
fn small_map_test_memory_efficiency() {
    // Test that small maps don't allocate when under inline capacity
    let mut map: SmallMap<i32, i32, 10> = SmallMap::new();

    // Add elements within inline capacity
    for i in 0..5 {
        map.insert(i, i * 2);
    }

    // Should not have spilled to heap yet
    assert!(!map.spilled());

    // Verify all elements are accessible
    for i in 0..5 {
        assert_eq!(map.get(&i), Some(&(i * 2)));
    }
}

#[test]
fn test_index() {
    let mut map = TestMap::new();
    map.insert(1, "one".to_string());

    assert_eq!(map[&1], "one".to_string());
}
