use collection_utils::small_set::SmallSet;

type TestSet = SmallSet<i32, 2>;

#[test]
fn test_insert_and_contains() {
    let mut set = TestSet::new();

    // Insert new value
    assert_eq!(set.insert(1), None);
    assert_eq!(set.len(), 1);
    assert!(set.contains(&1));

    // Insert existing value (should replace)
    assert_eq!(set.insert(1), Some(1));
    assert_eq!(set.len(), 1);
    assert!(set.contains(&1));

    // Insert another value
    assert_eq!(set.insert(2), None);
    assert_eq!(set.len(), 2);
    assert!(set.contains(&2));
}

#[test]
fn test_contains_nonexistent() {
    let set = TestSet::new();
    assert!(!set.contains(&1));
}

#[test]
fn small_set_test_get() {
    let mut set = TestSet::new();
    set.insert(1);
    set.insert(2);

    assert_eq!(set.get(&1), Some(&1));
    assert_eq!(set.get(&3), None);
}

#[test]
fn small_set_test_len() {
    let mut set = TestSet::new();
    assert_eq!(set.len(), 0);

    set.insert(1);
    assert_eq!(set.len(), 1);

    set.insert(2);
    assert_eq!(set.len(), 2);

    set.insert(1); // Replace, shouldn't increase len
    assert_eq!(set.len(), 2);

    set.remove(&1);
    assert_eq!(set.len(), 1);
}

#[test]
fn small_set_test_drain() {
    let mut set = TestSet::new();
    set.insert(1);
    set.insert(2);
    set.insert(3);

    let drained: Vec<_> = set.drain(1..3).into_iter().collect();
    assert_eq!(drained.len(), 2);
    assert_eq!(set.len(), 1);
}

#[test]
fn small_set_test_remove() {
    let mut set = TestSet::new();
    set.insert(1);
    set.insert(2);

    assert_eq!(set.remove(&1), Some(1));
    assert_eq!(set.len(), 1);
    assert!(!set.contains(&1));

    assert_eq!(set.remove(&3), None); // Non-existent value
}

#[test]
fn small_set_test_reserve() {
    let mut set = TestSet::new();
    let initial_capacity = set.capacity();
    set.reserve(100);
    assert!(set.capacity() >= initial_capacity + 100);
}

#[test]
fn small_set_test_try_reserve() {
    let mut set = TestSet::new();
    assert!(set.try_reserve(10).is_ok());
}

#[test]
fn small_set_test_reserve_exact() {
    let mut set = TestSet::new();
    set.insert(1);
    set.insert(2);
    let initial_capacity = set.capacity();
    set.reserve_exact(50);
    assert!(set.capacity() >= initial_capacity + 50);
}

#[test]
fn small_set_test_try_reserve_exact() {
    let mut set = TestSet::new();
    assert!(set.try_reserve_exact(10).is_ok());
}

#[test]
fn small_set_test_shrink_to_fit() {
    let mut set = TestSet::new();
    set.reserve(100);
    set.insert(1);

    let capacity_before = set.capacity();
    set.shrink_to_fit();
    let capacity_after = set.capacity();

    // Should not increase capacity
    assert!(capacity_after <= capacity_before);
}

#[test]
fn small_set_test_retain() {
    let mut set = TestSet::new();
    set.insert(1);
    set.insert(2);
    set.insert(3);
    set.insert(4);

    set.retain(|&x| x % 2 == 0); // Keep only even values

    assert_eq!(set.len(), 2);
    assert!(set.contains(&2));
    assert!(set.contains(&4));
    assert!(!set.contains(&1));
    assert!(!set.contains(&3));
}

#[test]
fn small_set_test_iter() {
    let mut set = TestSet::new();
    set.insert(1);
    set.insert(2);

    let items: Vec<_> = set.iter().copied().collect();
    assert_eq!(items.len(), 2);
    assert!(items.contains(&1));
    assert!(items.contains(&2));
}

#[test]
fn small_set_test_iter_mut() {
    let mut set = TestSet::new();
    set.insert(1);
    set.insert(2);

    for value in set.iter_mut() {
        *value *= 2;
    }

    assert!(set.contains(&2));
    assert!(set.contains(&4));
    assert!(!set.contains(&1));
}

#[test]
fn small_set_test_into_iterator() {
    let mut set = TestSet::new();
    set.insert(1);
    set.insert(2);

    let items: Vec<_> = set.into_vec().into_iter().collect();
    assert_eq!(items.len(), 2);
    assert!(items.contains(&1));
    assert!(items.contains(&2));
}

#[test]
fn small_set_test_into_iterator_ref() {
    let mut set = TestSet::new();
    set.insert(1);
    set.insert(2);

    let items: Vec<_> = set.iter().copied().collect();
    assert_eq!(items.len(), 2);
    assert!(items.contains(&1));
    assert!(items.contains(&2));
}

#[test]
fn small_set_test_into_iterator_mut() {
    let mut set = TestSet::new();
    set.insert(1);
    set.insert(2);

    for value in set.iter_mut() {
        *value += 10;
    }

    assert!(set.contains(&11));
    assert!(set.contains(&12));
    assert!(!set.contains(&1));
    assert!(!set.contains(&2));
}

#[test]
fn small_set_test_from_iterator() {
    let values = vec![1, 2, 3, 1, 2]; // Duplicates should be removed
    let set: TestSet = SmallSet::from_vec(values);

    assert_eq!(set.len(), 3);
    assert!(set.contains(&1));
    assert!(set.contains(&2));
    assert!(set.contains(&3));
}

#[test]
fn small_set_test_extend() {
    let mut set = TestSet::new();
    set.insert(1);

    let additional = vec![2, 3, 1]; // Duplicate 1 should not increase len
    set.extend(additional);

    assert_eq!(set.len(), 3);
    assert!(set.contains(&1));
    assert!(set.contains(&2));
    assert!(set.contains(&3));
}

#[test]
fn small_set_test_clone() {
    let mut set = TestSet::new();
    set.insert(1);
    set.insert(2);

    let cloned = set.clone();
    assert_eq!(set.len(), cloned.len());
    assert_eq!(set.contains(&1), cloned.contains(&1));
    assert_eq!(set.contains(&2), cloned.contains(&2));
}

#[test]
fn small_set_test_debug() {
    let mut set = TestSet::new();
    set.insert(1);

    let debug_str = format!("{:?}", set);
    assert!(debug_str.contains("SmallSet"));
}

#[test]
fn small_set_test_drain_range() {
    let mut set = TestSet::new();
    for i in 0..5 {
        set.insert(i);
    }

    let drained: Vec<_> = set.drain(1..4).into_iter().collect();
    assert_eq!(drained.len(), 3);
    assert_eq!(set.len(), 2);
}

#[test]
fn test_retain_with_different_predicates() {
    let mut set = TestSet::new();
    for i in 1..=10 {
        set.insert(i);
    }

    // Keep only values > 5
    set.retain(|&x| x > 5);

    assert_eq!(set.len(), 5);
    for i in 6..=10 {
        assert!(set.contains(&i));
    }
    for i in 1..=5 {
        assert!(!set.contains(&i));
    }
}

#[test]
fn small_set_test_iterator_methods() {
    let mut set = TestSet::new();
    set.insert(1);
    set.insert(2);
    set.insert(3);

    // Test iterator count
    assert_eq!(set.iter_mut().count(), 3);

    // Test iterator size_hint
    let iter = set.iter_mut();
    assert_eq!(iter.size_hint(), (3, Some(3)));

    // Test iterator last
    let iter = set.iter_mut();
    let last = iter.last();
    assert!(last.is_some());

    // Test iterator nth
    let mut iter = set.iter_mut();
    let second = iter.nth(1);
    assert!(second.is_some());
}

#[test]
fn small_set_test_iterator_for_each() {
    let mut set = TestSet::new();
    set.insert(1);
    set.insert(2);

    let mut count = 0;
    set.iter_mut().for_each(|_| count += 1);
    assert_eq!(count, 2);
}

#[test]
fn small_set_test_iterator_fold() {
    let mut set = TestSet::new();
    set.insert(1);
    set.insert(2);
    set.insert(3);

    let sum = set.iter_mut().fold(0, |acc, &mut x| acc + x);
    assert_eq!(sum, 6);
}

#[test]
fn small_set_test_iterator_all() {
    let mut set = TestSet::new();
    set.insert(1);
    set.insert(2);

    assert!(set.iter_mut().all(|&mut x| x > 0));
    assert!(!set.iter_mut().all(|&mut x| x > 1));
}

#[test]
fn small_set_test_iterator_any() {
    let mut set = TestSet::new();
    set.insert(1);
    set.insert(2);

    assert!(set.iter_mut().any(|&mut x| x == 1));
    assert!(!set.iter_mut().any(|&mut x| x == 3));
}

#[test]
fn small_set_test_iterator_find_map() {
    let mut set = TestSet::new();
    set.insert(1);
    set.insert(2);

    let found = set.iter_mut().find_map(|&mut x| {
        if x == 2 {
            Some(x * 2)
        } else {
            None
        }
    });

    assert_eq!(found, Some(4));
}

#[test]
fn small_set_test_iterator_position() {
    let mut set = TestSet::new();
    set.insert(1);
    set.insert(2);
    set.insert(3);

    let pos = set.iter_mut().position(|&mut x| x == 2);
    assert_eq!(pos, Some(1)); // Second element (0-indexed)
}

#[test]
fn small_set_test_double_ended_iterator() {
    let mut set = TestSet::new();
    set.insert(1);
    set.insert(2);
    set.insert(3);

    let mut iter = set.iter_mut();
    let first = iter.next();
    let last = iter.next_back();

    assert!(first.is_some());
    assert!(last.is_some());
    assert_ne!(*first.unwrap(), *last.unwrap());
}

#[test]
fn small_set_test_exact_size_iterator() {
    let mut set = TestSet::new();
    set.insert(1);
    set.insert(2);

    let iter = set.iter_mut();
    assert_eq!(iter.len(), 2);
}

#[test]
fn test_empty_set_operations() {
    let mut set = TestSet::new();

    assert!(!set.contains(&1));
    assert_eq!(set.get(&1), None);
    assert_eq!(set.remove(&1), None);
    assert_eq!(set.iter().count(), 0);

    let drained: Vec<_> = set.drain(0..0).into_iter().collect();
    assert_eq!(drained.len(), 0);
}

#[test]
fn small_set_test_drain_partial_consumption() {
    let mut set = TestSet::new();
    for i in 0..5 {
        set.insert(i);
    }

    let mut drain = set.drain(1..4).into_iter();
    let first = drain.next();
    assert!(first.is_some());

    // Drop the iterator without consuming all
    drop(drain);

    // The range should still be removed
    assert_eq!(set.len(), 2);
}

#[test]
fn small_set_test_retain_all_true() {
    let mut set = TestSet::new();
    set.insert(1);
    set.insert(2);

    let len_before = set.len();
    set.retain(|_| true); // Keep all

    assert_eq!(set.len(), len_before);
}

#[test]
fn test_insert_replace_behavior() {
    let mut set = TestSet::new();

    // First insert
    assert_eq!(set.insert(1), None);
    assert_eq!(set.len(), 1);

    // Replace existing - should return old value
    assert_eq!(set.insert(1), Some(1));
    assert_eq!(set.len(), 1);

    // Verify the value is still there
    assert!(set.contains(&1));
}

#[test]
fn test_iter_mut_safety() {
    let mut set = TestSet::new();
    set.insert(1);
    set.insert(2);
    set.insert(3);

    // Modify through iter_mut
    for value in set.iter_mut() {
        *value *= 10;
    }

    // Verify modifications
    assert!(set.contains(&10));
    assert!(set.contains(&20));
    assert!(set.contains(&30));
    assert!(!set.contains(&1));
    assert!(!set.contains(&2));
    assert!(!set.contains(&3));
}

#[test]
fn test_iterator_chain_operations() {
    let mut set = TestSet::new();
    for i in 1..=5 {
        set.insert(i);
    }

    // Chain multiple iterator operations
    let result: Vec<_> = set
        .iter()
        .filter(|&&x| x % 2 == 0)
        .map(|&x| x * 2)
        .collect();

    assert_eq!(result, vec![4, 8]); // 2*2 and 4*2
}

#[test]
fn test_fused_iterator_property() {
    let mut set = TestSet::new();
    set.insert(1);

    let mut iter = set.iter_mut();
    assert!(iter.next().is_some()); // Should return Some(1)
    assert!(iter.next().is_none()); // Should return None
    assert!(iter.next().is_none()); // Should still return None (fused)
    assert!(iter.next().is_none()); // Should still return None (fused)
}

#[test]
fn small_set_test_new() {
    let set: TestSet = SmallSet::new();
    assert_eq!(set.len(), 0);
    assert!(set.is_empty());
}

#[test]
fn small_set_test_default() {
    let set: TestSet = SmallSet::default();
    assert_eq!(set.len(), 0);
    assert!(set.is_empty());
}

#[test]
fn small_set_test_with_capacity() {
    let set: TestSet = SmallSet::with_capacity(10);
    assert_eq!(set.len(), 0);
    assert!(set.capacity() >= 10);
}

#[test]
fn test_get_or_insert() {
    let mut set = TestSet::new();

    // Insert new value
    let value_ref = set.get_or_insert(1);
    assert_eq!(*value_ref, 1);
    assert_eq!(set.len(), 1);

    // Get existing value
    let value_ref2 = set.get_or_insert(1);
    assert_eq!(*value_ref2, 1);
    assert_eq!(set.len(), 1);
}

#[test]
fn small_set_test_is_empty() {
    let mut set = TestSet::new();
    assert!(set.is_empty());

    set.insert(1);
    assert!(!set.is_empty());

    set.remove(&1);
    assert!(set.is_empty());
}

#[test]
fn small_set_test_capacity() {
    let set: TestSet = SmallSet::with_capacity(10);
    assert!(set.capacity() >= 10);

    let small_set: TestSet = SmallSet::new();
    // Should have inline capacity
    assert!(small_set.capacity() >= 2);
}

#[test]
fn small_set_test_spilled() {
    let mut set: TestSet = SmallSet::new();
    assert!(!set.spilled()); // Should be inline initially

    // Fill beyond inline capacity to potentially force spill
    for i in 0..10 {
        set.insert(i);
    }
    // Depending on implementation, this might spill
}

#[test]
fn small_set_test_clear() {
    let mut set = TestSet::new();
    set.insert(1);
    set.insert(2);

    assert_eq!(set.len(), 2);
    set.clear();
    assert_eq!(set.len(), 0);
    assert!(set.is_empty());
}

#[test]
fn small_set_test_as_slice() {
    let mut set = TestSet::new();
    set.insert(1);
    set.insert(2);

    let slice = set.as_slice();
    assert_eq!(slice.len(), 2);
    assert!(slice.contains(&1));
    assert!(slice.contains(&2));
}

#[test]
fn small_set_test_as_mut_slice() {
    let mut set = TestSet::new();
    set.insert(1);

    let slice = set.as_mut_slice();
    slice[0] = 10;

    assert!(set.contains(&10));
    assert!(!set.contains(&1));
}

#[test]
fn small_set_test_into_vec() {
    let mut set = TestSet::new();
    set.insert(1);
    set.insert(2);

    let vec = set.into_vec();
    assert_eq!(vec.len(), 2);
    assert!(vec.contains(&1));
    assert!(vec.contains(&2));
}

#[test]
fn small_set_test_large_capacity() {
    let mut set: SmallSet<i32, 1> = SmallSet::with_capacity(1000);
    for i in 0..100 {
        set.insert(i);
    }

    assert_eq!(set.len(), 100);
    assert!(set.spilled()); // Should definitely spill with small inline capacity
}

#[test]
fn small_set_test_drain_all() {
    let mut set = TestSet::new();
    set.insert(1);
    set.insert(2);

    let all = set.len();
    let drained: Vec<_> = set.drain(0..all).into_iter().collect();
    assert_eq!(drained.len(), 2);
    assert_eq!(set.len(), 0);
    assert!(set.is_empty());
}

#[test]
fn small_set_test_single_element_operations() {
    let mut set = TestSet::new();
    set.insert(42);

    assert_eq!(set.len(), 1);
    assert!(!set.is_empty());
    assert!(set.contains(&42));
    assert_eq!(set.get(&42), Some(&42));

    let items: Vec<_> = set.iter().copied().collect();
    assert_eq!(items, vec![42]);
}

#[test]
fn small_set_test_capacity_operations() {
    let mut set: SmallSet<i32, 2> = SmallSet::new();
    let initial_capacity = set.capacity();

    // Fill beyond inline capacity
    for i in 0..10 {
        set.insert(i);
    }

    assert!(set.capacity() >= initial_capacity);
    assert_eq!(set.len(), 10);

    // Test reserve operations don't decrease capacity unnecessarily
    let before_reserve = set.capacity();
    set.reserve(5);
    assert!(set.capacity() >= before_reserve);
}

#[test]
fn small_set_test_retain_all_false() {
    let mut set = TestSet::new();
    set.insert(1);
    set.insert(2);

    set.retain(|_| false); // Remove all

    assert_eq!(set.len(), 0);
    assert!(set.is_empty());
}

#[test]
fn small_set_test_memory_efficiency() {
    // Test that small sets don't allocate when under inline capacity
    let mut set: SmallSet<i32, 10> = SmallSet::new();

    // Add elements within inline capacity
    for i in 0..5 {
        set.insert(i);
    }

    // Should not have spilled to heap yet
    assert!(!set.spilled());

    // Verify all elements are accessible
    for i in 0..5 {
        assert!(set.contains(&i));
    }
}

#[test]
fn test_get_or_insert_ordering() {
    let mut set = TestSet::new();

    // Insert in specific order
    let first = *set.get_or_insert(3);
    let second = *set.get_or_insert(1);
    let third = *set.get_or_insert(2);

    assert_eq!(first, 3);
    assert_eq!(second, 1);
    assert_eq!(third, 2);

    // Verify order is maintained in iteration
    let values: Vec<_> = set.iter().copied().collect();
    assert_eq!(values, vec![3, 1, 2]);
}

#[test]
fn test_as_slice_ordering() {
    let mut set = TestSet::new();
    set.insert(3);
    set.insert(1);
    set.insert(2);

    let slice = set.as_slice();
    assert_eq!(slice, &[3, 1, 2]); // Should maintain insertion order
}

#[test]
fn test_remove_maintains_order() {
    let mut set = TestSet::new();
    for i in 0..5 {
        set.insert(i);
    }

    // Remove middle element
    set.remove(&2);

    let slice = set.as_slice();
    // Note: remove uses swap_remove, so order might not be preserved
    assert_eq!(slice.len(), 4);
    assert!(!slice.contains(&2));
}
