use collection_utils::indexed_set::IndexedSet;

#[test]
fn test_insert_new_element_into_empty_set() {
    let mut set = IndexedSet::new();
    assert_eq!(set.push(1), false);
    assert_eq!(set.len(), 1);
}

#[test]
fn test_insert_existing_element_into_set() {
    let mut set = IndexedSet::new();
    set.push(1);
    assert_eq!(set.push(1), true);
    assert_eq!(set.len(), 1);
}

#[test]
fn test_remove_existing_element_from_set() {
    let mut set = IndexedSet::new();
    set.push(1);
    assert_eq!(set.remove(&1), Some(0));
    assert_eq!(set.len(), 0);
}

#[test]
fn test_remove_non_existing_element_from_set() {
    let mut set = IndexedSet::new();
    assert_eq!(set.remove(&1), None);
    assert_eq!(set.len(), 0);
}

#[test]
fn test_iterate_over_set_using_iter() {
    let mut set = IndexedSet::new();
    set.push(1);
    set.push(2);
    set.push(3);
    let mut iter = set.iter();
    assert_eq!(iter.next(), Some(&1));
    assert_eq!(iter.next(), Some(&2));
    assert_eq!(iter.next(), Some(&3));
    assert_eq!(iter.next(), None);
}

#[test]
fn indexed_set_test_from_iter() {
    let iter: Vec<&str> = vec!["one", "two", "three"];
    let set: IndexedSet<&str> = IndexedSet::from_vec(iter);
    assert_eq!(set.len(), 3);
}

#[test]
fn indexed_set_insert_and_update() {
    let mut set = IndexedSet::new();
    set.push(1);
    set.push(2);
    set.push(3);
    assert_eq!(set.insert(4, 1), false);
    assert_eq!(*set, vec![1, 4, 2, 3]);
    assert_eq!(set.insert(3, 1), true);
    assert_eq!(*set, vec![3, 1, 4, 2]);
    set.update_at(2, |x| x * 10);
    assert_eq!(*set, vec![3, 1, 40, 2]);
    assert_eq!(set.index_of(&40), Some(2));
}

#[test]
fn indexed_set_sort_and_retain() {
    let mut set = IndexedSet::new();
    for v in [5, 3, 9, 1] {
        set.push(v);
    }
    set.sort();
    assert_eq!(*set, vec![1, 3, 5, 9]);
    set.retain(|x| *x > 2);
    assert_eq!(*set, vec![3, 5, 9]);
    set.sort_by(|a, b| b.cmp(a));
    assert_eq!(set.len(), 3);
    assert_eq!(set.drain(0, 1), vec![9]);
    assert_eq!(set.swap_remove(0), 5);
    assert_eq!(set.pop(), Some(3));
}

#[test]
fn indexed_set_indexing() {
    let mut set = IndexedSet::new();
    set.push(7);
    set.push(9);
    assert_eq!(set[1], 9);
}
