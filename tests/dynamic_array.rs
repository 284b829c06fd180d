use std::ops::Deref;

use collection_utils::dynamic_array::DynamicArray;

#[test]
fn test_create_dynamic_array_with_static_array() {
    let array: &[i32] = &[1, 2, 3, 4, 5];
    let dynamic_array = DynamicArray::Static(array);
    assert_eq!(dynamic_array.deref(), array);
}

#[test]
fn test_create_dynamic_array_with_empty_static_array() {
    let array: &[i32] = &[];
    let dynamic_array = DynamicArray::Static(array);
    assert_eq!(dynamic_array.deref(), array);
}

#[test]
fn test_dynamic_array_clone() {
    let array: &[i32] = &[1, 2, 3, 4, 5];
    let dynamic_array = DynamicArray::Static(array);
    let cloned_array = dynamic_array.clone();
    assert_eq!(dynamic_array.deref(), cloned_array.deref());
}

#[test]
fn test_dynamic_array_as_array_reference() {
    let array: &[i32] = &[1, 2, 3, 4, 5];
    let dynamic_array = DynamicArray::Static(array);
    assert_eq!(dynamic_array.deref(), array);
}

#[test]
fn test_create_dynamic_array_with_empty_static_array_and_dereference() {
    let array: &[i32] = &[];
    let dynamic_array = DynamicArray::Static(array);
    assert_eq!(dynamic_array.deref(), array);
}

#[test]
fn test_create_dynamic_array_with_static_array_and_dereference() {
    let array: &[i32] = &[1, 2, 3, 4, 5];
    let dynamic_array = DynamicArray::Static(array);
    assert_eq!(dynamic_array.deref(), array);
}

#[test]
fn convert_to_owned_copies_a_borrowed_array() {
    let items: &'static [i32] = &[4, 5, 6];
    let mut array = DynamicArray::Static(items);
    let owned = array.convert_to_owned();
    owned.push(7);
    assert_eq!(array.deref(), &[4, 5, 6, 7]);
    assert!(matches!(array, DynamicArray::Owned(_)));
}

#[test]
fn test_create_dynamic_array_with_vector() {
    let vec: Vec<i32> = vec![1, 2, 3, 4, 5];
    let dynamic_array = DynamicArray::Owned(vec.clone());
    assert_eq!(dynamic_array.deref(), vec.as_slice());
}

#[test]
fn test_create_dynamic_array_with_empty_vector() {
    let vec: Vec<i32> = vec![];
    let dynamic_array = DynamicArray::Owned(vec.clone());
    assert_eq!(dynamic_array.deref(), vec.as_slice());
}

#[test]
fn test_create_dynamic_array_with_empty_vector_and_dereference() {
    let vec: Vec<i32> = vec![];
    let dynamic_array = DynamicArray::Owned(vec.clone());
    assert_eq!(dynamic_array.deref(), vec.as_slice());
}

#[test]
fn test_create_dynamic_array_with_vector_and_dereference() {
    let vec: Vec<i32> = vec![1, 2, 3, 4, 5];
    let dynamic_array = DynamicArray::Owned(vec.clone());
    assert_eq!(dynamic_array.deref(), vec.as_slice());
}

#[test]
fn test_create_dynamic_array_with_different_types() {
    let array: &[i32] = &[1, 2, 3, 4, 5];
    let dynamic_array = DynamicArray::Static(array);
    assert_eq!(dynamic_array.deref(), array);

    let vec: Vec<i32> = vec![1, 2, 3, 4, 5];
    let dynamic_array = DynamicArray::Owned(vec.clone());
    assert_eq!(dynamic_array.deref(), vec.as_slice());

    let array: &[u8] = &[1, 2, 3, 4, 5];
    let dynamic_array = DynamicArray::Static(array);
    assert_eq!(dynamic_array.deref(), array);

    let vec: Vec<u8> = vec![1, 2, 3, 4, 5];
    let dynamic_array = DynamicArray::Owned(vec.clone());
    assert_eq!(dynamic_array.deref(), vec.as_slice());

    let array: &[char] = &['a', 'b', 'c'];
    let dynamic_array = DynamicArray::Static(array);
    assert_eq!(dynamic_array.deref(), array);

    let vec: Vec<char> = vec!['a', 'b', 'c'];
    let dynamic_array = DynamicArray::Owned(vec.clone());
    assert_eq!(dynamic_array.deref(), vec.as_slice());
}

#[test]
fn test_dynamic_array_creation_with_different_sizes() {
    let static_array: &[i32] = &[1, 2, 3];
    let dynamic_array_static = DynamicArray::Static(static_array);
    assert_eq!(dynamic_array_static.deref(), static_array);

    let vector: Vec<i32> = vec![4, 5, 6, 7];
    let dynamic_array_vector = DynamicArray::Owned(vector.clone());
    assert_eq!(dynamic_array_vector.deref(), vector.as_slice());
}

#[test]
fn test_create_dynamic_array_with_different_lengths() {
    let array: &[i32] = &[1, 2, 3, 4, 5];
    let dynamic_array = DynamicArray::Static(array);
    assert_eq!(dynamic_array.deref(), array);

    let vec: Vec<i32> = vec![1, 2, 3, 4, 5];
    let dynamic_array = DynamicArray::Owned(vec.clone());
    assert_eq!(dynamic_array.deref(), vec.as_slice());

    let empty_array: &[i32] = &[];
    let dynamic_array = DynamicArray::Static(empty_array);
    assert_eq!(dynamic_array.deref(), empty_array);

    let empty_vec: Vec<i32> = vec![];
    let dynamic_array = DynamicArray::Owned(empty_vec.clone());
    assert_eq!(dynamic_array.deref(), empty_vec.as_slice());
}
