use collection_utils::bounded_ints::bound_u8::B_u8;

#[test]
fn bound_u8_new() {
    let b_u8 = B_u8::<2, 10>::new(5);
    assert_eq!(b_u8, 5);
    
    let b_u8 = B_u8::<2, 10>::new(0);
    assert_eq!(b_u8, 2);
    
    let b_u8 = B_u8::<0, 10>::new(15);
    assert_eq!(b_u8, 10);
}

#[test]
fn bound_u8_function_returns_inner_value() {
    let b_u8 = B_u8::<0, 10>::new(5);
    assert_eq!(b_u8, 5);
}

#[test]
fn bound_u8_set_function_updates_inner_value() {
    let mut b_u8: B_u8<2, 10> = B_u8::new(5);
    assert_eq!(b_u8, 5);

    b_u8.set(7);
    assert_eq!(b_u8, 7);

    b_u8.set(12);
    assert_eq!(b_u8, 10);

    b_u8.set(1);
    assert_eq!(b_u8, 2);
}

#[test]
fn bound_u8_eq_ne() {
    let b1: B_u8<0, 10> = B_u8::new(5);
    let b2: B_u8<0, 10> = B_u8::new(5);
    let b3: B_u8<0, 10> = B_u8::new(10);

    assert_eq!(b1, b2);
    assert_ne!(b1, b3);
}

#[test]
fn b_u8_eq_u8() {
    let b_u8: B_u8<0, 10> = B_u8::new(5);
    let u8_value: u8 = 5;

    assert_eq!(b_u8, u8_value);
}

#[test]
fn u8_eq_b_u8() {
    let b_u8: B_u8<0, 10> = B_u8::new(5);
    let u8_value: u8 = 5;

    assert_eq!(b_u8, u8_value);
    assert_eq!(u8_value, b_u8);
}

#[test]
fn bound_u8_ord() {
    let b1: B_u8<0, 10> = B_u8::new(5);
    let b2: B_u8<0, 10> = B_u8::new(7);
    let b3: B_u8<0, 10> = B_u8::new(3);

    assert!(b1 < b2);
    assert!(b2 > b1);
    assert!(b1 <= b2);
    assert!(b2 >= b1);
    assert_ne!(b1, b2);
    assert_ne!(b1, b3);
}

#[test]
fn b_u8_ord_u8() {
    let b1: B_u8<0, 10> = B_u8::new(5);
    let b2: B_u8<0, 10> = B_u8::new(7);
    let b3: B_u8<0, 10> = B_u8::new(3);
    let i1: u8 = 6;
    let i2: u8 = 2;

    assert!(b1 < i1);
    assert!(b2 > i1);
    assert!(b3 > i2);
    assert!(i1 > b3);
}

#[test]
fn bound_u8_add() {
    let b1: B_u8<0, 10> = B_u8::new(5);
    let b2: B_u8<0, 10> = B_u8::new(3);
    let result = b1 + b2;
    assert_eq!(result, 8);
}

#[test]
fn b_u8_add_u8() {
    let b_u8: B_u8<0, 10> = B_u8::new(5);
    let u8_value: u8 = 3;
    let result = b_u8 + u8_value;
    assert_eq!(result, 8);
}

#[test]
fn u8_add_b_u8() {
    let b_u8: B_u8<0, 10> = B_u8::new(5);
    let u8_value: u8 = 3;
    let result: u8 = b_u8 + u8_value;
    assert_eq!(result, 8);
}

#[test]
fn bound_u8_sub() {
    let b1: B_u8<0, 10> = B_u8::new(5);
    let b2: B_u8<0, 10> = B_u8::new(3);
    let result = b1 - b2;
    assert_eq!(result, 2);
}

#[test]
fn u8_sub_b_u8() {
    // Create a B_u8 instance with inner value 5
    let b_u8: B_u8<0, 10> = B_u8::new(5);

    // Subtract the B_u8 instance from an u8 value
    let result = 10 - b_u8;

    // Check if the result is the difference of the inner values
    assert_eq!(result, 5);
}

#[test]
fn bound_u8_mult() {
    let b1: B_u8<0, 10> = B_u8::new(2);
    let b2: B_u8<0, 10> = B_u8::new(4);
    let result: B_u8<0, 10> = b1 * b2;
    assert_eq!(result, 8);
}

#[test]
fn bound_u8_max() {
    let b_u8: B_u8<0, 5> = B_u8::new(10);
    assert_eq!(b_u8, 5);
}

#[test]
fn bound_u8_set_max() {
    let mut b_u8: B_u8<0, 10> = B_u8::new(5);
    b_u8.set(15);
    assert_eq!(b_u8.get(), 10);
}

#[test]
fn bound_u8_new_min() {
    let b_u8 = B_u8::<2, 10>::new(0);
    assert_eq!(b_u8, 2);
}

#[test]
fn bound_u8_set_min() {
    let mut b_u8: B_u8<5, 10> = B_u8::new(6);
    b_u8.set(3);
    assert_eq!(b_u8, 5);
}
