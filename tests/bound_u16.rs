use collection_utils::bounded_ints::bound_u16::B_u16;

#[test]
fn bound_u16_new() {
    let b_u16 = B_u16::<2, 10>::new(5);
    assert_eq!(b_u16, 5);

    let b_u16 = B_u16::<2, 10>::new(0);
    assert_eq!(b_u16, 2);

    let b_u16 = B_u16::<0, 10>::new(15);
    assert_eq!(b_u16, 10);
}

#[test]
fn bound_u16_function_returns_inner_value() {
    let b_u16 = B_u16::<0, 10>::new(5);
    assert_eq!(b_u16, 5);
}

#[test]
fn bound_u16_set_function_updates_inner_value() {
    let mut b_u16: B_u16<2, 10> = B_u16::new(5);
    assert_eq!(b_u16, 5);

    b_u16.set(7);
    assert_eq!(b_u16, 7);

    b_u16.set(12);
    assert_eq!(b_u16, 10);

    b_u16.set(1);
    assert_eq!(b_u16, 2);
}

#[test]
fn bound_u16_eq_ne() {
    let b1: B_u16<0, 10> = B_u16::new(5);
    let b2: B_u16<0, 10> = B_u16::new(5);
    let b3: B_u16<0, 10> = B_u16::new(10);

    assert_eq!(b1, b2);
    assert_ne!(b1, b3);
}

#[test]
fn b_u16_eq_u16() {
    let b_u16: B_u16<0, 10> = B_u16::new(5);
    let u16_value: u16 = 5;

    assert_eq!(b_u16, u16_value);
}

#[test]
fn u16_eq_b_u16() {
    let b_u16: B_u16<0, 10> = B_u16::new(5);
    let u16_value: u16 = 5;

    assert_eq!(b_u16, u16_value);
    assert_eq!(u16_value, b_u16);
}

#[test]
fn bound_u16_ord() {
    let b1: B_u16<0, 10> = B_u16::new(5);
    let b2: B_u16<0, 10> = B_u16::new(7);
    let b3: B_u16<0, 10> = B_u16::new(3);

    assert!(b1 < b2);
    assert!(b2 > b1);
    assert!(b1 <= b2);
    assert!(b2 >= b1);
    assert_ne!(b1, b2);
    assert_ne!(b1, b3);
}

#[test]
fn b_u16_ord_u16() {
    let b1: B_u16<0, 10> = B_u16::new(5);
    let b2: B_u16<0, 10> = B_u16::new(7);
    let b3: B_u16<0, 10> = B_u16::new(3);
    let i1: u16 = 6;
    let i2: u16 = 2;

    assert!(b1 < i1);
    assert!(b2 > i1);
    assert!(b3 > i2);
    assert!(i1 > b3);
}

#[test]
fn bound_u16_add() {
    let b1: B_u16<0, 10> = B_u16::new(5);
    let b2: B_u16<0, 10> = B_u16::new(3);
    let result = b1 + b2;
    assert_eq!(result, 8);
}

#[test]
fn b_u16_add_u16() {
    let b_u16: B_u16<0, 10> = B_u16::new(5);
    let u16_value: u16 = 3;
    let result = b_u16 + u16_value;
    assert_eq!(result, 8);
}

#[test]
fn u16_add_b_u16() {
    let b_u16: B_u16<0, 10> = B_u16::new(5);
    let u16_value: u16 = 3;
    let result: u16 = b_u16 + u16_value;
    assert_eq!(result, 8);
}

#[test]
fn bound_u16_sub() {
    let b1: B_u16<0, 10> = B_u16::new(5);
    let b2: B_u16<0, 10> = B_u16::new(3);
    let result = b1 - b2;
    assert_eq!(result, 2);
}

#[test]
fn u16_sub_b_u16() {
    // Create a B_u16 instance with inner value 5
    let b_u16: B_u16<0, 10> = B_u16::new(5);

    // Subtract the B_u16 instance from an u16 value
    let result = 10 - b_u16;

    // Check if the result is the difference of the inner values
    assert_eq!(result, 5);
}

#[test]
fn bound_u16_mult() {
    let b1: B_u16<0, 10> = B_u16::new(2);
    let b2: B_u16<0, 10> = B_u16::new(4);
    let result: B_u16<0, 10> = b1 * b2;
    assert_eq!(result, 8);
}

#[test]
fn bound_u16_max() {
    let b_u16: B_u16<0, 5> = B_u16::new(10);
    assert_eq!(b_u16, 5);
}

#[test]
fn bound_u16_set_max() {
    let mut b_u16: B_u16<0, 10> = B_u16::new(5);
    b_u16.set(15);
    assert_eq!(b_u16.get(), 10);
}

#[test]
fn bound_u16_new_min() {
    let b_u16 = B_u16::<2, 10>::new(0);
    assert_eq!(b_u16, 2);
}

#[test]
fn bound_u16_set_min() {
    let mut b_u16: B_u16<5, 10> = B_u16::new(6);
    b_u16.set(3);
    assert_eq!(b_u16, 5);
}
