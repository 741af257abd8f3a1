use coins::plus_one;

#[test]
fn absence_propagates() {
    assert_eq!(plus_one(None), None);
}

#[test]
fn present_value_is_incremented() {
    assert_eq!(plus_one(Some(5)), Some(6));
}

#[test]
fn zero_becomes_one() {
    assert_eq!(plus_one(Some(0)), Some(1));
}

#[test]
fn negative_value_is_incremented() {
    assert_eq!(plus_one(Some(-1)), Some(0));
    assert_eq!(plus_one(Some(i32::MIN)), Some(i32::MIN + 1));
}

#[test]
fn largest_allowed_value_reaches_the_maximum() {
    assert_eq!(plus_one(Some(i32::MAX - 1)), Some(i32::MAX));
}
