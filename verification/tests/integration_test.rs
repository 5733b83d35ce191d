#[test]
fn test_add() {
    assert_eq!(gen_axum::add(3, 2), 5);
}

#[test]
fn pass() {
    assert_eq!(1 + 1, 2);
}

#[test]
fn add_negative_numbers() {
    assert_eq!(gen_axum::add(-7, 4), -3);
    assert_eq!(gen_axum::add(i32::MAX, 0), i32::MAX);
}
