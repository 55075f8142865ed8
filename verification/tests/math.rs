use root_attribute::math::AbsDiff;

#[test]
fn abs_diff_of_integers() {
    assert_eq!(AbsDiff::abs_diff(3u32, 10u32), 7);
    assert_eq!(AbsDiff::abs_diff(10u8, 3u8), 7);
    assert_eq!(AbsDiff::abs_diff(-3i32, 10i32), 13);
    assert_eq!(AbsDiff::abs_diff(i64::MAX, 0i64), i64::MAX);
    assert_eq!(AbsDiff::abs_diff(0usize, usize::MAX), usize::MAX);
}

#[test]
fn are_different_needs_one_unit() {
    assert!(!AbsDiff::are_different(5u16, 5u16));
    assert!(AbsDiff::are_different(5u16, 6u16));
    assert!(!AbsDiff::are_different(-7i8, -7i8));
    assert!(AbsDiff::are_different(-7i8, 7i8));
    assert!(AbsDiff::are_different(0u128, 1u128));
}
