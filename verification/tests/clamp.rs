use root_attribute::clamp::{apply_clamp, bound_clamp, clamp_partial, Clamp};
use root_attribute::condition::Bound;

#[test]
fn clamp_partial_raises_then_lowers() {
    assert_eq!(clamp_partial(5u32, 10, 20), 10);
    assert_eq!(clamp_partial(25u32, 10, 20), 20);
    assert_eq!(clamp_partial(15u32, 10, 20), 15);
    // With crossed limits the maximum wins.
    assert_eq!(clamp_partial(15i32, 20, 10), 10);
}

#[test]
fn apply_clamp_reports_only_changes() {
    let clamp = Clamp { min_limit: 0i32, max_limit: 100 };
    assert_eq!(apply_clamp(150, &clamp), Some(100));
    assert_eq!(apply_clamp(-3, &clamp), Some(0));
    assert_eq!(apply_clamp(42, &clamp), None);
    // Applying it again changes nothing.
    assert_eq!(apply_clamp(100, &clamp), None);
    let zero: Clamp<u8> = Clamp::new();
    assert_eq!((zero.min_limit, zero.max_limit), (0, 0));
}

#[test]
fn bound_clamp_included_and_unbounded() {
    let b = (Bound::Included(1u32), Bound::Included(10u32));
    assert_eq!(bound_clamp(0, &b), 1);
    assert_eq!(bound_clamp(11, &b), 10);
    assert_eq!(bound_clamp(5, &b), 5);
    assert_eq!(bound_clamp(1000, &(Bound::Unbounded, Bound::Unbounded)), 1000);
}

#[test]
fn bound_clamp_excluded_moves_by_type_minimum() {
    // For unsigned types the minimum is zero: the excluded bound itself is returned.
    assert_eq!(bound_clamp(3u32, &(Bound::Excluded(5u32), Bound::Unbounded)), 5);
    assert_eq!(bound_clamp(9u32, &(Bound::Unbounded, Bound::Excluded(5u32))), 5);
    // For signed types the bound moves by `MIN`.
    assert_eq!(bound_clamp(3i32, &(Bound::Excluded(5i32), Bound::Unbounded)), 5 + i32::MIN);
    assert_eq!(bound_clamp(-3i32, &(Bound::Unbounded, Bound::Excluded(-5i32))), -5 - i32::MIN);
    assert_eq!(bound_clamp(-9i32, &(Bound::Unbounded, Bound::Excluded(-5i32))), -9);
    assert_eq!(bound_clamp(7i32, &(Bound::Excluded(5i32), Bound::Excluded(9i32))), 7);
}

#[test]
fn bound_clamp_is_idempotent_and_monotone() {
    let range = (Bound::Included(-5i32), Bound::Included(5i32));
    let values = [-100i32, -6, -5, 0, 5, 6, 100];
    for w in values.windows(2) {
        let (a, b) = (bound_clamp(w[0], &range), bound_clamp(w[1], &range));
        assert!(a <= b);
        assert_eq!(bound_clamp(a, &range), a);
    }
    assert_eq!(bound_clamp(-100, &range), -5);
    assert_eq!(bound_clamp(100, &range), 5);
    assert_eq!(bound_clamp(3, &range), 3);
}
