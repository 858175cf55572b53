use starquad::interval::{new_int_interval, Interval};

fn intersect_both(
    interval_a: &Interval<u8>,
    interval_b: &Interval<u8>,
    expected: Option<Interval<u8>>,
) {
    let ab = interval_a.intersect(&interval_b);
    let ba = interval_b.intersect(&interval_a);
    assert_eq!(ab, expected);
    assert_eq!(ba, expected);
}

#[test]
fn new_simple() {
    let interval = Interval::<u8>::new(5, 42).expect("new interval");
    assert_eq!(interval.start(), &5);
    assert_eq!(interval.diameter(), &42);
}

#[test]
fn new_normalizes_diameter_int() {
    let interval = Interval::<i8>::new(7, -4).expect("new interval");
    assert_eq!(interval.start(), &3);
    assert_eq!(interval.diameter(), &4);
}

#[test]
fn new_fails_when_out_of_range_positive() {
    assert!(Interval::<i8>::new(127, 1).is_some()); // just in range
    assert!(Interval::<i8>::new(127, 2).is_none()); // just out of range
}

#[test]
fn new_fails_when_out_of_range_negative() {
    assert!(Interval::<i8>::new(-127, -1).is_some()); // just in range
    assert!(Interval::<i8>::new(-127, -2).is_none()); // just out of range
}

#[test]
fn intersect_int() {
    let a = Interval::new(4, 3).unwrap();
    let t1 = Interval::new(1, 2).unwrap();
    let t2 = Interval::new(1, 3).unwrap();
    let t3 = Interval::new(1, 5).unwrap();
    let t4 = Interval::new(1, 7).unwrap();

    intersect_both(&a, &t1, None);
    intersect_both(&a, &t2, None);
    intersect_both(&a, &t3, Interval::new(4, 2));
    intersect_both(&a, &t4, Interval::new(4, 3));
}

#[test]
fn contains_int() {
    let interval = Interval::<u8>::new(2, 2).unwrap();
    assert!(!interval.contains(&1));
    assert!(interval.contains(&2));
    assert!(interval.contains(&3));
    assert!(!interval.contains(&4));
}

#[test]
fn new_normalizes_small_negative() {
    let interval = Interval::new(3, -2).unwrap();
    assert_eq!(interval.start(), &1);
    assert_eq!(interval.diameter(), &2);
    assert!(interval.contains(&1));
    assert!(interval.contains(&2));
    assert!(!interval.contains(&3));
    assert!(!interval.contains(&0));
}

#[test]
fn new_rejects_past_unsigned_end() {
    assert_eq!(Interval::<u8>::new(250, 7), None);
    let last = Interval::<u8>::new(250, 6).unwrap();
    assert!(last.contains(&255));
    assert!(last.contains(&250));
    assert!(!last.contains(&249));
}

#[test]
fn new_zero_diameter_depends_on_domain() {
    // Unsigned: `diameter - 1` cannot be formed.
    assert_eq!(Interval::<u8>::new(5, 0), None);
    // Signed: the interval exists and holds nothing.
    let empty = Interval::<i8>::new(5, 0).unwrap();
    assert!(!empty.contains(&4));
    assert!(!empty.contains(&5));
    // Signed at the minimum: `start - 1` cannot be formed.
    assert_eq!(Interval::<i8>::new(-128, 0), None);
}

#[test]
fn new_rejects_unnegatable_diameter() {
    assert_eq!(Interval::<i8>::new(100, -128), None);
    let whole = Interval::<i8>::new(127, -127).unwrap();
    assert_eq!(whole.start(), &0);
    assert_eq!(whole.diameter(), &127);
    assert!(whole.contains(&126));
    assert!(!whole.contains(&127));
}

#[test]
fn new_at_wide_extremes() {
    let top = Interval::<u128>::new(u128::MAX, 1).unwrap();
    assert!(top.contains(&u128::MAX));
    assert_eq!(Interval::<u128>::new(u128::MAX, 2), None);
    let bottom = Interval::<i128>::new(i128::MIN + 1, -1).unwrap();
    assert_eq!(bottom.start(), &i128::MIN);
    assert!(bottom.contains(&i128::MIN));
    assert_eq!(Interval::<i128>::new(i128::MIN + 1, -2), None);
    let big = Interval::<i64>::new(-10, i64::MAX).unwrap();
    assert!(big.contains(&(i64::MAX - 11)));
    assert!(!big.contains(&(i64::MAX - 10)));
    assert!(Interval::<u16>::new(1, u16::MAX).is_some());
    assert!(Interval::<u16>::new(2, u16::MAX).is_none());
    assert!(Interval::<u32>::new(0, u32::MAX).is_some());
    assert!(Interval::<i16>::new(i16::MAX, 1).is_some());
    assert!(Interval::<i32>::new(i32::MIN, i32::MIN).is_none());
    assert!(Interval::<u64>::new(u64::MAX - 9, 10).is_some());
}

#[test]
fn new_int_interval_matches_new() {
    assert_eq!(new_int_interval(7i8, -4), Interval::new(7, -4));
    assert_eq!(new_int_interval(127i8, 2), None);
    assert_eq!(new_int_interval(5u8, 42), Interval::new(5, 42));
}

#[test]
fn intersect_is_symmetric() {
    let a = Interval::<i32>::new(-10, 25).unwrap();
    let b = Interval::<i32>::new(5, -20).unwrap();
    assert_eq!(a.intersect(&b), b.intersect(&a));
    assert_eq!(a.intersect(&b), Interval::new(-10, 15));
    let c = Interval::<i32>::new(-10, 3).unwrap();
    assert_eq!(a.intersect(&c), c.intersect(&a));
    assert_eq!(a.intersect(&c), Interval::new(-10, 3));
}

#[test]
fn intersect_agrees_with_contains() {
    let a = Interval::<u8>::new(10, 20).unwrap();
    let b = Interval::<u8>::new(25, 10).unwrap();
    let m = a.intersect(&b).unwrap();
    assert_eq!(m, Interval::new(25, 5).unwrap());
    for v in 0..=255u8 {
        assert_eq!(m.contains(&v), a.contains(&v) && b.contains(&v));
    }
}

#[test]
fn intersect_touching_intervals() {
    // The first ends where the second starts: the overlap is empty.
    let a = Interval::<u8>::new(1, 3).unwrap();
    let b = Interval::<u8>::new(4, 3).unwrap();
    assert_eq!(a.intersect(&b), None);
    let sa = Interval::<i8>::new(1, 3).unwrap();
    let sb = Interval::<i8>::new(4, 3).unwrap();
    let e = sa.intersect(&sb).unwrap();
    assert_eq!(e.start(), &4);
    assert_eq!(e.diameter(), &0);
    assert!(!e.contains(&4));
}

#[test]
fn intersect_reaches_domain_end() {
    let a = Interval::<u8>::new(200, 56).unwrap();
    let b = Interval::<u8>::new(250, 6).unwrap();
    assert_eq!(a.intersect(&b), Interval::new(250, 6));
    assert_eq!(b.intersect(&a), Interval::new(250, 6));
    let c = Interval::<u8>::new(240, 11).unwrap();
    assert_eq!(a.intersect(&c), Interval::new(240, 11));
    assert_eq!(b.intersect(&c), Interval::new(250, 1));
}

#[test]
fn clone_keeps_bounds() {
    let a = Interval::<i16>::new(-300, 41).unwrap();
    let b = a.clone();
    assert_eq!(a, b);
    assert_eq!(b.start(), &-300);
    assert_eq!(b.diameter(), &41);
}
