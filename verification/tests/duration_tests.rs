use bevy_tween::duration::{Duration, MAX_NANOS};

#[test]
fn duration_add_and_saturating_sub() {
    let a = Duration::from_secs(2);
    let b = Duration::from_millis(500);
    assert_eq!(a.add(b).as_nanos(), 2_500_000_000);
    assert_eq!(b.saturating_sub(a).as_nanos(), 0);
    assert_eq!(a.saturating_sub(b).as_nanos(), 1_500_000_000);
    assert_eq!(a.sub(b), Duration::from_millis(1500));
}

#[test]
fn duration_constructors() {
    assert_eq!(Duration::zero().as_nanos(), 0);
    assert_eq!(Duration::default(), Duration::zero());
    assert_eq!(Duration::from_nanos(7).as_nanos(), 7);
    assert_eq!(Duration::from_micros(3).as_nanos(), 3_000);
    assert_eq!(Duration::from_millis(3).as_nanos(), 3_000_000);
    assert_eq!(Duration::from_secs(3).as_nanos(), 3_000_000_000);
    // nanoseconds carry into the seconds
    let d = Duration::new(1, 1_500_000_000);
    assert_eq!(d.as_secs(), 2);
    assert_eq!(d.subsec_nanos(), 500_000_000);
}

#[test]
fn duration_checked_ops() {
    let max = Duration::new(u64::MAX, 999_999_999);
    assert_eq!(max.as_nanos(), MAX_NANOS);
    assert_eq!(max.checked_add(Duration::from_nanos(1)), None);
    assert_eq!(max.checked_add(Duration::zero()), Some(max));
    assert_eq!(Duration::from_secs(1).checked_sub(Duration::from_secs(2)), None);
    assert_eq!(
        Duration::from_secs(3).checked_sub(Duration::from_secs(2)),
        Some(Duration::from_secs(1))
    );
}

#[test]
fn duration_compare_min_max_rem() {
    let a = Duration::from_millis(1200);
    let b = Duration::from_secs(1);
    assert!(b.lt(&a));
    assert!(!a.lt(&b));
    assert!(a.le(&a));
    assert!(a.eq(&Duration::from_micros(1_200_000)));
    assert_eq!(a.min(b), b);
    assert_eq!(a.max(b), a);
    assert_eq!(Duration::from_millis(5500).rem(Duration::from_secs(5)), Duration::from_millis(500));
    assert_eq!(Duration::from_secs(10).rem(Duration::from_secs(5)), Duration::zero());
    assert!(Duration::zero().is_zero());
    assert!(!b.is_zero());
}
