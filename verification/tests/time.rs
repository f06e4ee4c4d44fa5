use footage::time::{Span, MAX_NANOS};

#[test]
fn span_arithmetic() {
    let a = Span::from_millis(250);
    assert_eq!(a.as_nanos(), 250_000_000);
    let b = Span::from_nanos(100);
    assert_eq!(a.add(&b).as_nanos(), 250_000_100);
    assert_eq!(b.saturating_sub(&a).as_nanos(), 0);
    assert_eq!(a.saturating_sub(&b).as_nanos(), 249_999_900);
    assert!(b.checked_sub(&a).is_none());
    assert_eq!(a.checked_sub(&b).unwrap().as_nanos(), 249_999_900);
    assert_eq!(a.min(b).as_nanos(), 100);
    assert_eq!(a.max(b).as_nanos(), 250_000_000);
    assert_eq!(b.clamp(a, a.add(&a)).as_nanos(), 250_000_000);
    assert!(b.lt(&a) && b.le(&b) && !a.le(&b) && a.equals(&a));
}

#[test]
fn span_covers_duration_range() {
    let max = Span::from_nanos(MAX_NANOS);
    assert_eq!(max.as_nanos(), std::time::Duration::MAX.as_nanos());
    assert_eq!(
        Span::from_millis(u64::MAX).as_nanos(),
        std::time::Duration::from_millis(u64::MAX).as_nanos()
    );
}
