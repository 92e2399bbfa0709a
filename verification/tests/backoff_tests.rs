use megalith_lsps2::backoff::{Backoff, BACKOFF_CEILING_SECS, BACKOFF_FLOOR_SECS};

#[test]
fn constants_are_floor_two_ceiling_thirty() {
    assert_eq!(BACKOFF_FLOOR_SECS, 2);
    assert_eq!(BACKOFF_CEILING_SECS, 30);
}

#[test]
fn fresh_backoff_starts_at_floor() {
    let b = Backoff::new();
    assert_eq!(b.delay_secs(), 2);
    assert_eq!(b.failures(), 0);
}

#[test]
fn delays_double_then_saturate() {
    let mut b = Backoff::new();
    let mut seen = Vec::new();
    for _ in 0..8 {
        seen.push(b.record_failure());
    }
    assert_eq!(seen, vec![2, 4, 8, 16, 30, 30, 30, 30]);
    assert_eq!(b.failures(), 8);
    assert_eq!(b.delay_secs(), 30);
}

#[test]
fn delay_matches_closed_form_for_first_failures() {
    let mut b = Backoff::new();
    for n in 1u32..=12 {
        let expected = std::cmp::min(2u64 * 2u64.pow(n - 1), 30);
        assert_eq!(b.record_failure(), expected, "failure {}", n);
    }
}

#[test]
fn delay_never_decreases_nor_exceeds_ceiling() {
    let mut b = Backoff::new();
    let mut last = 0;
    for _ in 0..100 {
        let d = b.record_failure();
        assert!(d >= last);
        assert!(d <= 30);
        assert!(d >= 2);
        last = d;
    }
}

#[test]
fn failure_counter_stops_at_the_top() {
    let mut b = Backoff { delay_secs: 30, failures: u64::MAX };
    assert_eq!(b.record_failure(), 30);
    assert_eq!(b.failures(), u64::MAX);
    assert_eq!(b.delay_secs(), 30);
}

#[test]
fn sixteen_is_followed_by_thirty() {
    let mut b = Backoff { delay_secs: 16, failures: 3 };
    assert_eq!(b.record_failure(), 16);
    assert_eq!(b.delay_secs(), 30);
    assert_eq!(b.failures(), 4);
}
