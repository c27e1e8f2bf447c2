use appinsights::schedule::RetrySchedule;

#[test]
fn it_hands_out_the_default_delays_in_order() {
    let mut s = RetrySchedule::default_schedule();
    let expected: [i64; 8] = [
        10_000, 30_000, 60_000, 300_000, 900_000, 1_800_000, 3_600_000, 7_200_000,
    ];
    for d in expected {
        assert_eq!(s.next_delay(), Some(d));
    }
    assert_eq!(s.next_delay(), None);
    assert_eq!(s.next_delay(), None);
}

#[test]
fn it_restarts_after_a_reset() {
    let mut s = RetrySchedule::new(vec![7, 11]);
    assert_eq!(s.next_delay(), Some(7));
    assert_eq!(s.next_delay(), Some(11));
    s.reset();
    assert_eq!(s.next_delay(), Some(7));
}

#[test]
fn it_counts_a_consumed_slot_against_the_budget() {
    let mut s = RetrySchedule::new(vec![7, 11]);
    assert!(s.consume_slot());
    assert_eq!(s.next_delay(), Some(11));
    assert!(!s.consume_slot());
    assert_eq!(s.next_delay(), None);
}

#[test]
fn it_is_exhausted_at_once_when_empty() {
    let mut s = RetrySchedule::new(vec![]);
    assert_eq!(s.next_delay(), None);
    assert!(!s.consume_slot());
}
