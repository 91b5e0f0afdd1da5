use updater_core::retry::{RetryState, BACKOFF_SECS, MAX_ATTEMPTS};

#[test]
fn the_policy_is_three_attempts_three_seconds_apart() {
    assert_eq!(MAX_ATTEMPTS, 3);
    assert_eq!(BACKOFF_SECS, 3);
    let state = RetryState::new();
    assert_eq!(state.attempt(), 0);
    assert_eq!(state.max_attempts(), 3);
    assert_eq!(state.backoff_secs(), 3);
    assert!(!state.exhausted());
}

#[test]
fn attempts_are_counted_up_to_the_bound() {
    let first = RetryState::new().next().unwrap();
    assert_eq!(first.attempt(), 1);
    assert!(!first.exhausted());
    let second = first.next().unwrap();
    assert_eq!(second.attempt(), 2);
    assert!(!second.exhausted());
    let third = second.next().unwrap();
    assert_eq!(third.attempt(), 3);
    assert!(third.exhausted());
    assert_eq!(third.next(), None);
}

#[test]
fn the_backoff_does_not_grow() {
    let mut state = RetryState::new();
    while let Some(next) = state.next() {
        assert_eq!(next.backoff_secs(), 3);
        assert_eq!(next.max_attempts(), 3);
        assert!(next.attempt() <= next.max_attempts());
        state = next;
    }
    assert_eq!(state.attempt(), 3);
}
