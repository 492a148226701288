use wecom_cli::polling::{
    missing_poll_info_error, poll_timeout_error, LongTaskPollInfo, PollAction, PollEvent, PollMode, PollState,
    DEFAULT_MIN_POLL_INTERVAL_MS,
};
use wecom_cli::transport::{ErrorCause, TransportError};

fn pending(interval: Option<u64>, timeout: Option<u64>) -> PollEvent {
    PollEvent::Fetched(Some(LongTaskPollInfo { done: Some(false), task_timeout: timeout, polling_interval_ms: interval }))
}

#[test]
fn poll_done_finishes() {
    let s = PollState::new();
    let done = PollEvent::Fetched(Some(LongTaskPollInfo { done: Some(true), task_timeout: None, polling_interval_ms: None }));
    assert_eq!(s.step(&done, 0).1, PollAction::Finish);
}

#[test]
fn poll_pending_sleeps_at_least_the_minimum() {
    let s = PollState::new();
    let (s2, a) = s.step(&pending(Some(10), Some(5)), 0);
    assert_eq!(a, PollAction::Sleep(DEFAULT_MIN_POLL_INTERVAL_MS));
    assert_eq!(s2.timeout_secs, Some(5));
    let (_, a) = s2.step(&pending(Some(2500), Some(99)), 1000);
    assert_eq!(a, PollAction::Sleep(2500));
}

#[test]
fn poll_timeout_is_fixed_by_first_answer() {
    let s = PollState::new();
    let (s, _) = s.step(&pending(None, Some(2)), 0);
    let (_, a) = s.step(&pending(None, Some(100)), 2000);
    assert_eq!(a, PollAction::TimedOut(2));
    let (_, a) = PollState::new().step(&pending(None, None), 600_000);
    assert_eq!(a, PollAction::TimedOut(600));
}

#[test]
fn poll_missing_info_and_other_errors() {
    let s = PollState::new();
    assert_eq!(s.step(&PollEvent::Fetched(None), 0).1, PollAction::MissingInfo);
    assert_eq!(s.step(&PollEvent::OtherError, 0).1, PollAction::Propagate);
}

#[test]
fn poll_network_errors_back_off_then_give_up() {
    let s = PollState::new();
    let (s, a) = s.step(&PollEvent::NetworkError, 0);
    assert_eq!(a, PollAction::Sleep(2000));
    let (s, a) = s.step(&PollEvent::NetworkError, 0);
    assert_eq!(a, PollAction::Sleep(4000));
    let (s, a) = s.step(&PollEvent::NetworkError, 0);
    assert_eq!(a, PollAction::Sleep(8000));
    let (_, a) = s.step(&PollEvent::NetworkError, 0);
    assert_eq!(a, PollAction::Propagate);
}

#[test]
fn poll_network_recovery_resets_the_count() {
    let s = PollState::new();
    let (s, _) = s.step(&PollEvent::NetworkError, 0);
    let (s, _) = s.step(&PollEvent::NetworkError, 0);
    let (s, a) = s.step(&pending(None, None), 0);
    assert_eq!(a, PollAction::Sleep(1000));
    assert_eq!(s.network_errors, 0);
}

#[test]
fn poll_errors_have_fixed_texts() {
    match missing_poll_info_error("{}".into()) {
        TransportError::Parse { message, endpoint, body } => {
            assert_eq!(message, "Missing 'long_task_poll' field");
            assert_eq!(endpoint, "PollClawLongTask");
            assert_eq!(body, "{}");
        }
        other => panic!("unexpected {other:?}"),
    }
    match poll_timeout_error(600) {
        TransportError::Other(ErrorCause::Message(m)) => assert_eq!(m, "轮询任务超时: 600s"),
        other => panic!("unexpected {other:?}"),
    }
}

#[test]
fn poll_mode_wire_values() {
    for m in [PollMode::TaskQuery, PollMode::ReuseEndpoint] {
        assert_eq!(PollMode::from_wire(m.wire()), Some(m));
    }
    assert_eq!(PollMode::TaskQuery.wire(), 0);
    assert_eq!(PollMode::ReuseEndpoint.wire(), 1);
    assert_eq!(PollMode::from_wire(2), None);
    assert_eq!(PollMode::default(), PollMode::TaskQuery);
}
