use hyperion_framework::containerisation::container_state::ContainerState;
use hyperion_framework::network::client::{ClientSession, FailureOutcome};
use hyperion_framework::utilities::tx_sender::{RetryDecision, SendOutcome, SendRetry};

#[test]
fn tx_retry_waits_double_then_gives_up() {
    let mut r = SendRetry::new();
    let mut waits = Vec::new();
    loop {
        match r.after_attempt(SendOutcome::Full) {
            RetryDecision::WaitMs(ms) => waits.push(ms),
            RetryDecision::GiveUp => break,
            other => panic!("unexpected {other:?}"),
        }
    }
    assert_eq!(waits, vec![200, 400, 800, 1600]);
    assert!(r.exhausted());
}

#[test]
fn client_gives_up_after_max_failures() {
    let mut s = ClientSession::new(3);
    assert!(!s.is_closing_connection(ContainerState::Running));
    assert_eq!(s.on_failure(), FailureOutcome::Retry { backoff_secs: 1 });
    assert_eq!(s.on_failure(), FailureOutcome::Retry { backoff_secs: 2 });
    assert_eq!(s.on_failure(), FailureOutcome::GiveUp);
    assert!(s.is_closing_connection(ContainerState::Running));
}

#[test]
fn client_single_retry_exits_immediately() {
    let mut s = ClientSession::new(1);
    assert_eq!(s.on_failure(), FailureOutcome::GiveUp);
}

#[test]
fn successful_connection_resets_retries() {
    let mut s = ClientSession::new(2);
    assert_eq!(s.on_failure(), FailureOutcome::Retry { backoff_secs: 1 });
    s.on_connected();
    assert_eq!(s.on_failure(), FailureOutcome::Retry { backoff_secs: 1 });
    assert_eq!(s.on_failure(), FailureOutcome::GiveUp);
    s.restart();
    assert!(!s.is_closing_connection(ContainerState::Running));
}

#[test]
fn client_closes_when_container_shuts_down() {
    let s = ClientSession::new(3);
    assert!(s.is_closing_connection(ContainerState::ShuttingDown));
    assert!(!s.is_closing_connection(ContainerState::Closed));
}

#[test]
fn large_retry_limits_stop_counting_before_overflow() {
    let mut s = ClientSession::new(200);
    let mut n = 0;
    while s.can_count_failure() {
        assert!(matches!(s.on_failure(), FailureOutcome::Retry { .. }));
        n += 1;
    }
    assert_eq!(n, 63);
}

#[test]
fn tx_retry_stops_at_once_on_success_or_closed_channel() {
    let mut r = SendRetry::new();
    assert_eq!(r.after_attempt(SendOutcome::Full), RetryDecision::WaitMs(200));
    assert_eq!(r.after_attempt(SendOutcome::Sent), RetryDecision::Delivered);
    let mut r = SendRetry::new();
    assert_eq!(r.after_attempt(SendOutcome::Closed), RetryDecision::ChannelClosed);
    assert!(!r.exhausted());
}
