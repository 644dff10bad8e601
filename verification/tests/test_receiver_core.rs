use hyperion_framework::heartbeat::receiver::{HeartbeatReceiver, HeartbeatReply};
use hyperion_framework::messages::heartbeat::HeartbeatRequest;

fn request(id: u64, sender: &str) -> HeartbeatRequest {
    HeartbeatRequest {
        request_id: id,
        sender_name: sender.to_string(),
        timestamp_ms: 0,
        component_alive: true,
        ms_since_last_activity: 100,
        container_state_val: 0,
    }
}

#[test]
fn receiver_replies_to_known_sender() {
    let mut r = HeartbeatReceiver::new(5_000, 0, vec!["MC".to_string()]);
    let reply = r.on_request(&request(42, "MC"), 10).expect("reply");
    assert_eq!(
        reply,
        HeartbeatReply {
            request_id: 42,
            timestamp_ms: 10,
            component_alive: true,
            ms_since_last_activity: 100,
            container_state_val: 0,
        }
    );
}

#[test]
fn receiver_does_not_reply_to_unknown_sender_but_resets_watchdog() {
    let mut r = HeartbeatReceiver::new(100, 0, Vec::new());
    assert!(r.on_request(&request(1, "Nobody"), 500).is_none());
    assert!(!r.watchdog_expired(550));
    assert!(r.watchdog_expired(601));
}

#[test]
fn watchdog_fires_only_after_timeout() {
    let r = HeartbeatReceiver::new(100, 1_000, Vec::new());
    assert!(!r.watchdog_expired(1_100));
    assert!(r.watchdog_expired(1_101));
    assert!(!r.watchdog_expired(900));
    assert_eq!(r.elapsed_ms(1_250), 250);
}

#[test]
fn check_interval_has_one_second_floor() {
    assert_eq!(HeartbeatReceiver::new(100, 0, Vec::new()).check_interval_ms(), 1_000);
    assert_eq!(HeartbeatReceiver::new(15_000, 0, Vec::new()).check_interval_ms(), 5_000);
    assert_eq!(HeartbeatReceiver::new(3_000, 0, Vec::new()).check_interval_ms(), 1_000);
}

#[test]
fn receiver_stays_quiet_while_requests_arrive() {
    let mut r = HeartbeatReceiver::new(150, 0, vec!["MC".to_string()]);
    let mut fired = false;
    for step in 1..=7u64 {
        r.on_request(&request(1, "MC"), step * 40);
        fired |= r.watchdog_expired(step * 40 + 39);
    }
    assert!(!fired);
}
