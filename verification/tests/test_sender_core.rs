use hyperion_framework::heartbeat::sender::HeartbeatSender;

fn names(v: &[&str]) -> Vec<String> {
    v.iter().map(|s| s.to_string()).collect()
}

#[test]
fn sender_polls_only_known_targets_once() {
    let known = names(&["Target", "Other"]);
    let s = HeartbeatSender::new(50, 500, "Sender".to_string(), &known, &names(&["Missing", "Target", "Target", "Other"]));
    assert_eq!(s.targets(), &names(&["Target", "Other"]));
    assert_eq!(s.interval_ms(), 50);
    assert_eq!(s.container_name(), "Sender");
}

#[test]
fn sender_skips_unknown_target() {
    let s = HeartbeatSender::new(50, 500, "Sender".to_string(), &[], &names(&["Missing"]));
    assert!(s.targets().is_empty());
}

#[test]
fn rounds_number_requests_consecutively_from_one() {
    let mut s = HeartbeatSender::new(50, 500, "S".to_string(), &names(&["A", "B"]), &names(&["A", "B"]));
    assert!(s.can_begin_tick());
    let first = s.begin_tick(1_000);
    let second = s.begin_tick(2_000);
    let ids: Vec<u64> = first.iter().chain(second.iter()).map(|r| r.request_id).collect();
    assert_eq!(ids, vec![1, 2, 3, 4]);
    let targets: Vec<&str> = first.iter().map(|r| r.target.as_str()).collect();
    assert_eq!(targets, vec!["A", "B"]);
    assert!(second.iter().all(|r| r.sender_name == "S" && r.timestamp_ms == 2_000));
    assert_eq!(s.last_recorded_request_id(), 0);
}

#[test]
fn answered_request_reports_latency_and_is_not_missed() {
    let mut s = HeartbeatSender::new(80, 500, "S".to_string(), &names(&["T"]), &names(&["T"]));
    let r = s.begin_tick(0).remove(0);
    s.record_pending(r.request_id, r.target, 1_000);
    assert_eq!(s.last_recorded_request_id(), 1);
    let report = s.on_response(r.request_id, 1_042).expect("pending request");
    assert_eq!(report.target, "T");
    assert_eq!(report.latency_ms, 42);
    assert!(s.on_response(r.request_id, 1_050).is_none());
    assert!(s.prune_expired(10_000).is_empty());
}

#[test]
fn unknown_response_is_ignored() {
    let mut s = HeartbeatSender::new(80, 500, "S".to_string(), &names(&["T"]), &names(&["T"]));
    assert!(s.on_response(99, 0).is_none());
}

#[test]
fn prune_reports_only_overdue_requests() {
    let mut s = HeartbeatSender::new(80, 30, "S".to_string(), &names(&["A", "B"]), &names(&["A", "B"]));
    let round = s.begin_tick(0);
    s.record_pending(round[0].request_id, round[0].target.clone(), 0);
    s.record_pending(round[1].request_id, round[1].target.clone(), 50);
    let missed = s.prune_expired(80);
    assert_eq!(missed.len(), 1);
    assert_eq!(missed[0].request_id, 1);
    assert_eq!(missed[0].target, "A");
    // Exactly the timeout is not yet overdue.
    assert!(s.prune_expired(80).is_empty());
    let missed = s.prune_expired(81);
    assert_eq!(missed.len(), 1);
    assert_eq!(missed[0].target, "B");
    // Each request is reported once.
    assert!(s.prune_expired(1_000).is_empty());
}

#[test]
fn missed_handler_would_fire_on_every_silent_tick() {
    let mut s = HeartbeatSender::new(80, 30, "S".to_string(), &names(&["T"]), &names(&["T"]));
    let mut fired = Vec::new();
    for tick in 1..=5u64 {
        let now = tick * 80;
        for r in s.begin_tick(now) {
            s.record_pending(r.request_id, r.target, now);
        }
        fired.extend(s.prune_expired(now).into_iter().map(|m| m.request_id));
    }
    // Each request is overdue by the following tick, and reported only then.
    assert_eq!(fired, vec![1, 2, 3, 4]);
}
