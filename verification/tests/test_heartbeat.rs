use hyperion_framework::heartbeat::config::{
    HeartbeatConfig, HeartbeatMode, HeartbeatTargets, HeartbeatXml, HeartbeatXmlError,
};
use hyperion_framework::utilities::time::fmt_ms;

// fmt_ms

#[test]
fn fmt_ms_zero() {
    assert_eq!(fmt_ms(0), "0ms");
}

#[test]
fn fmt_ms_sub_second() {
    assert_eq!(fmt_ms(1), "1ms");
    assert_eq!(fmt_ms(423), "423ms");
    assert_eq!(fmt_ms(999), "999ms");
}

#[test]
fn fmt_ms_seconds() {
    assert_eq!(fmt_ms(1_000), "1.0s");
    assert_eq!(fmt_ms(1_500), "1.5s");
    assert_eq!(fmt_ms(3_200), "3.2s");
    assert_eq!(fmt_ms(30_000), "30.0s");
}

#[test]
fn fmt_ms_minutes() {
    assert_eq!(fmt_ms(60_000), "1m 0s");
    assert_eq!(fmt_ms(90_000), "1m 30s");
    assert_eq!(fmt_ms(125_000), "2m 5s");
}

#[test]
fn fmt_ms_rounds_to_nearest_tenth() {
    assert_eq!(fmt_ms(1_449), "1.4s");
    assert_eq!(fmt_ms(1_450), "1.5s");
    assert_eq!(fmt_ms(59_999), "60.0s");
    assert_eq!(fmt_ms(3_723_000), "62m 3s");
}

// HeartbeatConfig

#[test]
fn heartbeat_config_sender_builds_correctly() {
    let cfg = HeartbeatConfig::sender(5_000, 3_000, vec!["A".to_string(), "B".to_string()]);
    assert_eq!(cfg.mode, HeartbeatMode::Sender);
    assert!(cfg.receiver.is_none());
    let s = cfg.sender.unwrap();
    assert_eq!(s.interval_ms, 5_000);
    assert_eq!(s.response_timeout_ms, 3_000);
    assert_eq!(s.targets, vec!["A", "B"]);
}

#[test]
fn heartbeat_config_receiver_builds_correctly() {
    let cfg = HeartbeatConfig::receiver(15_000);
    assert_eq!(cfg.mode, HeartbeatMode::Receiver);
    assert!(cfg.sender.is_none());
    assert_eq!(cfg.receiver.unwrap().timeout_ms, 15_000);
}

#[test]
fn heartbeat_config_disabled_builds_correctly() {
    let cfg = HeartbeatConfig::disabled();
    assert_eq!(cfg.mode, HeartbeatMode::Disabled);
    assert!(cfg.sender.is_none());
    assert!(cfg.receiver.is_none());
}

// HeartbeatXml::to_config

#[test]
fn heartbeat_xml_receiver_produces_correct_config() {
    let xml = HeartbeatXml {
        mode: "receiver".into(),
        interval_ms: None,
        response_timeout_ms: None,
        targets: None,
        timeout_ms: Some(10_000),
    };
    let cfg = xml.to_config().unwrap();
    assert_eq!(cfg.mode, HeartbeatMode::Receiver);
    assert_eq!(cfg.receiver.unwrap().timeout_ms, 10_000);
}

#[test]
fn heartbeat_xml_sender_produces_correct_config() {
    let xml = HeartbeatXml {
        mode: "sender".into(),
        interval_ms: Some(4_000),
        response_timeout_ms: Some(2_000),
        targets: Some(HeartbeatTargets {
            targets: vec!["X".into(), "Y".into()],
        }),
        timeout_ms: None,
    };
    let cfg = xml.to_config().unwrap();
    assert_eq!(cfg.mode, HeartbeatMode::Sender);
    let s = cfg.sender.unwrap();
    assert_eq!(s.interval_ms, 4_000);
    assert_eq!(s.response_timeout_ms, 2_000);
    assert_eq!(s.targets, vec!["X", "Y"]);
}

#[test]
fn heartbeat_xml_sender_without_targets_has_none() {
    let xml = HeartbeatXml {
        mode: "sender".into(),
        interval_ms: Some(1_000),
        response_timeout_ms: Some(500),
        targets: None,
        timeout_ms: None,
    };
    assert_eq!(xml.validate(), Ok(()));
    let s = xml.to_config().unwrap().sender.unwrap();
    assert!(s.targets.is_empty());
}

#[test]
fn heartbeat_xml_disabled_returns_none() {
    let xml = HeartbeatXml {
        mode: "disabled".into(),
        interval_ms: None,
        response_timeout_ms: None,
        targets: None,
        timeout_ms: None,
    };
    assert!(xml.to_config().is_none());
}

#[test]
fn heartbeat_xml_unknown_mode_is_rejected() {
    let xml = HeartbeatXml {
        mode: "blorp".into(),
        interval_ms: None,
        response_timeout_ms: None,
        targets: None,
        timeout_ms: None,
    };
    assert_eq!(xml.validate(), Err(HeartbeatXmlError::UnknownMode));
}

#[test]
fn heartbeat_xml_mode_is_case_sensitive() {
    let xml = HeartbeatXml {
        mode: "Sender".into(),
        interval_ms: Some(1),
        response_timeout_ms: Some(1),
        targets: None,
        timeout_ms: None,
    };
    assert_eq!(xml.validate(), Err(HeartbeatXmlError::UnknownMode));
}

#[test]
fn heartbeat_xml_sender_missing_interval_is_rejected() {
    let xml = HeartbeatXml {
        mode: "sender".into(),
        interval_ms: None,
        response_timeout_ms: Some(1_000),
        targets: None,
        timeout_ms: None,
    };
    assert_eq!(xml.validate(), Err(HeartbeatXmlError::MissingInterval));
}

#[test]
fn heartbeat_xml_sender_missing_response_timeout_is_rejected() {
    let xml = HeartbeatXml {
        mode: "sender".into(),
        interval_ms: Some(1_000),
        response_timeout_ms: None,
        targets: None,
        timeout_ms: None,
    };
    assert_eq!(xml.validate(), Err(HeartbeatXmlError::MissingResponseTimeout));
}

#[test]
fn heartbeat_xml_receiver_missing_timeout_is_rejected() {
    let xml = HeartbeatXml {
        mode: "receiver".into(),
        interval_ms: None,
        response_timeout_ms: None,
        targets: None,
        timeout_ms: None,
    };
    assert_eq!(xml.validate(), Err(HeartbeatXmlError::MissingTimeout));
}
