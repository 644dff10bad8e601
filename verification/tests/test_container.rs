use hyperion_framework::containerisation::client_broker::{ClientBroker, Delivery};
use hyperion_framework::containerisation::container_state::ContainerState;
use hyperion_framework::containerisation::hyperion_container::{
    container_step, enrich_heartbeat_request, ContainerAction, heartbeat_role, route_message, ContainerStep,
    HeartbeatRole, MessageRoute,
};
use hyperion_framework::heartbeat::config::HeartbeatConfig;
use hyperion_framework::messages::client_broker_message::ClientBrokerMessage;
use hyperion_framework::messages::container_directive::ContainerDirective;
use hyperion_framework::network::server::server_should_stop;

#[test]
fn container_state_values_round_trip() {
    let all = [
        ContainerState::Running,
        ContainerState::MissingConnections,
        ContainerState::DeadComponent,
        ContainerState::ShuttingDown,
        ContainerState::Closed,
    ];
    for (i, s) in all.iter().enumerate() {
        assert_eq!(s.value(), i);
        assert_eq!(ContainerState::from(i), *s);
    }
}

#[test]
fn step_shuts_down_from_shutting_down_or_dead() {
    assert_eq!(container_step(3, false), ContainerStep::Shutdown);
    assert_eq!(container_step(2, false), ContainerStep::Shutdown);
    assert_eq!(container_step(0, true), ContainerStep::MarkComponentDead);
    assert_eq!(container_step(0, false), ContainerStep::Proceed);
    assert_eq!(container_step(1, false), ContainerStep::Proceed);
    assert_eq!(container_step(4, false), ContainerStep::Proceed);
}

#[test]
fn routing_keeps_heartbeats_at_container() {
    assert_eq!(route_message(true, false, None, true, false), MessageRoute::HeartbeatReceiver);
    assert_eq!(route_message(true, false, None, false, true), MessageRoute::Discard);
    assert_eq!(route_message(false, true, None, false, true), MessageRoute::HeartbeatSender);
    assert_eq!(route_message(false, true, None, true, false), MessageRoute::Discard);
}

#[test]
fn routing_of_directives_and_user_messages() {
    let shutdown = ContainerDirective::Shutdown;
    let system = ContainerDirective::SystemShutdown;
    let retry = ContainerDirective::RetryAllConnections;
    assert_eq!(route_message(false, false, Some(&shutdown), false, false), MessageRoute::Shutdown);
    assert_eq!(route_message(false, false, Some(&system), false, false), MessageRoute::SystemShutdown);
    assert_eq!(route_message(false, false, Some(&retry), true, true), MessageRoute::UnmappedDirective);
    assert_eq!(route_message(false, false, None, true, true), MessageRoute::Component);
}

#[test]
fn heartbeat_role_follows_config() {
    match heartbeat_role(Some(HeartbeatConfig::sender(10, 20, vec!["A".to_string()])), false) {
        HeartbeatRole::Sender(s) => {
            assert_eq!(s.interval_ms, 10);
            assert_eq!(s.targets, vec!["A"]);
        }
        other => panic!("unexpected role {other:?}"),
    }
    assert!(matches!(heartbeat_role(Some(HeartbeatConfig::receiver(7)), true), HeartbeatRole::Receiver(r) if r.timeout_ms == 7));
    assert!(matches!(heartbeat_role(Some(HeartbeatConfig::receiver(7)), false), HeartbeatRole::Inactive));
    assert!(matches!(heartbeat_role(Some(HeartbeatConfig::disabled()), true), HeartbeatRole::Inactive));
    assert!(matches!(heartbeat_role(None, true), HeartbeatRole::Inactive));
    let mut broken = HeartbeatConfig::sender(1, 1, Vec::new());
    broken.sender = None;
    assert!(matches!(heartbeat_role(Some(broken), true), HeartbeatRole::Inactive));
}

#[test]
fn enriched_request_carries_container_health() {
    let r = enrich_heartbeat_request(5, "MC".to_string(), 77, false, 1_500, 1_200, 0);
    assert_eq!(r.request_id, 5);
    assert_eq!(r.sender_name, "MC");
    assert_eq!(r.timestamp_ms, 77);
    assert!(r.component_alive);
    assert_eq!(r.ms_since_last_activity, 300);
    let r = enrich_heartbeat_request(5, "MC".to_string(), 77, true, 1_000, 1_200, 3);
    assert!(!r.component_alive);
    assert_eq!(r.ms_since_last_activity, 0);
    assert_eq!(r.container_state_val, 3);
}

fn names(v: &[&str]) -> Vec<String> {
    v.iter().map(|s| s.to_string()).collect()
}

#[test]
fn test_handle_message_forwards_to_correct_client_core() {
    let broker = ClientBroker::init(&names(&["Alpha"]));
    let msg = ClientBrokerMessage::new(vec!["Alpha"], "Beta".to_string());
    let d = broker.handle_message(&msg.target_clients);
    assert!(matches!(d.as_slice(), [Delivery::Send(t)] if t == "Alpha"));
}

#[test]
fn test_forward_shutdown_blocks_future_messages_core() {
    let mut broker = ClientBroker::init(&names(&["Alpha", "Beta", "Alpha"]));
    assert_eq!(broker.client_names(), &names(&["Alpha", "Beta"]));
    let recipients = broker.forward_shutdown();
    assert_eq!(recipients, names(&["Alpha", "Beta"]));
    assert!(!broker.is_messaging_active());
    assert!(broker.handle_message(&names(&["Alpha"])).is_empty());
}

#[test]
fn test_unknown_target_does_not_panic_core() {
    let mut broker = ClientBroker::init(&[]);
    let d = broker.handle_message(&names(&["Ghost", "Ghost"]));
    assert_eq!(d.len(), 2);
    assert!(matches!(&d[0], Delivery::UnknownTarget(t) if t == "Ghost"));
    broker.shutdown();
    assert!(broker.client_names().is_empty());
}

#[test]
fn steps_and_routes_write_the_right_states() {
    assert_eq!(
        container_step(3, false).states_to_store(),
        vec![ContainerState::ShuttingDown, ContainerState::Closed]
    );
    assert!(container_step(2, true).ends_loop());
    assert_eq!(container_step(0, true).states_to_store(), vec![ContainerState::DeadComponent]);
    assert!(!container_step(0, true).ends_loop());
    assert!(container_step(0, false).states_to_store().is_empty());
    assert_eq!(
        MessageRoute::Shutdown.actions(),
        vec![ContainerAction::StoreState(ContainerState::ShuttingDown), ContainerAction::NotifyWaiters]
    );
    assert_eq!(
        MessageRoute::SystemShutdown.actions(),
        vec![
            ContainerAction::ForwardToAllClients,
            ContainerAction::StoreState(ContainerState::ShuttingDown),
            ContainerAction::NotifyWaiters,
            ContainerAction::CloseClients,
        ]
    );
    assert_eq!(MessageRoute::Component.actions(), vec![ContainerAction::PassToComponent]);
    assert!(MessageRoute::Discard.actions().is_empty());
}

#[test]
fn server_stops_only_when_shutting_down() {
    assert!(server_should_stop(ContainerState::ShuttingDown));
    assert!(!server_should_stop(ContainerState::Running));
    assert!(!server_should_stop(ContainerState::Closed));
    assert!(!server_should_stop(ContainerState::DeadComponent));
}
