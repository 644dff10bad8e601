use crate::messages::container_directive::ContainerDirective;
use crate::messages::heartbeat::{HeartbeatRequest, HeartbeatResponse};
use std::collections::HashMap;
use vstd::prelude::*;

verus! {

/// Implemented by a component's message type: the framework directive a message carries, if any.
pub trait HyperionContainerDirectiveMessage {
    fn get_container_directive_message(&self) -> Option<&ContainerDirective>;
}

/// Implemented by a component's message type to take part in heartbeats: recognising heartbeat
/// requests and responses, and building them.
pub trait HyperionHeartbeatMessage: Sized {
    fn as_heartbeat_request(&self) -> Option<HeartbeatRequest>;

    fn as_heartbeat_response(&self) -> Option<HeartbeatResponse>;

    fn make_heartbeat_request(request_id: u64, sender_name: String, timestamp_ms: u64) -> Option<
        Self,
    >;

    fn make_heartbeat_response(
        request_id: u64,
        timestamp_ms: u64,
        component_alive: bool,
        ms_since_last_activity: u64,
        container_state_val: usize,
    ) -> Option<Self>;
}

/// Implemented by a component's configuration: the identity of its container (name, version and
/// the like).
pub trait ContainerIdentidy {
    fn container_identity(&self) -> HashMap<String, String>;
}

/// Implemented by a component's configuration: the log level it asks for.
pub trait LogLevel {
    fn log_level(&self) -> &str;
}

} // verus!
