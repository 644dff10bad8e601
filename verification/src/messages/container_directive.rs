use vstd::prelude::*;

verus! {

/// Instructions that the framework itself acts on, carried inside a component's message type.
#[derive(Debug, Clone)]
pub enum ContainerDirective {
    /// Shut this container down.
    Shutdown,
    /// Shut every container down: forward the shutdown to all clients first.
    SystemShutdown,
    /// Drop and respawn all connections.
    RetryAllConnections,
    /// A heartbeat request from a polling container.
    HeartbeatRequest { request_id: u64, sender_name: String, timestamp_ms: u64 },
    /// The answer of a polled container.
    HeartbeatResponse {
        request_id: u64,
        responder_name: String,
        timestamp_ms: u64,
        component_alive: bool,
        ms_since_last_activity: u64,
        container_state_val: usize,
    },
}

} // verus!
