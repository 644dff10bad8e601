use vstd::prelude::*;

verus! {

/// Enriched form of a heartbeat request, assembled by the container before handing it to the
/// receiver task. Includes component health data that only the container can observe.
#[derive(Debug, Clone)]
pub struct HeartbeatRequest {
    pub request_id: u64,
    pub sender_name: String,
    pub timestamp_ms: u64,
    pub component_alive: bool,
    pub ms_since_last_activity: u64,
    pub container_state_val: usize,
}

/// Parsed form of a heartbeat response, forwarded by the container to the sender task.
#[derive(Debug, Clone)]
pub struct HeartbeatResponse {
    pub request_id: u64,
    pub responder_name: String,
    pub timestamp_ms: u64,
    pub component_alive: bool,
    pub ms_since_last_activity: u64,
    pub container_state_val: usize,
}

} // verus!
