use vstd::prelude::*;

verus! {

/// Called by the receiver watchdog when no heartbeat request has arrived within the timeout window.
pub trait HeartbeatTimeoutHandler: Send + Sync + 'static {
    fn on_timeout(&self);
}

/// Called by the sender on every heartbeat tick where a target has not responded within
/// `response_timeout_ms`. Fires repeatedly while the target remains silent.
pub trait HeartbeatMissedHandler: Send + Sync + 'static {
    fn on_missed(&self, target: &str);
}

} // verus!
