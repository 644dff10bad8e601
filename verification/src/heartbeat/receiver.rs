use crate::heartbeat::sender::{contains_name, saturating_diff};
use crate::messages::heartbeat::HeartbeatRequest;
use vstd::prelude::*;

verus! {

/// Floor of the watchdog's check interval, in milliseconds.
pub const MIN_CHECK_INTERVAL_MS: u64 = 1000;

/// What a response to a heartbeat request carries: the arguments from which the message type
/// builds its response message.
#[derive(Debug, Clone, Copy, PartialEq, Eq)]
pub struct HeartbeatReply {
    pub request_id: u64,
    pub timestamp_ms: u64,
    pub component_alive: bool,
    pub ms_since_last_activity: u64,
    pub container_state_val: usize,
}

/// The watchdog's check interval for a timeout: a third of the timeout, but at least a second.
pub open spec fn check_interval(timeout_ms: u64) -> int {
    if timeout_ms / 3 >= MIN_CHECK_INTERVAL_MS {
        (timeout_ms / 3) as int
    } else {
        MIN_CHECK_INTERVAL_MS as int
    }
}

/// Whether the watchdog fires at `now_ms` when the last request came at `last_ms`.
pub open spec fn watchdog_fires(last_ms: u64, now_ms: u64, timeout_ms: u64) -> bool {
    saturating_diff(now_ms, last_ms) > timeout_ms
}

/// The decision core of a heartbeat receiver: when the last request came, whom it can answer, and
/// when its watchdog fires.
pub struct HeartbeatReceiver {
    timeout_ms: u64,
    last_received_ms: u64,
    senders: Vec<String>,
}

impl HeartbeatReceiver {
    pub closed spec fn timeout(&self) -> u64 {
        self.timeout_ms
    }

    /// When the last request came (or when the receiver was made, before the first).
    pub closed spec fn last_received(&self) -> u64 {
        self.last_received_ms
    }

    /// The names of the clients that responses can be sent to.
    pub closed spec fn sender_names(&self) -> Seq<Seq<char>> {
        self.senders@.map_values(|s: String| s@)
    }

    /// A receiver made at `now_ms` with timeout `timeout_ms`, able to answer `senders`.
    pub fn new(timeout_ms: u64, now_ms: u64, senders: Vec<String>) -> (r: HeartbeatReceiver)
        ensures
            r.timeout() == timeout_ms,
            r.last_received() == now_ms,
            r.sender_names() == senders@.map_values(|s: String| s@),
    {
        HeartbeatReceiver { timeout_ms, last_received_ms: now_ms, senders }
    }

    /// How often the watchdog checks: a third of the timeout, but at least a second.
    pub fn check_interval_ms(&self) -> (ms: u64)
        ensures
            ms == check_interval(self.timeout()),
    {
        let third = self.timeout_ms / 3;
        if third >= MIN_CHECK_INTERVAL_MS {
            third
        } else {
            MIN_CHECK_INTERVAL_MS
        }
    }

    /// Milliseconds since the last request at `now_ms` (0 when the clock reads earlier).
    pub fn elapsed_ms(&self, now_ms: u64) -> (ms: u64)
        ensures
            ms == saturating_diff(now_ms, self.last_received()),
    {
        if now_ms >= self.last_received_ms {
            now_ms - self.last_received_ms
        } else {
            0
        }
    }

    /// Takes a request arriving at `now_ms`: it is the last request from now on; the reply echoes
    /// its id and health data with `now_ms` as timestamp, and is `Some` exactly when the request's
    /// sender is one that can be answered.
    pub fn on_request(&mut self, request: &HeartbeatRequest, now_ms: u64) -> (reply: Option<
        HeartbeatReply,
    >)
        ensures
            final(self).last_received() == now_ms,
            final(self).timeout() == old(self).timeout(),
            final(self).sender_names() == old(self).sender_names(),
            reply is Some <==> old(self).sender_names().contains(request.sender_name@),
            reply matches Some(r) ==> r == (HeartbeatReply {
                request_id: request.request_id,
                timestamp_ms: now_ms,
                component_alive: request.component_alive,
                ms_since_last_activity: request.ms_since_last_activity,
                container_state_val: request.container_state_val,
            }),
    {
        self.last_received_ms = now_ms;
        if contains_name(self.senders.as_slice(), &request.sender_name) {
            Some(
                HeartbeatReply {
                    request_id: request.request_id,
                    timestamp_ms: now_ms,
                    component_alive: request.component_alive,
                    ms_since_last_activity: request.ms_since_last_activity,
                    container_state_val: request.container_state_val,
                },
            )
        } else {
            None
        }
    }

    /// Whether the timeout handler is due at `now_ms`: more than the timeout has passed since the
    /// last request.
    pub fn watchdog_expired(&self, now_ms: u64) -> (fire: bool)
        ensures
            fire == watchdog_fires(self.last_received(), now_ms, self.timeout()),
    {
        self.elapsed_ms(now_ms) > self.timeout_ms
    }
}

/// The watchdog checks at least once a second and at least three times per timeout window
/// (for timeouts of three seconds or more).
pub proof fn lemma_check_interval_bounds(timeout_ms: u64)
    ensures
        check_interval(timeout_ms) >= MIN_CHECK_INTERVAL_MS,
        timeout_ms >= 3 * MIN_CHECK_INTERVAL_MS ==> 3 * check_interval(timeout_ms) <= timeout_ms,
{
}

/// While requests keep arriving no more than the timeout apart, the watchdog never fires: at
/// any moment up to the timeout after a request, it stays quiet.
pub proof fn lemma_no_timeout_while_requests_arrive(request_ms: u64, now_ms: u64, timeout_ms: u64)
    requires
        request_ms <= now_ms <= request_ms + timeout_ms,
    ensures
        !watchdog_fires(request_ms, now_ms, timeout_ms),
{
}

/// Once more than the timeout has passed with no request, the watchdog fires at every check.
pub proof fn lemma_timeout_when_requests_stop(last_ms: u64, now_ms: u64, timeout_ms: u64)
    requires
        now_ms > last_ms + timeout_ms,
    ensures
        watchdog_fires(last_ms, now_ms, timeout_ms),
{
}

} // verus!
