use crate::containerisation::container_state::ContainerState;
use crate::utilities::backoff::{lemma_two_pow_bound, pow2, two_pow};
use vstd::prelude::*;

verus! {

/// What a client does after a failed connection attempt or a failed send.
#[derive(Debug, Clone, Copy, PartialEq, Eq, Structural)]
pub enum FailureOutcome {
    /// Wait this many seconds, then try again.
    Retry { backoff_secs: u64 },
    /// The retries are used up: the client stops operating.
    GiveUp,
}

/// The outcome of the failure that makes `retries` consecutive failures: give up once the limit
/// is reached, otherwise wait half of two to the number of failures, in seconds.
pub open spec fn failure_outcome(retries: nat, max_retries: nat) -> FailureOutcome {
    if retries >= max_retries {
        FailureOutcome::GiveUp
    } else {
        FailureOutcome::Retry { backoff_secs: (two_pow(retries) / 2) as u64 }
    }
}

/// The retry bookkeeping of a client that sends messages to one server.
pub struct ClientSession {
    send_retries: u8,
    max_send_retries: u8,
    operational: bool,
}

impl ClientSession {
    /// Consecutive failures since the last success.
    pub closed spec fn retries(&self) -> nat {
        self.send_retries as nat
    }

    /// Failures after which the client gives up.
    pub closed spec fn max_retries(&self) -> nat {
        self.max_send_retries as nat
    }

    /// Whether the client has not given up.
    pub closed spec fn is_operational(&self) -> bool {
        self.operational
    }

    /// While the client operates, it has not used up its retries.
    pub closed spec fn wf(&self) -> bool {
        self.operational ==> (self.send_retries < self.max_send_retries || self.send_retries == 0)
    }

    /// Whether one more failure can be counted without the backoff overflowing: either it gives
    /// up, or the failure count stays below 64.
    pub open spec fn failure_fits(&self) -> bool {
        self.retries() + 1 >= self.max_retries() || self.retries() + 1 < 64
    }

    /// A session that may fail `max_send_retries` times in a row, operating, with no failure yet.
    pub fn new(max_send_retries: u8) -> (s: ClientSession)
        ensures
            s.wf(),
            s.retries() == 0,
            s.max_retries() == max_send_retries,
            s.is_operational(),
    {
        ClientSession { send_retries: 0, max_send_retries, operational: true }
    }

    /// Starts a run: operating again, with no failure counted.
    pub fn restart(&mut self)
        ensures
            final(self).wf(),
            final(self).retries() == 0,
            final(self).max_retries() == old(self).max_retries(),
            final(self).is_operational(),
    {
        self.operational = true;
        self.send_retries = 0;
    }

    /// Whether the client must close its connection: the container is shutting down, or the
    /// client has given up.
    pub fn is_closing_connection(&self, state: ContainerState) -> (closing: bool)
        ensures
            closing == (state == ContainerState::ShuttingDown || !self.is_operational()),
    {
        state == ContainerState::ShuttingDown || !self.operational
    }

    /// A connection succeeded: the failure count starts over.
    pub fn on_connected(&mut self)
        requires
            old(self).wf(),
        ensures
            final(self).wf(),
            final(self).retries() == 0,
            final(self).max_retries() == old(self).max_retries(),
            final(self).is_operational() == old(self).is_operational(),
    {
        self.send_retries = 0;
    }

    /// Whether one more failure can be counted (see `failure_fits`).
    pub fn can_count_failure(&self) -> (b: bool)
        ensures
            b == self.failure_fits(),
    {
        (self.send_retries as u16) + 1 >= (self.max_send_retries as u16) || (self.send_retries
            as u16) + 1 < 64
    }

    /// A connection attempt or a send failed: counts it and says whether to wait and retry or to
    /// give up, in which case the client stops operating.
    pub fn on_failure(&mut self) -> (outcome: FailureOutcome)
        requires
            old(self).wf(),
            old(self).is_operational(),
            old(self).failure_fits(),
        ensures
            final(self).wf(),
            final(self).retries() == old(self).retries() + 1,
            final(self).max_retries() == old(self).max_retries(),
            outcome == failure_outcome(final(self).retries(), final(self).max_retries()),
            final(self).is_operational() == (outcome != FailureOutcome::GiveUp),
    {
        self.send_retries = self.send_retries + 1;
        if self.send_retries >= self.max_send_retries {
            self.operational = false;
            FailureOutcome::GiveUp
        } else {
            proof {
                lemma_two_pow_bound(self.send_retries as nat);
            }
            FailureOutcome::Retry { backoff_secs: pow2(self.send_retries as u32) / 2 }
        }
    }
}

/// From a fresh start, a client that fails every time tries exactly `max` times (at least
/// once) before it gives up; every earlier failure waits before the next try.
pub proof fn lemma_gives_up_after_max_failures(max: nat, n: nat)
    requires
        1 <= n,
    ensures
        (failure_outcome(n, max) == FailureOutcome::GiveUp) <==> n >= max,
{
}

/// The waits between connection attempts double: 1, 2, 4, 8 seconds after the first four
/// failures.
pub proof fn lemma_backoff_doubles(max: nat)
    requires
        max > 4,
    ensures
        failure_outcome(1, max) == (FailureOutcome::Retry { backoff_secs: 1 }),
        failure_outcome(2, max) == (FailureOutcome::Retry { backoff_secs: 2 }),
        failure_outcome(3, max) == (FailureOutcome::Retry { backoff_secs: 4 }),
        failure_outcome(4, max) == (FailureOutcome::Retry { backoff_secs: 8 }),
{
    reveal_with_fuel(two_pow, 5);
}

} // verus!
