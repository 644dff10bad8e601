use crate::utilities::backoff::{pow2, two_pow};
use vstd::prelude::*;

verus! {

/// How many times a message is offered to a full channel before it is given up.
pub const MAX_SEND_ATTEMPTS: u32 = 5;

/// Base of the exponential backoff between offers, in milliseconds.
pub const BACKOFF_BASE_MS: u64 = 100;

/// How an offer of a message to a channel went.
#[derive(Debug, Clone, Copy, PartialEq, Eq, Structural)]
pub enum SendOutcome {
    /// The channel took the message.
    Sent,
    /// The channel was full.
    Full,
    /// The channel's receiver is gone.
    Closed,
}

/// What to do after an offer of a message to a channel.
#[derive(Debug, Clone, Copy, PartialEq, Eq, Structural)]
pub enum RetryDecision {
    /// The message was taken: stop.
    Delivered,
    /// Wait this many milliseconds, then offer the message again.
    WaitMs(u64),
    /// The channel stayed full too long: stop offering the message.
    GiveUp,
    /// The channel is closed: stop at once, without waiting.
    ChannelClosed,
}

/// The decision after the `attempts`-th refusal: give up at the last attempt, otherwise wait
/// 100 ms times two to the number of refusals so far.
pub open spec fn decision_after(attempts: nat) -> RetryDecision {
    if attempts >= MAX_SEND_ATTEMPTS {
        RetryDecision::GiveUp
    } else {
        RetryDecision::WaitMs((BACKOFF_BASE_MS * two_pow(attempts)) as u64)
    }
}

/// The count of refusals of one message offered to a channel with retries.
pub struct SendRetry {
    attempts: u32,
}

impl SendRetry {
    /// Refusals so far.
    pub closed spec fn attempts(&self) -> nat {
        self.attempts as nat
    }

    /// A message not yet refused.
    pub fn new() -> (r: SendRetry)
        ensures
            r.attempts() == 0,
    {
        SendRetry { attempts: 0 }
    }

    /// Whether the message has been given up.
    pub fn exhausted(&self) -> (b: bool)
        ensures
            b == (self.attempts() >= MAX_SEND_ATTEMPTS),
    {
        self.attempts >= MAX_SEND_ATTEMPTS
    }

    /// Takes how an offer went: a taken message is delivered and a closed channel ends the offers
    /// at once, neither counting a refusal; a full channel counts one more refusal and says
    /// whether to wait and retry or give up.
    pub fn after_attempt(&mut self, outcome: SendOutcome) -> (d: RetryDecision)
        requires
            outcome == SendOutcome::Full ==> old(self).attempts() < MAX_SEND_ATTEMPTS,
        ensures
            outcome == SendOutcome::Sent ==> d == RetryDecision::Delivered && final(self).attempts()
                == old(self).attempts(),
            outcome == SendOutcome::Closed ==> d == RetryDecision::ChannelClosed
                && final(self).attempts() == old(self).attempts(),
            outcome == SendOutcome::Full ==> final(self).attempts() == old(self).attempts() + 1 && d
                == decision_after(final(self).attempts()),
    {
        match outcome {
            SendOutcome::Sent => RetryDecision::Delivered,
            SendOutcome::Closed => RetryDecision::ChannelClosed,
            SendOutcome::Full => self.on_full(),
        }
    }

    /// Counts one more refusal because the channel was full, and says whether to wait and retry
    /// or give up.
    fn on_full(&mut self) -> (d: RetryDecision)
        requires
            old(self).attempts() < MAX_SEND_ATTEMPTS,
        ensures
            final(self).attempts() == old(self).attempts() + 1,
            d == decision_after(final(self).attempts()),
    {
        self.attempts = self.attempts + 1;
        if self.attempts >= MAX_SEND_ATTEMPTS {
            RetryDecision::GiveUp
        } else {
            proof {
                crate::utilities::backoff::lemma_two_pow_bound(self.attempts as nat);
                assert(two_pow(self.attempts as nat) <= 16) by {
                    reveal_with_fuel(two_pow, 5);
                    crate::utilities::backoff::lemma_two_pow_monotone(self.attempts as nat, 4);
                }
            }
            RetryDecision::WaitMs(BACKOFF_BASE_MS * pow2(self.attempts))
        }
    }
}

/// Total wait before the `n`-th offer, over all refusals before it.
pub open spec fn total_wait_ms(n: nat) -> nat
    decreases n,
{
    if n <= 1 {
        0
    } else {
        total_wait_ms((n - 1) as nat) + match decision_after((n - 1) as nat) {
            RetryDecision::WaitMs(ms) => ms as nat,
            _ => 0,
        }
    }
}

/// A message is offered at most five times; the waits between offers are 200, 400, 800 and
/// 1600 ms, three seconds in all, and the fifth refusal gives it up.
pub proof fn lemma_retry_schedule()
    ensures
        decision_after(1) == RetryDecision::WaitMs(200),
        decision_after(2) == RetryDecision::WaitMs(400),
        decision_after(3) == RetryDecision::WaitMs(800),
        decision_after(4) == RetryDecision::WaitMs(1600),
        decision_after(5) == RetryDecision::GiveUp,
        total_wait_ms(5) == 3000,
{
    reveal_with_fuel(two_pow, 5);
    reveal_with_fuel(total_wait_ms, 5);
}

} // verus!
