//! The readiness waiter: polls for a file at a fixed interval until it
//! appears or the timeout has elapsed.

use vstd::prelude::*;

verus! {

/// Milliseconds between two polls.
pub const POLL_INTERVAL_MS: u64 = 200;

/// What the waiter does after one poll.
#[derive(Clone, Copy, Debug, PartialEq, Eq, Structural)]
pub enum PollDecision {
    /// The file exists: success.
    Ready,
    /// The timeout has elapsed: failure.
    TimedOut,
    /// Sleep this many milliseconds, then poll again.
    Wait(u64),
}

/// The decision after a poll at `elapsed` milliseconds: the file's existence
/// wins, then the timeout; otherwise sleep one interval, cut short so that
/// the next poll falls no later than the timeout.
pub open spec fn poll_spec(exists: bool, elapsed: nat, timeout: nat) -> PollDecision {
    if exists {
        PollDecision::Ready
    } else if elapsed >= timeout {
        PollDecision::TimedOut
    } else if timeout - elapsed < POLL_INTERVAL_MS {
        PollDecision::Wait((timeout - elapsed) as u64)
    } else {
        PollDecision::Wait(POLL_INTERVAL_MS)
    }
}

/// Decides what follows a poll.
pub fn poll_decision(exists: bool, elapsed_ms: u64, timeout_ms: u64) -> (r: PollDecision)
    ensures
        r == poll_spec(exists, elapsed_ms as nat, timeout_ms as nat),
{
    if exists {
        PollDecision::Ready
    } else if elapsed_ms >= timeout_ms {
        PollDecision::TimedOut
    } else if timeout_ms - elapsed_ms < POLL_INTERVAL_MS {
        PollDecision::Wait(timeout_ms - elapsed_ms)
    } else {
        PollDecision::Wait(POLL_INTERVAL_MS)
    }
}

/// How a wait that polls first at time `t` ends, when the file appears at
/// time `appears` (never, for `None`) and polls and sleeps take no other
/// time: success or failure, and the time it returns.
pub open spec fn wait_from(appears: Option<nat>, timeout: nat, t: nat) -> (bool, nat)
    decreases timeout - t,
{
    let exists = appears matches Some(a) && a <= t;
    match poll_spec(exists, t, timeout) {
        PollDecision::Ready => (true, t),
        PollDecision::TimedOut => (false, t),
        PollDecision::Wait(d) => {
            if d > 0 && t < timeout {
                wait_from(appears, timeout, (t + d) as nat)
            } else {
                (false, t)
            }
        },
    }
}

proof fn lemma_wait_from(appears: Option<nat>, timeout: nat, t: nat)
    requires
        t <= timeout,
    ensures
        appears is None ==> wait_from(appears, timeout, t) == (false, timeout),
        appears is Some && t <= appears->0 <= timeout ==> {
            &&& wait_from(appears, timeout, t).0
            &&& appears->0 <= wait_from(appears, timeout, t).1 < appears->0 + POLL_INTERVAL_MS
        },
    decreases timeout - t,
{
    let exists = appears matches Some(a) && a <= t;
    if !exists && t < timeout {
        let d = if timeout - t < POLL_INTERVAL_MS {
            (timeout - t) as nat
        } else {
            POLL_INTERVAL_MS as nat
        };
        let t2 = (t + d) as nat;
        lemma_wait_from(appears, timeout, t2);
        if appears is Some && appears->0 <= t2 {
            assert(wait_from(appears, timeout, t2) == (true, t2));
        }
    }
}

/// The waiter's timing: a file that appears at `a` within the timeout is
/// reported at the first poll from `a` on, less than one interval later; a
/// file that never appears is reported missing exactly at the timeout.
pub proof fn lemma_wait_timing(appears: Option<nat>, timeout: nat)
    ensures
        appears is None ==> wait_from(appears, timeout, 0) == (false, timeout),
        appears is Some && appears->0 <= timeout ==> {
            &&& wait_from(appears, timeout, 0).0
            &&& appears->0 <= wait_from(appears, timeout, 0).1 < appears->0 + POLL_INTERVAL_MS
        },
{
    lemma_wait_from(appears, timeout, 0);
}

} // verus!
