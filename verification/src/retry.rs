//! The connect-retry policy for the channel endpoint.
//!
//! Opening the channel can find it busy. The relay then waits a bounded
//! per-attempt interval and tries again, under a single overall deadline:
//! it never gives up while the deadline has not passed and the endpoint is
//! merely busy, and it never retries past the deadline. Any report other
//! than busy ends the loop at once, successfully or with that failure.
//!
//! The driving loop owns the clock: it performs the wait this policy
//! prescribes and adds the time that actually elapsed (at least the
//! prescribed wait) to `elapsed_ms` before asking again.

use vstd::prelude::*;

verus! {

/// The bounds of the retry loop: one overall deadline and one per-attempt
/// wait, both in milliseconds.
#[derive(Clone, Copy, Debug, PartialEq, Eq, Structural)]
pub struct RetryPolicy {
    /// Total budget: once this much time has elapsed, a busy report becomes
    /// a timeout failure.
    pub max_wait_ms: u64,
    /// How long to wait after one busy report before trying again; capped by
    /// the time left under the deadline.
    pub per_attempt_wait_ms: u64,
}

impl RetryPolicy {
    /// A per-attempt wait of zero would retry in a hot loop and could spin
    /// forever under the deadline; the policy always waits at least 1 ms.
    pub open spec fn wf(self) -> bool {
        self.per_attempt_wait_ms >= 1
    }

    /// The policy the relay uses for the channel endpoint: a 20 second
    /// overall budget, waited out in one attempt-sized piece at a time.
    pub fn channel_connect() -> (p: RetryPolicy)
        ensures
            p.wf(),
            p.max_wait_ms == 20000,
            p.per_attempt_wait_ms == 20000,
    {
        RetryPolicy { max_wait_ms: 20000, per_attempt_wait_ms: 20000 }
    }
}

/// What one attempt to open the channel endpoint reported.
#[derive(Clone, Copy, Debug, PartialEq, Eq, Structural)]
pub enum ConnectAttempt {
    /// The endpoint opened.
    Connected,
    /// The endpoint exists but is busy; worth retrying.
    Busy,
    /// Any other failure, with its OS error code; never retried.
    Refused(u32),
}

/// What the retry loop must do next.
#[derive(Clone, Copy, Debug, PartialEq, Eq, Structural)]
pub enum ConnectStep {
    /// Connected: hand the endpoint on.
    Done,
    /// Busy under the deadline: wait this many milliseconds, then try again.
    WaitThenRetry(u64),
    /// Busy with the deadline passed: fail with a timeout-class error.
    GiveUpTimedOut,
    /// A hard failure: fail with this OS error code.
    GiveUpRefused(u32),
}

/// The wait a busy report earns with this much time already elapsed: the
/// per-attempt wait, capped so the deadline is never overshot.
pub open spec fn prescribed_wait(policy: RetryPolicy, elapsed_ms: u64) -> u64
    recommends
        elapsed_ms < policy.max_wait_ms,
{
    if policy.per_attempt_wait_ms <= policy.max_wait_ms - elapsed_ms {
        policy.per_attempt_wait_ms
    } else {
        (policy.max_wait_ms - elapsed_ms) as u64
    }
}

/// Decides one round of the connect-retry loop.
///
/// Success and hard failure end the loop at once. A busy report is retried
/// if and only if the overall deadline has not yet passed, after a wait of
/// at least 1 ms that never runs past the deadline; once `elapsed_ms`
/// reaches the deadline, a busy report fails with the timeout-class error —
/// the loop neither hangs forever nor gives up early.
pub fn connect_step(policy: RetryPolicy, elapsed_ms: u64, attempt: ConnectAttempt) -> (r:
    ConnectStep)
    requires
        policy.wf(),
    ensures
        attempt == ConnectAttempt::Connected ==> r == ConnectStep::Done,
        attempt matches ConnectAttempt::Refused(code) ==> r == ConnectStep::GiveUpRefused(code),
        attempt == ConnectAttempt::Busy && elapsed_ms >= policy.max_wait_ms ==> r == (
            ConnectStep::GiveUpTimedOut
        ),
        attempt == ConnectAttempt::Busy && elapsed_ms < policy.max_wait_ms ==> r == (
            ConnectStep::WaitThenRetry(prescribed_wait(policy, elapsed_ms))
        ),
        r matches ConnectStep::WaitThenRetry(w) ==> 1 <= w && elapsed_ms + w
            <= policy.max_wait_ms,
{
    match attempt {
        ConnectAttempt::Connected => ConnectStep::Done,
        ConnectAttempt::Refused(code) => ConnectStep::GiveUpRefused(code),
        ConnectAttempt::Busy => {
            if elapsed_ms >= policy.max_wait_ms {
                ConnectStep::GiveUpTimedOut
            } else {
                let left: u64 = policy.max_wait_ms - elapsed_ms;
                if policy.per_attempt_wait_ms <= left {
                    ConnectStep::WaitThenRetry(policy.per_attempt_wait_ms)
                } else {
                    ConnectStep::WaitThenRetry(left)
                }
            }
        },
    }
}

/// The elapsed time after `rounds` busy rounds, starting from `elapsed_ms`,
/// when every round waits exactly the prescribed wait. (A real clock can
/// only run further ahead, which reaches the deadline no later.)
pub open spec fn elapsed_after_busy(policy: RetryPolicy, elapsed_ms: u64, rounds: nat) -> int
    decreases rounds,
{
    if rounds == 0 {
        elapsed_ms as int
    } else {
        let before = elapsed_after_busy(policy, elapsed_ms, (rounds - 1) as nat);
        if before >= policy.max_wait_ms {
            before
        } else {
            before + prescribed_wait(policy, before as u64)
        }
    }
}

/// The retry loop never hangs: each busy round moves the clock forward by at
/// least 1 ms until the deadline is reached exactly, so after at most
/// `max_wait_ms` busy rounds the elapsed time stands at the deadline and the
/// next busy report fails with the timeout-class error.
pub proof fn lemma_busy_rounds_reach_deadline(policy: RetryPolicy, rounds: nat)
    requires
        policy.wf(),
    ensures
        elapsed_after_busy(policy, 0, rounds) <= policy.max_wait_ms,
        elapsed_after_busy(policy, 0, rounds) >= if rounds <= policy.max_wait_ms {
            rounds as int
        } else {
            policy.max_wait_ms as int
        },
    decreases rounds,
{
    if rounds > 0 {
        lemma_busy_rounds_reach_deadline(policy, (rounds - 1) as nat);
    }
}

} // verus!
