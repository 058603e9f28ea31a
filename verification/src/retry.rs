//! The connection establisher's retry policy: a fixed ceiling of
//! attempts with a fixed delay between them — no backoff, no jitter,
//! since the expected failure is only a peer that has not started yet.
//! Exhausting the ceiling is fatal; the caller surfaces the last error.

use vstd::prelude::*;

verus! {

/// How many connection attempts are made before giving up.
pub const MAX_CONNECT_ATTEMPTS: u32 = 5;

/// The fixed pause between two attempts, in milliseconds.
pub const RETRY_DELAY_MS: u64 = 1000;

/// What to do after a failed connection attempt.
#[derive(Clone, Copy, Debug, PartialEq, Eq, Structural)]
pub enum RetryDecision {
    /// Sleep the fixed delay, then attempt again.
    RetryAfterDelay { delay_ms: u64 },
    /// The ceiling is reached: give up and surface the last error.
    GiveUp,
}

/// The connector's state: how many attempts have failed so far.
pub struct RetryState {
    pub attempts_made: u32,
}

impl RetryState {
    /// The state never counts past the ceiling.
    pub open spec fn well_formed(&self) -> bool {
        self.attempts_made <= MAX_CONNECT_ATTEMPTS
    }

    /// A fresh connector that has attempted nothing yet.
    pub fn new() -> (s: RetryState)
        ensures
            s.well_formed(),
            s.attempts_made == 0,
    {
        RetryState { attempts_made: 0 }
    }

    /// Records one failed attempt: retry after the fixed delay while
    /// attempts remain, give up exactly when the ceiling is reached.
    pub fn record_failure(&mut self) -> (d: RetryDecision)
        requires
            old(self).well_formed(),
            old(self).attempts_made < MAX_CONNECT_ATTEMPTS,
        ensures
            final(self).well_formed(),
            final(self).attempts_made == old(self).attempts_made + 1,
            final(self).attempts_made < MAX_CONNECT_ATTEMPTS ==> d == (
            RetryDecision::RetryAfterDelay { delay_ms: RETRY_DELAY_MS }),
            final(self).attempts_made == MAX_CONNECT_ATTEMPTS ==> d == RetryDecision::GiveUp,
    {
        self.attempts_made = self.attempts_made + 1;
        if self.attempts_made >= MAX_CONNECT_ATTEMPTS {
            RetryDecision::GiveUp
        } else {
            RetryDecision::RetryAfterDelay { delay_ms: RETRY_DELAY_MS }
        }
    }
}

/// How a whole connection session ended.
pub struct SessionResult {
    /// How many attempts were made.
    pub attempts: usize,
    /// Whether the last of them connected.
    pub connected: bool,
}

/// Runs the retry policy against a row of attempt outcomes (`true` is a
/// successful connect): attempts stop at the first success, and a
/// connector that never succeeds makes exactly `MAX_CONNECT_ATTEMPTS`
/// attempts before failing for good.
pub fn connect_session(outcomes: &Vec<bool>) -> (r: SessionResult)
    requires
        outcomes@.len() >= MAX_CONNECT_ATTEMPTS,
    ensures
        1 <= r.attempts <= MAX_CONNECT_ATTEMPTS,
        forall|j: int| 0 <= j < r.attempts - 1 ==> !outcomes@[j],
        r.connected == outcomes@[r.attempts - 1],
        !r.connected ==> r.attempts == MAX_CONNECT_ATTEMPTS,
{
    let mut state = RetryState::new();
    loop
        invariant
            state.well_formed(),
            state.attempts_made < MAX_CONNECT_ATTEMPTS,
            outcomes@.len() >= MAX_CONNECT_ATTEMPTS,
            forall|j: int| 0 <= j < state.attempts_made ==> !outcomes@[j],
        decreases MAX_CONNECT_ATTEMPTS - state.attempts_made,
    {
        let attempt_index = state.attempts_made as usize;
        let connected = outcomes[attempt_index];
        if connected {
            return SessionResult { attempts: attempt_index + 1, connected: true };
        }
        match state.record_failure() {
            RetryDecision::GiveUp => {
                return SessionResult { attempts: attempt_index + 1, connected: false };
            },
            RetryDecision::RetryAfterDelay { delay_ms: _ } => {},
        }
    }
}

} // verus!
