//! The listener's decisions: recovering the bind from a stale endpoint
//! left by an unclean prior shutdown, and keeping the accept loop alive
//! across transient failures.
//!
//! A bind refused because the endpoint is occupied is recovered exactly
//! once, and only on filesystem-path endpoints whose path really
//! exists: the stale file is removed and the bind retried. Everything
//! else — a namespaced endpoint, a missing path, a failed removal, a
//! second refusal — is fatal; the listener never loops guessing.

use vstd::prelude::*;

verus! {

use crate::endpoint::EndpointId;

/// The pause before retrying `accept` after a transient failure, in
/// milliseconds.
pub const ACCEPT_RETRY_DELAY_MS: u64 = 1000;

/// What to do when the first bind attempt fails.
#[derive(Clone, Copy, Debug, PartialEq, Eq, Structural)]
pub enum BindPlan {
    /// Remove the stale endpoint file, then retry the bind once.
    RemoveStaleAndRetry,
    /// Surface the original bind error; no recovery is defined.
    Fatal,
}

/// How the whole bind procedure ended.
#[derive(Clone, Copy, Debug, PartialEq, Eq, Structural)]
pub enum BindOutcome {
    /// The listener is bound; `recovered` says whether a stale endpoint
    /// had to be removed first.
    Bound { recovered: bool },
    /// The bind failed for good; the original error is surfaced.
    Fatal,
}

/// Decides what a failed first bind attempt means: recovery is tried
/// exactly when the endpoint is occupied, lives on the filesystem, and
/// its path actually exists.
pub fn bind_failure_plan(endpoint: &EndpointId, addr_in_use: bool, path_exists: bool) -> (p:
    BindPlan)
    ensures
        p == BindPlan::RemoveStaleAndRetry <==> (addr_in_use && endpoint is Path && path_exists),
{
    if addr_in_use && path_exists {
        match endpoint {
            EndpointId::Path { path: _ } => BindPlan::RemoveStaleAndRetry,
            EndpointId::Namespaced { name: _ } => BindPlan::Fatal,
        }
    } else {
        BindPlan::Fatal
    }
}

/// The whole bind procedure over the facts the system reports: whether
/// each bind attempt succeeds, whether the first failure was an
/// occupied-endpoint error, whether the endpoint path exists, and
/// whether removing it works. A stale filesystem endpoint is recovered
/// by exactly one removal and one retry; every other failure is fatal
/// at once.
pub fn bind_outcome(
    endpoint: &EndpointId,
    first_bind_ok: bool,
    addr_in_use: bool,
    path_exists: bool,
    remove_ok: bool,
    second_bind_ok: bool,
) -> (o: BindOutcome)
    ensures
        first_bind_ok ==> o == (BindOutcome::Bound { recovered: false }),
        !first_bind_ok && !(addr_in_use && endpoint is Path && path_exists) ==> o
            == BindOutcome::Fatal,
        !first_bind_ok && (addr_in_use && endpoint is Path && path_exists) && !remove_ok ==> o
            == BindOutcome::Fatal,
        !first_bind_ok && (addr_in_use && endpoint is Path && path_exists) && remove_ok ==> (if second_bind_ok {
            o == (BindOutcome::Bound { recovered: true })
        } else {
            o == BindOutcome::Fatal
        }),
{
    if first_bind_ok {
        return BindOutcome::Bound { recovered: false };
    }
    match bind_failure_plan(endpoint, addr_in_use, path_exists) {
        BindPlan::Fatal => BindOutcome::Fatal,
        BindPlan::RemoveStaleAndRetry => {
            if !remove_ok {
                BindOutcome::Fatal
            } else if second_bind_ok {
                BindOutcome::Bound { recovered: true }
            } else {
                BindOutcome::Fatal
            }
        },
    }
}

/// What the accept loop does next.
#[derive(Clone, Copy, Debug, PartialEq, Eq, Structural)]
pub enum AcceptAction {
    /// Hand the accepted connection to an isolated handler and accept
    /// again; a handler's failure never reaches the loop.
    DispatchHandler,
    /// A transient accept failure: wait the fixed delay, then accept
    /// again. The loop never terminates on such an error.
    DelayThenRetry { delay_ms: u64 },
}

/// Decides one accept-loop step: dispatch on success, pause and retry
/// on failure — never stop.
pub fn accept_step(accept_ok: bool) -> (a: AcceptAction)
    ensures
        accept_ok ==> a == AcceptAction::DispatchHandler,
        !accept_ok ==> a == (AcceptAction::DelayThenRetry { delay_ms: ACCEPT_RETRY_DELAY_MS }),
{
    if accept_ok {
        AcceptAction::DispatchHandler
    } else {
        AcceptAction::DelayThenRetry { delay_ms: ACCEPT_RETRY_DELAY_MS }
    }
}

} // verus!
