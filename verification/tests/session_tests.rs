use framed_relay::endpoint::{resolve_endpoint, resolve_endpoint_for, EndpointId};
use framed_relay::listener::{
    accept_step, bind_failure_plan, bind_outcome, AcceptAction, BindOutcome, BindPlan,
    ACCEPT_RETRY_DELAY_MS,
};
use framed_relay::retry::{
    connect_session, RetryDecision, RetryState, MAX_CONNECT_ATTEMPTS, RETRY_DELAY_MS,
};

const BASE_NAME: &str = "com.yourcompany.projectagentis.broker.sock";

fn fs_endpoint() -> EndpointId {
    resolve_endpoint_for(false)
}

fn ns_endpoint() -> EndpointId {
    resolve_endpoint_for(true)
}

#[test]
fn resolver_namespaced_uses_the_fixed_name() {
    match ns_endpoint() {
        EndpointId::Namespaced { name } => assert_eq!(name, BASE_NAME),
        EndpointId::Path { .. } => panic!("namespaced platform must get a namespaced id"),
    }
}

#[test]
fn resolver_fallback_concatenates_temp_prefix_and_name() {
    match fs_endpoint() {
        EndpointId::Path { path } => {
            assert_eq!(path, format!("/tmp/{}", BASE_NAME));
        }
        EndpointId::Namespaced { .. } => panic!("fallback platform must get a path id"),
    }
}

#[test]
fn resolver_is_stable_across_calls() {
    // The connector and the listener resolve independently; on one
    // platform they must meet at the identical endpoint.
    let a = resolve_endpoint();
    let b = resolve_endpoint();
    match (a, b) {
        (EndpointId::Namespaced { name: n1 }, EndpointId::Namespaced { name: n2 }) => {
            assert_eq!(n1, n2);
            assert_eq!(n1, BASE_NAME);
        }
        (EndpointId::Path { path: p1 }, EndpointId::Path { path: p2 }) => {
            assert_eq!(p1, p2);
            assert_eq!(p1, format!("/tmp/{}", BASE_NAME));
        }
        _ => panic!("the two resolutions disagreed on the strategy"),
    }
}

#[test]
fn retry_ceiling_is_exact() {
    // No listener ever answers: exactly MAX_CONNECT_ATTEMPTS attempts
    // are made, then the failure is final.
    let outcomes = vec![false; MAX_CONNECT_ATTEMPTS as usize];
    let r = connect_session(&outcomes);
    assert_eq!(r.attempts, MAX_CONNECT_ATTEMPTS as usize);
    assert!(!r.connected);
}

#[test]
fn retry_stops_at_first_success() {
    let outcomes = vec![false, false, true, false, false];
    let r = connect_session(&outcomes);
    assert_eq!(r.attempts, 3);
    assert!(r.connected);
}

#[test]
fn retry_decisions_space_attempts_by_the_fixed_delay() {
    let mut state = RetryState::new();
    for _ in 0..(MAX_CONNECT_ATTEMPTS - 1) {
        assert_eq!(
            state.record_failure(),
            RetryDecision::RetryAfterDelay { delay_ms: RETRY_DELAY_MS }
        );
    }
    assert_eq!(state.record_failure(), RetryDecision::GiveUp);
}

#[test]
fn stale_filesystem_endpoint_is_recovered_once() {
    // A leftover socket file with no listener: the occupied bind error
    // leads to one removal and one successful retry.
    let endpoint = fs_endpoint();
    assert_eq!(
        bind_failure_plan(&endpoint, true, true),
        BindPlan::RemoveStaleAndRetry
    );
    assert_eq!(
        bind_outcome(&endpoint, false, true, true, true, true),
        BindOutcome::Bound { recovered: true }
    );
}

#[test]
fn unremovable_stale_endpoint_is_fatal_without_looping() {
    let endpoint = fs_endpoint();
    assert_eq!(
        bind_outcome(&endpoint, false, true, true, false, true),
        BindOutcome::Fatal
    );
}

#[test]
fn occupied_error_without_a_file_is_fatal() {
    let endpoint = fs_endpoint();
    assert_eq!(bind_failure_plan(&endpoint, true, false), BindPlan::Fatal);
    assert_eq!(
        bind_outcome(&endpoint, false, true, false, true, true),
        BindOutcome::Fatal
    );
}

#[test]
fn occupied_namespaced_endpoint_is_fatal() {
    let endpoint = ns_endpoint();
    assert_eq!(bind_failure_plan(&endpoint, true, true), BindPlan::Fatal);
    assert_eq!(
        bind_outcome(&endpoint, false, true, true, true, true),
        BindOutcome::Fatal
    );
}

#[test]
fn second_bind_failure_is_fatal() {
    let endpoint = fs_endpoint();
    assert_eq!(
        bind_outcome(&endpoint, false, true, true, true, false),
        BindOutcome::Fatal
    );
}

#[test]
fn clean_first_bind_needs_no_recovery() {
    let endpoint = fs_endpoint();
    assert_eq!(
        bind_outcome(&endpoint, true, false, false, false, false),
        BindOutcome::Bound { recovered: false }
    );
}

#[test]
fn accept_loop_never_stops() {
    assert_eq!(accept_step(true), AcceptAction::DispatchHandler);
    assert_eq!(
        accept_step(false),
        AcceptAction::DelayThenRetry { delay_ms: ACCEPT_RETRY_DELAY_MS }
    );
}
