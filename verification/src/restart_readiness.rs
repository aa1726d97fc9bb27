//! Fail-closed restart readiness: the admission fence, its marker files and
//! the decisions taken on what the app-server reports.

pub mod drain;
pub mod drain_controller;
pub mod drain_marker;
pub mod live_drain;
pub mod maintenance;
pub mod thread_state;

use std::time::Duration;

use vstd::prelude::*;

verus! {

/// Whether a restart may proceed now.
#[derive(Clone, Debug, Eq, PartialEq)]
pub enum RestartReadinessState {
    Ready,
    Blocked { reason: String },
}

/// Timing of a restart readiness wait.
#[derive(Clone, Copy, Debug)]
pub struct RestartReadinessOptions {
    pub quiet: Duration,
    pub wait_timeout: Duration,
    pub poll_interval: Duration,
    pub request_timeout: Duration,
    pub startup_timeout: Duration,
    pub close_timeout: Duration,
}

/// Why restart readiness could not be decided.
#[derive(Debug, Clone, PartialEq, Eq)]
pub enum RestartReadinessError {
    StartupTimeout { timeout_ms: u128 },
    CloseTimeout { timeout_ms: u128 },
    InvalidThreadState { thread_id: String, reason: String },
    DeadlineExceeded { last_reason: String },
    InvalidCodexHome(String),
}

/// What a readiness wait does after one check.
#[derive(Debug, Clone, PartialEq, Eq)]
pub enum WaitStep {
    /// The runtime is ready.
    Done,
    /// The wait timed out with this last blocking reason.
    Fail(RestartReadinessError),
    /// Check again after this many milliseconds.
    Sleep(u64),
}

/// The step after a check found `state`, `elapsed_ms` into a wait of
/// `wait_timeout_ms`, polling every `poll_interval_ms`.
pub fn wait_step(state: RestartReadinessState, elapsed_ms: u64, wait_timeout_ms: u64, poll_interval_ms: u64) -> (r: WaitStep)
    ensures
        state is Ready ==> r == WaitStep::Done,
        state matches RestartReadinessState::Blocked { reason } ==> if elapsed_ms >= wait_timeout_ms {
            r == WaitStep::Fail(RestartReadinessError::DeadlineExceeded { last_reason: reason })
        } else {
            r == WaitStep::Sleep(
                if poll_interval_ms < wait_timeout_ms - elapsed_ms {
                    poll_interval_ms
                } else {
                    (wait_timeout_ms - elapsed_ms) as u64
                },
            )
        },
{
    match state {
        RestartReadinessState::Ready => WaitStep::Done,
        RestartReadinessState::Blocked { reason } => {
            if elapsed_ms >= wait_timeout_ms {
                WaitStep::Fail(RestartReadinessError::DeadlineExceeded { last_reason: reason })
            } else {
                let remaining = wait_timeout_ms - elapsed_ms;
                WaitStep::Sleep(if poll_interval_ms < remaining { poll_interval_ms } else { remaining })
            }
        },
    }
}

/// Reason given when the approved absence changed during the inspection.
pub const ABSENCE_CHANGED: &'static str = "approved absence changed during maintenance inspection";

/// Reason given when the durable restart state changed during the inspection.
pub const STATE_CHANGED: &'static str = "Rust durable restart state changed during app-server inspection";

/// The first blocker the durable restart state reports, if any.
pub fn durable_blocker(blockers: &[String]) -> (r: Option<RestartReadinessState>)
    ensures
        blockers.len() == 0 ==> r is None,
        blockers.len() > 0 ==> (r matches Some(RestartReadinessState::Blocked { reason }) && reason@
            == blockers@[0]@),
{
    if blockers.len() == 0 {
        None
    } else {
        Some(RestartReadinessState::Blocked { reason: blockers[0].clone() })
    }
}

/// A thread the app-server is asked about: every target thread except the
/// one a maintenance ticket proves absent.
pub fn inspects_thread(absent_thread: Option<&str>, thread: &str) -> (r: bool)
    ensures
        r == match absent_thread {
            Some(a) => a@ != thread@,
            None => true,
        },
{
    match absent_thread {
        Some(a) => !crate::text::same_text(a, thread),
        None => true,
    }
}

/// The verdict once every inspected thread was quiet: ready only when the
/// absence proof and the durable state are what they were before.
pub fn final_verdict(proof_unchanged: bool, state_unchanged: bool) -> (r: RestartReadinessState)
    ensures
        !proof_unchanged ==> (r matches RestartReadinessState::Blocked { reason } && reason@ == ABSENCE_CHANGED@),
        proof_unchanged && !state_unchanged ==> (r matches RestartReadinessState::Blocked { reason } && reason@
            == STATE_CHANGED@),
        proof_unchanged && state_unchanged ==> r == RestartReadinessState::Ready,
{
    if !proof_unchanged {
        RestartReadinessState::Blocked { reason: ABSENCE_CHANGED.to_owned() }
    } else if !state_unchanged {
        RestartReadinessState::Blocked { reason: STATE_CHANGED.to_owned() }
    } else {
        RestartReadinessState::Ready
    }
}

/// How closing the inspection's app-server went.
#[derive(Clone, Debug, PartialEq, Eq)]
pub enum CloseOutcome {
    /// The close did not finish in time.
    TimedOut,
    /// The close failed.
    Failed,
    /// The app-server closed.
    Closed,
}

/// The result of a readiness wait, once its app-server is closed: a close
/// that timed out wins; a close that failed is returned as its own error,
/// which `None` stands for; otherwise the wait's own outcome stands.
pub fn after_close(close: CloseOutcome, close_timeout_ms: u128, outcome: Result<(), RestartReadinessError>) -> (r: Option<
    Result<(), RestartReadinessError>,
>)
    ensures
        close == CloseOutcome::TimedOut ==> r == Some(Err::<(), RestartReadinessError>(
            RestartReadinessError::CloseTimeout { timeout_ms: close_timeout_ms },
        )),
        close == CloseOutcome::Failed ==> r is None,
        close == CloseOutcome::Closed ==> r == Some(outcome),
{
    match close {
        CloseOutcome::TimedOut => Some(Err(RestartReadinessError::CloseTimeout { timeout_ms: close_timeout_ms })),
        CloseOutcome::Failed => None,
        CloseOutcome::Closed => Some(outcome),
    }
}

} // verus!
