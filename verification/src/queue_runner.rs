//! Durable queue coordination: retry schedule, failure classification,
//! recovery bookkeeping and the throttled log of unavailable targets.

pub mod completion;
pub mod fork_handoff;
pub mod job;
pub mod recovery;
pub mod start;
pub mod submission;
pub mod retry;
pub mod types;
pub mod unavailable_log;

pub use retry::retry_delay_seconds;
pub use fork_handoff::AppServerTarget;
pub use recovery::RecoveryReport;
pub use types::{
    BackendFailure, BackendFailureKind, BusyStatus, FailurePrefixes, QueueRunnerError, Submission,
    TurnRecord, TurnStatus, is_active_writer_message,
};

use vstd::prelude::*;

use job::{QueueJobRecord, QueueJobState, copy_opt, opt_text, owns_target};

verus! {

/// A generation as the signed integer the store keeps.
pub fn generation_i64(generation: u64) -> (r: Result<i64, QueueRunnerError>)
    ensures
        generation <= i64::MAX ==> (r matches Ok(g) && g == generation),
        generation > i64::MAX ==> r matches Err(QueueRunnerError::IntegerRange),
{
    if generation <= i64::MAX as u64 {
        Ok(generation as i64)
    } else {
        Err(QueueRunnerError::IntegerRange)
    }
}

/// A Discord id as the signed integer the store keeps.
pub fn id_i64(id: u64) -> (r: Result<i64, QueueRunnerError>)
    ensures
        id <= i64::MAX ==> (r matches Ok(g) && g == id),
        id > i64::MAX ==> r matches Err(QueueRunnerError::IntegerRange),
{
    if id <= i64::MAX as u64 {
        Ok(id as i64)
    } else {
        Err(QueueRunnerError::IntegerRange)
    }
}

/// A job that a control command may be bound to: starting or running and
/// not waiting on a goal.
pub open spec fn control_candidate(job: QueueJobRecord) -> bool {
    owns_target(job.state) && !job.goal_waiting
}

/// Number of control candidates among `jobs[..n]`.
pub open spec fn candidate_count(jobs: Seq<QueueJobRecord>, n: int) -> nat
    decreases n,
{
    if n <= 0 {
        0
    } else {
        candidate_count(jobs, n - 1) + if control_candidate(jobs[n - 1]) { 1nat } else { 0nat }
    }
}

/// The turn and job a control command binds to: the active turn when there
/// is one; otherwise the single starting or running job, if exactly one.
pub fn control_binding_from(active: Option<String>, jobs: &[QueueJobRecord]) -> (r: (Option<String>, Option<String>))
    ensures
        active is Some ==> opt_text(r.0) == opt_text(active) && r.1 is None,
        active is None && candidate_count(jobs@, jobs.len() as int) != 1 ==> r.0 is None && r.1 is None,
        active is None && candidate_count(jobs@, jobs.len() as int) == 1 ==> exists|i: int|
            0 <= i < jobs.len() && control_candidate(#[trigger] jobs@[i]) && opt_text(r.0) == opt_text(
                jobs@[i].turn_id,
            ) && (r.1 matches Some(id) && id@ == jobs@[i].job_id@),
{
    if active.is_some() {
        return (active, None);
    }
    let mut count: usize = 0;
    let mut found: usize = 0;
    let mut i: usize = 0;
    while i < jobs.len()
        invariant
            i <= jobs.len(),
            count == candidate_count(jobs@, i as int),
            count <= i,
            count >= 1 ==> found < i && control_candidate(jobs@[found as int]),
            count == 0 ==> forall|j: int| 0 <= j < i ==> !control_candidate(#[trigger] jobs@[j]),
            count == 1 ==> forall|j: int| 0 <= j < i && j != found ==> !control_candidate(#[trigger] jobs@[j]),
        decreases jobs.len() - i,
    {
        let job = &jobs[i];
        let is_candidate = (job.state == QueueJobState::Starting || job.state == QueueJobState::Running)
            && !job.goal_waiting;
        if is_candidate {
            if count == 0 {
                found = i;
            }
            count = count + 1;
        }
        i = i + 1;
    }
    if count == 1 {
        (copy_opt(&jobs[found].turn_id), Some(jobs[found].job_id.clone()))
    } else {
        (None, None)
    }
}

/// The busy state of a target from its live and durable observations.
pub fn busy_status_from(active_turn: bool, queued_outside_quarantine: bool) -> (r: BusyStatus)
    ensures
        r.busy == (active_turn || queued_outside_quarantine),
        r.allow_steer == active_turn,
{
    BusyStatus { busy: active_turn || queued_outside_quarantine, allow_steer: active_turn }
}

} // verus!
