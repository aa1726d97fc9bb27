//! Backoff schedule of queued jobs that failed before starting.

use vstd::prelude::*;

use super::job::{QueueJobRecord, QueueJobState, copy_opt, opt_text, owns_target};
use super::types::{BackendFailure, BackendFailureKind, FailurePrefixes, Submission, persisted_kind};
use crate::text::{chars_of, has_prefix, starts_with};

verus! {

/// Seconds to wait before retrying after `failure_count` consecutive failures:
/// none before a failure, then 30 s doubling per failure up to 480 s, and
/// 900 s from the sixth failure on.
pub open spec fn retry_delay(failure_count: int) -> u32 {
    if failure_count <= 0 {
        0
    } else if failure_count == 1 {
        30
    } else if failure_count == 2 {
        60
    } else if failure_count == 3 {
        120
    } else if failure_count == 4 {
        240
    } else if failure_count == 5 {
        480
    } else {
        900
    }
}

/// The retry delay, in seconds, after `failure_count` failures.
pub fn retry_delay_seconds(failure_count: i64) -> (r: u32)
    ensures
        r == retry_delay(failure_count as int),
{
    if failure_count <= 0 {
        0
    } else if failure_count == 1 {
        30
    } else if failure_count == 2 {
        60
    } else if failure_count == 3 {
        120
    } else if failure_count == 4 {
        240
    } else if failure_count == 5 {
        480
    } else {
        900
    }
}

/// The delay never shrinks as failures accumulate, and is capped at 900 s.
pub proof fn law_retry_delay_monotone(a: int, b: int)
    requires
        a <= b,
    ensures
        retry_delay(a) <= retry_delay(b),
        retry_delay(b) <= 900,
{
}

} // verus!

verus! {

/// A pending job that the Reserve policy does not hold.
pub open spec fn startable(job: QueueJobRecord, hold_prefix: Seq<char>) -> bool {
    job.state == QueueJobState::Pending && !has_prefix(job.last_error@, hold_prefix)
}

/// Index of the pending job that may start next.
pub fn eligible_pending_head(jobs: &[QueueJobRecord], hold_prefix: &str) -> (r: Option<usize>)
    ensures
        match r {
            Some(i) => i < jobs.len() && startable(jobs@[i as int], hold_prefix@)
                && (forall|j: int| 0 <= j < jobs.len() ==> !owns_target((#[trigger] jobs@[j]).state))
                && (forall|j: int| 0 <= j < i ==> !startable(#[trigger] jobs@[j], hold_prefix@)),
            None => (exists|j: int| 0 <= j < jobs.len() && owns_target((#[trigger] jobs@[j]).state))
                || (forall|j: int| 0 <= j < jobs.len() ==> !startable(#[trigger] jobs@[j], hold_prefix@)),
        },
{
    let mut k: usize = 0;
    while k < jobs.len()
        invariant
            k <= jobs.len(),
            forall|j: int| 0 <= j < k ==> !owns_target((#[trigger] jobs@[j]).state),
        decreases jobs.len() - k,
    {
        if jobs[k].state == QueueJobState::Starting || jobs[k].state == QueueJobState::Running {
            return None;
        }
        k = k + 1;
    }
    let hold = chars_of(hold_prefix);
    let mut i: usize = 0;
    while i < jobs.len()
        invariant
            i <= jobs.len(),
            hold@ == hold_prefix@,
            forall|j: int| 0 <= j < jobs.len() ==> !owns_target((#[trigger] jobs@[j]).state),
            forall|j: int| 0 <= j < i ==> !startable(#[trigger] jobs@[j], hold_prefix@),
        decreases jobs.len() - i,
    {
        if jobs[i].state == QueueJobState::Pending && !starts_with(
            &chars_of(jobs[i].last_error.as_str()),
            &hold,
        ) {
            return Some(i);
        }
        i = i + 1;
    }
    None
}

/// The warning a replayed job carries, by the state and message it was
/// left with.
pub open spec fn replay_warning(job: QueueJobRecord, prefixes: &FailurePrefixes) -> Option<(Seq<char>, bool, BackendFailureKind)> {
    let m = job.last_error@;
    if job.state == QueueJobState::Quarantined {
        Some((m, true, BackendFailureKind::Quarantined))
    } else if has_prefix(m, prefixes.unresolved_fork@) {
        Some((m, true, BackendFailureKind::ForkFenced))
    } else if has_prefix(m, prefixes.starting_candidate_hold@) {
        Some((m, true, BackendFailureKind::StartingCandidatesHeld))
    } else if has_prefix(m, prefixes.reserve_hold@) {
        Some((m, true, BackendFailureKind::AutoReserveHeld))
    } else if m.len() > 0 {
        let ambiguous = job.state == QueueJobState::Starting;
        Some((m, ambiguous, persisted_kind(m, ambiguous, prefixes)))
    } else {
        None
    }
}

/// The abstract value of an optional warning.
pub open spec fn warning_view(w: Option<BackendFailure>) -> Option<(Seq<char>, bool, BackendFailureKind)> {
    match w {
        Some(f) => Some((f.message@, f.ambiguous, f.kind)),
        None => None,
    }
}

/// `s` is the submission replayed for the existing `job`: a quarantined or
/// candidate-held job is neither queued nor bound to a turn; otherwise it
/// is queued exactly when it has no turn, and carries that turn.
pub open spec fn replayed(s: Submission, job: QueueJobRecord, prefixes: &FailurePrefixes) -> bool {
    &&& s.job_id@ == job.job_id@
    &&& s.queued == (job.state != QueueJobState::Quarantined && !has_prefix(
        job.last_error@,
        prefixes.starting_candidate_hold@,
    ) && job.turn_id is None)
    &&& opt_text(s.turn_id) == if job.state == QueueJobState::Quarantined || has_prefix(
        job.last_error@,
        prefixes.starting_candidate_hold@,
    ) {
        None
    } else {
        opt_text(job.turn_id)
    }
    &&& warning_view(s.warning) == replay_warning(job, prefixes)
}

/// The submission reported for a job that already exists: a quarantined or
/// candidate-held job is neither queued nor bound to a turn.
pub fn replay_existing(job: QueueJobRecord, prefixes: &FailurePrefixes) -> (r: Submission)
    requires
        prefixes.valid(),
    ensures
        replayed(r, job, prefixes),
{
    let msg = chars_of(job.last_error.as_str());
    let quarantined = job.state == QueueJobState::Quarantined;
    let fork_fenced = starts_with(&msg, &chars_of(prefixes.unresolved_fork.as_str()));
    let starting_candidates_held = starts_with(
        &msg,
        &chars_of(prefixes.starting_candidate_hold.as_str()),
    );
    let auto_reserve_held = starts_with(&msg, &chars_of(prefixes.reserve_hold.as_str()));
    let starting = job.state == QueueJobState::Starting;
    let turn_id = if quarantined || starting_candidates_held {
        None
    } else {
        copy_opt(&job.turn_id)
    };
    let queued = !quarantined && !starting_candidates_held && job.turn_id.is_none();
    let warning = if quarantined {
        Some(BackendFailure::quarantined(job.last_error))
    } else if fork_fenced {
        Some(BackendFailure::fork_fenced(job.last_error))
    } else if starting_candidates_held {
        Some(BackendFailure::starting_candidates_held(job.last_error))
    } else if auto_reserve_held {
        Some(BackendFailure::auto_reserve_held(job.last_error))
    } else if msg.len() > 0 {
        Some(BackendFailure::persisted(job.last_error, starting, prefixes))
    } else {
        None
    };
    Submission { job_id: job.job_id, queued, turn_id, warning }
}

} // verus!
