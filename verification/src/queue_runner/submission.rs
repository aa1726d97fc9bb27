//! The decisions of submitting a request to the durable queue.

use vstd::prelude::*;

use super::job::{QueueJobRecord, QueueJobState, copy_opt, opt_text};
use super::retry::{eligible_pending_head, replay_existing, replayed, startable};
use super::types::{BackendFailure, BackendFailureKind, FailurePrefixes, Submission};
use super::QueueRunnerError;
use crate::text::{chars_of, push_all, same_text, string_of};

verus! {

/// Some job of the target is not quarantined.
pub open spec fn has_live_job(jobs: Seq<QueueJobRecord>) -> bool {
    exists|j: int| 0 <= j < jobs.len() && (#[trigger] jobs[j]).state != QueueJobState::Quarantined
}

/// Some job of the target that is not quarantined belongs to another
/// app-server generation.
pub open spec fn needs_generation_recovery(jobs: Seq<QueueJobRecord>, generation: i64) -> bool {
    exists|j: int|
        0 <= j < jobs.len() && (#[trigger] jobs[j]).state != QueueJobState::Quarantined
            && jobs[j].app_server_generation != generation
}

/// What the target's existing jobs mean for a new request: whether it must
/// queue behind them, and whether recovery must first adopt an older
/// generation.
pub fn queue_summary(existing: &[QueueJobRecord], generation: i64) -> (r: (bool, bool))
    ensures
        r.0 == has_live_job(existing@),
        r.1 == needs_generation_recovery(existing@, generation),
{
    let mut queued = false;
    let mut recovery = false;
    let mut i: usize = 0;
    while i < existing.len()
        invariant
            i <= existing.len(),
            queued == exists|j: int| 0 <= j < i && (#[trigger] existing@[j]).state != QueueJobState::Quarantined,
            recovery == exists|j: int|
                0 <= j < i && (#[trigger] existing@[j]).state != QueueJobState::Quarantined
                    && existing@[j].app_server_generation != generation,
        decreases existing.len() - i,
    {
        if existing[i].state != QueueJobState::Quarantined {
            queued = true;
            if existing[i].app_server_generation != generation {
                recovery = true;
            }
        }
        i = i + 1;
    }
    (queued, recovery)
}

/// What follows an enqueue.
#[derive(Clone, Debug, PartialEq, Eq)]
pub enum EnqueueStep {
    /// The request is answered with this submission.
    Answer(Submission),
    /// Try to start the target's next request.
    Start,
}

/// The submission of a new request that waits in the queue.
pub open spec fn queued_submission(s: Submission, job_id: Seq<char>) -> bool {
    s.job_id@ == job_id && s.queued && s.turn_id is None && s.warning is None
}

/// After an enqueue that returned `job`: an existing job is replayed; a new
/// one waits while an older generation awaits recovery; otherwise the queue
/// tries to start.
pub fn after_enqueue(created: bool, job: QueueJobRecord, needs_recovery: bool, prefixes: &FailurePrefixes) -> (r: EnqueueStep)
    requires
        prefixes.valid(),
    ensures
        !created ==> (r matches EnqueueStep::Answer(s) && replayed(s, job, prefixes)),
        created && needs_recovery ==> (r matches EnqueueStep::Answer(s) && queued_submission(s, job.job_id@)),
        created && !needs_recovery ==> r == EnqueueStep::Start,
{
    if !created {
        return EnqueueStep::Answer(replay_existing(job, prefixes));
    }
    if needs_recovery {
        return EnqueueStep::Answer(Submission { job_id: job.job_id, queued: true, turn_id: None, warning: None });
    }
    EnqueueStep::Start
}

/// The submission after a start attempt that began `started`, if any: it is
/// bound to a turn only when the started job is this request.
pub fn after_start(job_id: String, started: Option<QueueJobRecord>) -> (r: Submission)
    ensures
        r.job_id@ == job_id@,
        r.warning is None,
        opt_text(r.turn_id) == match started {
            Some(j) => if j.job_id@ == job_id@ { opt_text(j.turn_id) } else { None },
            None => None,
        },
        r.queued == (r.turn_id is None),
{
    let turn_id = match &started {
        Some(j) => if same_text(j.job_id.as_str(), job_id.as_str()) { copy_opt(&j.turn_id) } else { None },
        None => None,
    };
    let queued = turn_id.is_none();
    Submission { job_id, queued, turn_id, warning: None }
}

/// After a start attempt failed in the backend: the request is replayed
/// when its job recorded the failure, otherwise the failure is returned.
pub fn after_start_failure(current: Option<QueueJobRecord>, failure: BackendFailure, prefixes: &FailurePrefixes) -> (r: Result<
    Submission,
    QueueRunnerError,
>)
    requires
        prefixes.valid(),
    ensures
        match current {
            Some(j) => if j.last_error@.len() > 0 {
                r matches Ok(s) && replayed(s, j, prefixes)
            } else {
                r matches Err(QueueRunnerError::Backend(f)) && f == failure
            },
            None => r matches Err(QueueRunnerError::Backend(f)) && f == failure,
        },
{
    match current {
        Some(j) => {
            if j.last_error.as_str().is_empty() {
                Err(QueueRunnerError::Backend(failure))
            } else {
                Ok(replay_existing(j, prefixes))
            }
        },
        None => Err(QueueRunnerError::Backend(failure)),
    }
}

/// Index of the first job whose Discord message is `message_id`.
pub fn job_for_message(jobs: &[QueueJobRecord], message_id: i64) -> (r: Option<usize>)
    ensures
        match r {
            Some(i) => i < jobs.len() && jobs@[i as int].discord_message_id == Some(message_id)
                && forall|k: int| 0 <= k < i ==> (#[trigger] jobs@[k]).discord_message_id != Some(message_id),
            None => forall|k: int| 0 <= k < jobs.len() ==> (#[trigger] jobs@[k]).discord_message_id != Some(message_id),
        },
{
    let mut i: usize = 0;
    while i < jobs.len()
        invariant
            i <= jobs.len(),
            forall|k: int| 0 <= k < i ==> (#[trigger] jobs@[k]).discord_message_id != Some(message_id),
        decreases jobs.len() - i,
    {
        if jobs[i].discord_message_id == Some(message_id) {
            return Some(i);
        }
        i = i + 1;
    }
    None
}

/// Index of the first job called `job_id`.
pub fn job_named(jobs: &[QueueJobRecord], job_id: &str) -> (r: Option<usize>)
    ensures
        match r {
            Some(i) => i < jobs.len() && jobs@[i as int].job_id@ == job_id@
                && forall|k: int| 0 <= k < i ==> (#[trigger] jobs@[k]).job_id@ != job_id@,
            None => forall|k: int| 0 <= k < jobs.len() ==> (#[trigger] jobs@[k]).job_id@ != job_id@,
        },
{
    let mut i: usize = 0;
    while i < jobs.len()
        invariant
            i <= jobs.len(),
            forall|k: int| 0 <= k < i ==> (#[trigger] jobs@[k]).job_id@ != job_id@,
        decreases jobs.len() - i,
    {
        if same_text(jobs[i].job_id.as_str(), job_id) {
            return Some(i);
        }
        i = i + 1;
    }
    None
}

/// The pending job the queue may start now in `generation`: the eligible
/// head, unless it belongs to another generation, which only recovery may
/// adopt.
pub fn startable_head(jobs: &[QueueJobRecord], hold_prefix: &str, generation: i64) -> (r: Option<usize>)
    ensures
        match r {
            Some(i) => i < jobs.len() && startable(jobs@[i as int], hold_prefix@) && jobs@[i as int].app_server_generation
                == generation && eligible_pending_head_spec(jobs@, hold_prefix@) == Some(i as int),
            None => match eligible_pending_head_spec(jobs@, hold_prefix@) {
                Some(h) => jobs@[h].app_server_generation != generation,
                None => true,
            },
        },
{
    match eligible_pending_head(jobs, hold_prefix) {
        Some(i) => if jobs[i].app_server_generation == generation { Some(i) } else { None },
        None => None,
    }
}

/// The eligible pending head: none while a job starts or runs, else the
/// first startable job.
pub open spec fn eligible_pending_head_spec(jobs: Seq<QueueJobRecord>, hold_prefix: Seq<char>) -> Option<int> {
    if exists|j: int| 0 <= j < jobs.len() && super::job::owns_target((#[trigger] jobs[j]).state) {
        None
    } else if exists|j: int| 0 <= j < jobs.len() && startable(#[trigger] jobs[j], hold_prefix) {
        Some(choose|j: int| 0 <= j < jobs.len() && startable(#[trigger] jobs[j], hold_prefix) && forall|k: int|
            0 <= k < j ==> !startable(#[trigger] jobs[k], hold_prefix))
    } else {
        None
    }
}

/// Some startable job comes first among the startable ones.
proof fn lemma_first_startable(jobs: Seq<QueueJobRecord>, hold_prefix: Seq<char>, w: int)
    requires
        0 <= w < jobs.len(),
        startable(jobs[w], hold_prefix),
    ensures
        exists|j: int| 0 <= j < jobs.len() && startable(#[trigger] jobs[j], hold_prefix) && forall|k: int|
            0 <= k < j ==> !startable(#[trigger] jobs[k], hold_prefix),
    decreases w,
{
    if exists|k: int| 0 <= k < w && startable(#[trigger] jobs[k], hold_prefix) {
        let k = choose|k: int| 0 <= k < w && startable(#[trigger] jobs[k], hold_prefix);
        lemma_first_startable(jobs, hold_prefix, k);
    } else {
        assert(forall|k: int| 0 <= k < w ==> !startable(#[trigger] jobs[k], hold_prefix));
    }
}

/// The eligible pending head, when there is one, is a startable job of the
/// list that no startable job precedes.
pub proof fn lemma_head_is_startable(jobs: Seq<QueueJobRecord>, hold_prefix: Seq<char>)
    ensures
        eligible_pending_head_spec(jobs, hold_prefix) matches Some(h) ==> 0 <= h < jobs.len() && startable(
            jobs[h],
            hold_prefix,
        ) && forall|k: int| 0 <= k < h ==> !startable(#[trigger] jobs[k], hold_prefix),
{
    if exists|j: int| 0 <= j < jobs.len() && startable(#[trigger] jobs[j], hold_prefix) {
        let w = choose|j: int| 0 <= j < jobs.len() && startable(#[trigger] jobs[j], hold_prefix);
        lemma_first_startable(jobs, hold_prefix, w);
    }
}

/// The message recorded when a start fails: a usage-limit failure is
/// recorded as held by the Reserve policy.
pub fn start_failure_message(failure: &BackendFailure, hold_prefix: &str) -> (r: String)
    ensures
        r@ == if failure.kind == BackendFailureKind::UsageLimit {
            hold_prefix@ + failure.message@
        } else {
            failure.message@
        },
{
    if failure.kind == BackendFailureKind::UsageLimit {
        let mut out = chars_of(hold_prefix);
        push_all(&mut out, &chars_of(failure.message.as_str()));
        string_of(&out)
    } else {
        failure.message.clone()
    }
}

} // verus!
