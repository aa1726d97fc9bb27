//! The decisions of completing a turn: which job owns it, and whether the
//! completion may release the resident's control.

use vstd::prelude::*;

use super::job::{QueueJobRecord, QueueJobState};
use super::types::QueueRunnerError;
use crate::text::{chars_of, push_all, same_text, string_of};

verus! {

/// The job runs the turn `turn`.
pub open spec fn runs_turn(job: QueueJobRecord, turn: Seq<char>) -> bool {
    job.state == QueueJobState::Running && (job.turn_id matches Some(t) && t@ == turn)
}

fn is_running_turn(job: &QueueJobRecord, turn: &str) -> (r: bool)
    ensures
        r == runs_turn(*job, turn@),
{
    job.state == QueueJobState::Running && match &job.turn_id {
        Some(t) => same_text(t.as_str(), turn),
        None => false,
    }
}

/// Index of the first job running `turn`.
pub fn running_job_for_turn(jobs: &[QueueJobRecord], turn: &str) -> (r: Option<usize>)
    ensures
        match r {
            Some(i) => i < jobs.len() && runs_turn(jobs@[i as int], turn@) && forall|k: int|
                0 <= k < i ==> !runs_turn(#[trigger] jobs@[k], turn@),
            None => forall|k: int| 0 <= k < jobs.len() ==> !runs_turn(#[trigger] jobs@[k], turn@),
        },
{
    let mut i: usize = 0;
    while i < jobs.len()
        invariant
            i <= jobs.len(),
            forall|k: int| 0 <= k < i ==> !runs_turn(#[trigger] jobs@[k], turn@),
        decreases jobs.len() - i,
    {
        if is_running_turn(&jobs[i], turn) {
            return Some(i);
        }
        i = i + 1;
    }
    None
}

/// Reason recorded when the owner of a completion is not unique.
pub const OWNERSHIP_CHANGED: &'static str = "completion ownership changed during observation";

/// The one job that owns the completion of `turn`: none when no job runs
/// it; an error when several do.
pub fn completion_owner(jobs: &[QueueJobRecord], turn: &str) -> (r: Result<Option<usize>, QueueRunnerError>)
    ensures
        match r {
            Ok(Some(i)) => i < jobs.len() && runs_turn(jobs@[i as int], turn@) && forall|k: int|
                0 <= k < jobs.len() && k != i ==> !runs_turn(#[trigger] jobs@[k], turn@),
            Ok(None) => forall|k: int| 0 <= k < jobs.len() ==> !runs_turn(#[trigger] jobs@[k], turn@),
            Err(e) => (e matches QueueRunnerError::InvalidQueueState(m) && m@ == OWNERSHIP_CHANGED@) && exists|
                a: int,
                b: int,
            | 0 <= a < b < jobs.len() && runs_turn(#[trigger] jobs@[a], turn@) && runs_turn(#[trigger] jobs@[b], turn@),
        },
{
    let first = match running_job_for_turn(jobs, turn) {
        None => { return Ok(None); },
        Some(i) => i,
    };
    let mut k: usize = first + 1;
    while k < jobs.len()
        invariant
            first < k <= jobs.len(),
            runs_turn(jobs@[first as int], turn@),
            forall|m: int| 0 <= m < first ==> !runs_turn(#[trigger] jobs@[m], turn@),
            forall|m: int| first < m < k ==> !runs_turn(#[trigger] jobs@[m], turn@),
        decreases jobs.len() - k,
    {
        if is_running_turn(&jobs[k], turn) {
            assert(runs_turn(jobs@[first as int], turn@) && runs_turn(jobs@[k as int], turn@));
            return Err(QueueRunnerError::InvalidQueueState(OWNERSHIP_CHANGED.to_owned()));
        }
        k = k + 1;
    }
    Ok(Some(first))
}

/// A completion may release the resident's control only when it was
/// observed in the current generation, nothing changed while it was
/// staged, and the job's own evidence is of that generation.
pub open spec fn release_spec(
    before_resident: Option<Seq<char>>,
    now_resident: Option<Seq<char>>,
    observed_generation: Option<i64>,
    before_generation: i64,
    generation: i64,
    evidence_generation: i64,
) -> Option<(Seq<char>, i64)> {
    match before_resident {
        Some(owner) => if observed_generation == Some(generation) && generation == before_generation
            && now_resident == Some(owner) && evidence_generation == generation {
            Some((owner, generation))
        } else {
            None
        },
        None => None,
    }
}

/// The characters of an optional text.
pub open spec fn opt_str(o: Option<&str>) -> Option<Seq<char>> {
    match o {
        Some(s) => Some(s@),
        None => None,
    }
}

/// The resident and generation a staged completion may release, if any.
pub fn release_owner(
    before_resident: Option<&str>,
    now_resident: Option<&str>,
    observed_generation: Option<i64>,
    before_generation: i64,
    generation: i64,
    evidence_generation: i64,
) -> (r: Option<(String, i64)>)
    ensures
        match r {
            Some((o, g)) => release_spec(
                opt_str(before_resident),
                opt_str(now_resident),
                observed_generation,
                before_generation,
                generation,
                evidence_generation,
            ) == Some((o@, g)),
            None => release_spec(
                opt_str(before_resident),
                opt_str(now_resident),
                observed_generation,
                before_generation,
                generation,
                evidence_generation,
            ) is None,
        },
{
    let owner = match before_resident {
        None => { return None; },
        Some(o) => o,
    };
    let same_resident = match now_resident {
        Some(n) => same_text(n, owner),
        None => false,
    };
    if observed_generation == Some(generation) && generation == before_generation && same_resident
        && evidence_generation == generation {
        Some((owner.to_owned(), generation))
    } else {
        None
    }
}

/// The job waits for the next turn of its goal.
pub open spec fn goal_waiting(job: QueueJobRecord) -> bool {
    job.state == QueueJobState::Running && job.goal_waiting
}

/// The one running job of `target` waiting on its goal: none when there is
/// none; an error naming the target when several wait.
pub fn goal_waiting_job(jobs: &[QueueJobRecord], target: &str) -> (r: Result<Option<usize>, QueueRunnerError>)
    ensures
        match r {
            Ok(Some(i)) => i < jobs.len() && goal_waiting(jobs@[i as int]) && forall|k: int|
                0 <= k < jobs.len() && k != i ==> !goal_waiting(#[trigger] jobs@[k]),
            Ok(None) => forall|k: int| 0 <= k < jobs.len() ==> !goal_waiting(#[trigger] jobs@[k]),
            Err(e) => (e matches QueueRunnerError::InvalidQueueState(m) && m@ == "multiple goal-waiting jobs for "@
                + target@) && exists|a: int, b: int|
                0 <= a < b < jobs.len() && goal_waiting(#[trigger] jobs@[a]) && goal_waiting(#[trigger] jobs@[b]),
        },
{
    let mut first: Option<usize> = None;
    let mut k: usize = 0;
    while k < jobs.len()
        invariant
            k <= jobs.len(),
            match first {
                Some(f) => f < k && goal_waiting(jobs@[f as int]) && forall|m: int|
                    0 <= m < k && m != f ==> !goal_waiting(#[trigger] jobs@[m]),
                None => forall|m: int| 0 <= m < k ==> !goal_waiting(#[trigger] jobs@[m]),
            },
        decreases jobs.len() - k,
    {
        if jobs[k].state == QueueJobState::Running && jobs[k].goal_waiting {
            match first {
                Some(f) => {
                    assert(goal_waiting(jobs@[f as int]) && goal_waiting(jobs@[k as int]));
                    let mut m = chars_of("multiple goal-waiting jobs for ");
                    push_all(&mut m, &chars_of(target));
                    return Err(QueueRunnerError::InvalidQueueState(string_of(&m)));
                },
                None => {
                    first = Some(k);
                },
            }
        }
        k = k + 1;
    }
    Ok(first)
}

/// Message staged as a usage failure when a turn ends on the usage limit.
pub const TERMINAL_USAGE_FAILURE: &'static str = "terminal typed usage-limit failure requires automatic handling";

} // verus!
