//! The sequence of one attempt to start a target's next queued request:
//! admission, the dead-generation hold, the pending head, its retry time,
//! the live turn, preparation, the baseline, the claim, the turn start, and
//! recording its outcome. Each step takes what the store or the backend
//! answered and names what to do next.

use vstd::prelude::*;

use super::job::QueueJobRecord;
use super::retry::startable;
use super::submission::{eligible_pending_head_spec, start_failure_message, startable_head};
use super::types::{BackendFailure, BackendFailureKind, QueueRunnerError};
use crate::restart_readiness::drain::DrainGateError;

verus! {

/// Where a start attempt stands; from `DueCheck` on, it carries the job it
/// works on.
#[derive(Debug)]
pub enum StartStage {
    /// Waiting for the admission fence's answer.
    Admission,
    /// Waiting to learn whether the target is held for a dead generation.
    HeldCheck,
    /// Waiting for the target's jobs.
    Listing,
    /// Waiting to learn whether the head's retry time has come.
    DueCheck(QueueJobRecord),
    /// Waiting for the target's live turn, if any.
    TurnCheck(QueueJobRecord),
    /// Waiting for the backend to prepare the turn.
    Preparing(QueueJobRecord),
    /// Waiting for the baseline of the thread's turns.
    Baseline(QueueJobRecord),
    /// Waiting for the durable claim of the attempt.
    Claiming(QueueJobRecord),
    /// Waiting for the backend to start the turn.
    Starting(QueueJobRecord),
    /// Waiting for the failed start to be recorded under the claim.
    Recording(QueueJobRecord, BackendFailure),
    /// Waiting for the job to be marked running on this turn.
    MarkingRunning(QueueJobRecord, String),
    /// The attempt is over.
    Finished,
}

/// What the store or the backend answered to the last action.
#[derive(Debug)]
pub enum StartEvent {
    /// The admission fence's refusal, or `None` when work was admitted (or
    /// no fence guards the queue).
    Admission(Option<DrainGateError>),
    /// Whether the target is held for a dead app-server generation.
    Held(bool),
    /// The target's jobs, in queue order.
    Jobs(Vec<QueueJobRecord>),
    /// Whether the head's retry time has come.
    Due(bool),
    /// The target's live turn.
    ActiveTurn(Result<Option<String>, BackendFailure>),
    /// The outcome of preparing the turn.
    Prepared(Result<(), BackendFailure>),
    /// The ids of the thread's turns before the start, or the failure of
    /// reading them.
    Baseline(Result<Vec<String>, QueueRunnerError>),
    /// Whether the attempt was claimed.
    Claimed(bool),
    /// The started turn's id, or the backend's failure.
    Started(Result<String, BackendFailure>),
    /// Whether the failure was recorded under the claim.
    Recorded(bool),
    /// The job as marked running, or `None` when the claim was lost.
    Running(Option<QueueJobRecord>),
}

/// What to do next.
#[derive(Debug)]
pub enum StartAction {
    CheckHeld,
    ListJobs,
    /// Check the retry time of the stage's job.
    CheckDue,
    QueryActiveTurn,
    PrepareTurn,
    ReadBaseline,
    /// Claim the attempt durably with these baseline turn ids.
    Claim(Vec<String>),
    StartTurn,
    /// Record the failed start under the claim.
    RecordFailure { message: String, ambiguous: bool },
    /// Mark the claimed job running on this turn.
    MarkRunning(String),
    /// End the attempt with `result`; a usage-limit failure is also made
    /// known to the delivery and the Reserve policy.
    Finish { result: Result<Option<QueueJobRecord>, QueueRunnerError>, note_usage_limit: bool },
}

/// One start attempt for the queue of `generation`.
pub struct StartRun {
    pub generation: i64,
    /// The prefix marking requests held by the Reserve policy.
    pub hold_prefix: String,
    pub stage: StartStage,
}

/// The event that answers the action a stage waits for.
pub open spec fn expects(stage: StartStage, event: StartEvent) -> bool {
    match stage {
        StartStage::Admission => event is Admission,
        StartStage::HeldCheck => event is Held,
        StartStage::Listing => event is Jobs,
        StartStage::DueCheck(_) => event is Due,
        StartStage::TurnCheck(_) => event is ActiveTurn,
        StartStage::Preparing(_) => event is Prepared,
        StartStage::Baseline(_) => event is Baseline,
        StartStage::Claiming(_) => event is Claimed,
        StartStage::Starting(_) => event is Started,
        StartStage::Recording(_, _) => event is Recorded,
        StartStage::MarkingRunning(_, _) => event is Running,
        StartStage::Finished => false,
    }
}

/// The attempt ends with `result`.
pub open spec fn ends(
    stage: StartStage,
    a: StartAction,
    result: Result<Option<QueueJobRecord>, QueueRunnerError>,
    note: bool,
) -> bool {
    stage is Finished && a == (StartAction::Finish { result, note_usage_limit: note })
}

/// The attempt ends starting nothing.
pub open spec fn ends_idle(stage: StartStage, a: StartAction) -> bool {
    ends(stage, a, Ok(None), false)
}

/// The message under which a failed start is recorded: a usage-limit
/// failure is recorded as held by the Reserve policy.
pub open spec fn failure_message(f: BackendFailure, hold: Seq<char>) -> Seq<char> {
    if f.kind == BackendFailureKind::UsageLimit {
        hold + f.message@
    } else {
        f.message@
    }
}

/// The step from `stage` on `event` to `next` with action `a`.
pub open spec fn start_step(
    stage: StartStage,
    generation: i64,
    hold: Seq<char>,
    event: StartEvent,
    next: StartStage,
    a: StartAction,
) -> bool {
    match event {
        StartEvent::Admission(refusal) => match refusal {
            None => next is HeldCheck && a is CheckHeld,
            Some(e) => if e == DrainGateError::Sealed {
                ends_idle(next, a)
            } else {
                ends(next, a, Err(QueueRunnerError::RestartDrain(e)), false)
            },
        },
        StartEvent::Held(held) => if held {
            ends_idle(next, a)
        } else {
            next is Listing && a is ListJobs
        },
        StartEvent::Jobs(jobs) => match eligible_pending_head_spec(jobs@, hold) {
            Some(h) => if jobs@[h].app_server_generation == generation {
                next == StartStage::DueCheck(jobs@[h]) && a is CheckDue
            } else {
                ends_idle(next, a)
            },
            None => ends_idle(next, a),
        },
        StartEvent::Due(due) => match stage {
            StartStage::DueCheck(j) => if due {
                next == StartStage::TurnCheck(j) && a is QueryActiveTurn
            } else {
                ends_idle(next, a)
            },
            _ => false,
        },
        StartEvent::ActiveTurn(live) => match stage {
            StartStage::TurnCheck(j) => match live {
                Err(f) => ends(next, a, Err(QueueRunnerError::Backend(f)), false),
                Ok(Some(_)) => ends_idle(next, a),
                Ok(None) => next == StartStage::Preparing(j) && a is PrepareTurn,
            },
            _ => false,
        },
        StartEvent::Prepared(outcome) => match stage {
            StartStage::Preparing(j) => match outcome {
                Err(f) => ends(next, a, Err(QueueRunnerError::Backend(f)), false),
                Ok(()) => next == StartStage::Baseline(j) && a is ReadBaseline,
            },
            _ => false,
        },
        StartEvent::Baseline(outcome) => match stage {
            StartStage::Baseline(j) => match outcome {
                Err(e) => ends(next, a, Err(e), false),
                Ok(ids) => next == StartStage::Claiming(j) && a == StartAction::Claim(ids),
            },
            _ => false,
        },
        StartEvent::Claimed(claimed) => match stage {
            StartStage::Claiming(j) => if claimed {
                next == StartStage::Starting(j) && a is StartTurn
            } else {
                ends_idle(next, a)
            },
            _ => false,
        },
        StartEvent::Started(outcome) => match stage {
            StartStage::Starting(j) => match outcome {
                Ok(t) => next == StartStage::MarkingRunning(j, t) && a == StartAction::MarkRunning(t),
                Err(f) => next == StartStage::Recording(j, f) && (a matches StartAction::RecordFailure {
                    message,
                    ambiguous,
                } && message@ == failure_message(f, hold) && ambiguous == f.ambiguous),
            },
            _ => false,
        },
        StartEvent::Recorded(recorded) => match stage {
            StartStage::Recording(j, f) => if recorded {
                ends(next, a, Err(QueueRunnerError::Backend(f)), f.kind == BackendFailureKind::UsageLimit)
            } else {
                ends(
                    next,
                    a,
                    Err(QueueRunnerError::AttemptClaimLost { job_id: j.job_id, observed_turn_id: None }),
                    false,
                )
            },
            _ => false,
        },
        StartEvent::Running(running) => match stage {
            StartStage::MarkingRunning(j, t) => match running {
                Some(k) => ends(next, a, Ok(Some(k)), false),
                None => ends(
                    next,
                    a,
                    Err(QueueRunnerError::AttemptClaimLost { job_id: j.job_id, observed_turn_id: Some(t) }),
                    false,
                ),
            },
            _ => false,
        },
    }
}

fn finish(result: Result<Option<QueueJobRecord>, QueueRunnerError>, note_usage_limit: bool) -> (r: (StartStage, StartAction))
    ensures
        ends(r.0, r.1, result, note_usage_limit),
{
    (StartStage::Finished, StartAction::Finish { result, note_usage_limit })
}

impl StartRun {
    /// A start attempt that first asks the admission fence.
    pub fn new(generation: i64, hold_prefix: String) -> (r: Self)
        ensures
            r.generation == generation,
            r.hold_prefix == hold_prefix,
            r.stage is Admission,
    {
        StartRun { generation, hold_prefix, stage: StartStage::Admission }
    }

    /// The job the attempt works on, once the head was chosen.
    pub fn job(&self) -> (r: Option<&QueueJobRecord>)
        ensures
            r == match self.stage {
                StartStage::DueCheck(j) => Some(&j),
                StartStage::TurnCheck(j) => Some(&j),
                StartStage::Preparing(j) => Some(&j),
                StartStage::Baseline(j) => Some(&j),
                StartStage::Claiming(j) => Some(&j),
                StartStage::Starting(j) => Some(&j),
                StartStage::Recording(j, _) => Some(&j),
                StartStage::MarkingRunning(j, _) => Some(&j),
                _ => None,
            },
    {
        match &self.stage {
            StartStage::DueCheck(j) => Some(j),
            StartStage::TurnCheck(j) => Some(j),
            StartStage::Preparing(j) => Some(j),
            StartStage::Baseline(j) => Some(j),
            StartStage::Claiming(j) => Some(j),
            StartStage::Starting(j) => Some(j),
            StartStage::Recording(j, _) => Some(j),
            StartStage::MarkingRunning(j, _) => Some(j),
            _ => None,
        }
    }

    /// Takes the answer to the last action and returns the next one.
    pub fn on(&mut self, event: StartEvent) -> (a: StartAction)
        requires
            expects(old(self).stage, event),
        ensures
            final(self).generation == old(self).generation,
            final(self).hold_prefix == old(self).hold_prefix,
            start_step(old(self).stage, old(self).generation, old(self).hold_prefix@, event, final(self).stage, a),
            event matches StartEvent::Started(Err(f)) ==> (a matches StartAction::RecordFailure { ambiguous, .. }
                && ambiguous == f.ambiguous),
    {
        let mut stage = StartStage::Finished;
        std::mem::swap(&mut stage, &mut self.stage);
        let (next, action) = match event {
            StartEvent::Admission(refusal) => match refusal {
                None => (StartStage::HeldCheck, StartAction::CheckHeld),
                Some(DrainGateError::Sealed) => finish(Ok(None), false),
                Some(e) => finish(Err(QueueRunnerError::RestartDrain(e)), false),
            },
            StartEvent::Held(held) => if held {
                finish(Ok(None), false)
            } else {
                (StartStage::Listing, StartAction::ListJobs)
            },
            StartEvent::Jobs(jobs) => {
                let mut jobs = jobs;
                match startable_head(&jobs, self.hold_prefix.as_str(), self.generation) {
                    Some(i) => {
                        let j = jobs.remove(i);
                        (StartStage::DueCheck(j), StartAction::CheckDue)
                    },
                    None => finish(Ok(None), false),
                }
            },
            StartEvent::Due(due) => match stage {
                StartStage::DueCheck(j) => if due {
                    (StartStage::TurnCheck(j), StartAction::QueryActiveTurn)
                } else {
                    finish(Ok(None), false)
                },
                _ => {
                    proof {
                        assert(false);
                    }
                    finish(Ok(None), false)
                },
            },
            StartEvent::ActiveTurn(live) => match stage {
                StartStage::TurnCheck(j) => match live {
                    Err(f) => finish(Err(QueueRunnerError::Backend(f)), false),
                    Ok(Some(_)) => finish(Ok(None), false),
                    Ok(None) => (StartStage::Preparing(j), StartAction::PrepareTurn),
                },
                _ => {
                    proof {
                        assert(false);
                    }
                    finish(Ok(None), false)
                },
            },
            StartEvent::Prepared(outcome) => match stage {
                StartStage::Preparing(j) => match outcome {
                    Err(f) => finish(Err(QueueRunnerError::Backend(f)), false),
                    Ok(()) => (StartStage::Baseline(j), StartAction::ReadBaseline),
                },
                _ => {
                    proof {
                        assert(false);
                    }
                    finish(Ok(None), false)
                },
            },
            StartEvent::Baseline(outcome) => match stage {
                StartStage::Baseline(j) => match outcome {
                    Err(e) => finish(Err(e), false),
                    Ok(ids) => (StartStage::Claiming(j), StartAction::Claim(ids)),
                },
                _ => {
                    proof {
                        assert(false);
                    }
                    finish(Ok(None), false)
                },
            },
            StartEvent::Claimed(claimed) => match stage {
                StartStage::Claiming(j) => if claimed {
                    (StartStage::Starting(j), StartAction::StartTurn)
                } else {
                    finish(Ok(None), false)
                },
                _ => {
                    proof {
                        assert(false);
                    }
                    finish(Ok(None), false)
                },
            },
            StartEvent::Started(outcome) => match stage {
                StartStage::Starting(j) => match outcome {
                    Ok(t) => {
                        let copy = t.clone();
                        (StartStage::MarkingRunning(j, t), StartAction::MarkRunning(copy))
                    },
                    Err(f) => {
                        let message = start_failure_message(&f, self.hold_prefix.as_str());
                        let ambiguous = f.ambiguous;
                        (StartStage::Recording(j, f), StartAction::RecordFailure { message, ambiguous })
                    },
                },
                _ => {
                    proof {
                        assert(false);
                    }
                    finish(Ok(None), false)
                },
            },
            StartEvent::Recorded(recorded) => match stage {
                StartStage::Recording(j, f) => if recorded {
                    let note = f.kind == BackendFailureKind::UsageLimit;
                    finish(Err(QueueRunnerError::Backend(f)), note)
                } else {
                    finish(Err(QueueRunnerError::AttemptClaimLost { job_id: j.job_id, observed_turn_id: None }), false)
                },
                _ => {
                    proof {
                        assert(false);
                    }
                    finish(Ok(None), false)
                },
            },
            StartEvent::Running(running) => match stage {
                StartStage::MarkingRunning(j, t) => match running {
                    Some(k) => finish(Ok(Some(k)), false),
                    None => finish(
                        Err(QueueRunnerError::AttemptClaimLost { job_id: j.job_id, observed_turn_id: Some(t) }),
                        false,
                    ),
                },
                _ => {
                    proof {
                        assert(false);
                    }
                    finish(Ok(None), false)
                },
            },
        };
        self.stage = next;
        action
    }
}

/// A turn is started only for a job that was claimed, and the job chosen
/// from the target's jobs is the eligible pending head of this generation:
/// no newer request bypasses the head, and nothing is chosen while a job of
/// the target starts or runs.
pub proof fn law_start_follows_the_pending_head(
    stage: StartStage,
    generation: i64,
    hold: Seq<char>,
    event: StartEvent,
    next: StartStage,
    a: StartAction,
)
    requires
        start_step(stage, generation, hold, event, next, a),
    ensures
        a is StartTurn ==> stage is Claiming && event == StartEvent::Claimed(true),
        event matches StartEvent::Jobs(jobs) ==> match next {
            StartStage::DueCheck(j) => exists|h: int|
                eligible_pending_head_spec(jobs@, hold) == Some(h) && j == jobs@[h]
                    && startable(jobs@[h], hold) && j.app_server_generation == generation,
            _ => ends_idle(next, a),
        },
{
    if let StartEvent::Jobs(jobs) = event {
        if let Some(h) = eligible_pending_head_spec(jobs@, hold) {
            super::submission::lemma_head_is_startable(jobs@, hold);
            if jobs@[h].app_server_generation == generation {
                assert(eligible_pending_head_spec(jobs@, hold) == Some(h) && next == StartStage::DueCheck(jobs@[h]));
            }
        }
    }
}

/// A failed turn start is recorded under its claim with the ambiguity the
/// backend reported: a start that may have happened is never recorded as a
/// definite failure (which would let the job start a second turn), and a
/// usage-limit failure is recorded behind the Reserve hold prefix. Once
/// recorded, that same failure is returned.
pub proof fn law_failed_start_keeps_its_ambiguity(
    j: QueueJobRecord,
    generation: i64,
    hold: Seq<char>,
    f: BackendFailure,
    next: StartStage,
    a: StartAction,
    next2: StartStage,
    a2: StartAction,
)
    requires
        start_step(StartStage::Starting(j), generation, hold, StartEvent::Started(Err(f)), next, a),
        start_step(next, generation, hold, StartEvent::Recorded(true), next2, a2),
    ensures
        a matches StartAction::RecordFailure { message, ambiguous } && ambiguous == f.ambiguous && (f.kind
            == BackendFailureKind::UsageLimit ==> message@ == hold + f.message@) && (f.kind
            != BackendFailureKind::UsageLimit ==> message@ == f.message@),
        a2 matches StartAction::Finish { result: Err(QueueRunnerError::Backend(g)), .. } && g == f,
{
}

/// A sealed fence, a dead-generation hold, a head whose retry time has not
/// come, or a live turn on the target ends the attempt starting nothing.
pub proof fn law_blocked_target_starts_nothing(
    stage: StartStage,
    generation: i64,
    hold: Seq<char>,
    event: StartEvent,
    next: StartStage,
    a: StartAction,
)
    requires
        start_step(stage, generation, hold, event, next, a),
        expects(stage, event),
        event == StartEvent::Admission(Some(DrainGateError::Sealed)) || event == StartEvent::Held(true)
            || event == StartEvent::Due(false) || (event matches StartEvent::ActiveTurn(Ok(Some(_)))),
    ensures
        ends_idle(next, a),
{
}

} // verus!
