use cdr_runtime_core::queue_runner::job::{QueueJobRecord, QueueJobState};
use cdr_runtime_core::queue_runner::start::{StartAction, StartEvent, StartRun, StartStage};
use cdr_runtime_core::queue_runner::submission::{after_enqueue, after_start_failure, EnqueueStep};
use cdr_runtime_core::queue_runner::{BackendFailure, BackendFailureKind, FailurePrefixes, QueueRunnerError};
use cdr_runtime_core::queue_runner::fork_handoff::{handoff_entry, keeps_managed_target};
use cdr_runtime_core::reserve_auto::transition::{
    ClaimedTransition, TransitionAction, TransitionEvent, TransitionKind,
};
use cdr_runtime_core::reserve_auto::{ENTRY_SUPERSEDED, RESTORE_COMPLETION_SUPERSEDED};
use cdr_runtime_core::restart_readiness::drain::DrainGateError;

const HOLD: &str = "reserve hold:";

fn prefixes() -> FailurePrefixes {
    FailurePrefixes::new("unresolved fork:".to_owned(), "candidate hold:".to_owned(), HOLD.to_owned()).unwrap()
}

fn job(id: &str, state: QueueJobState, last_error: &str, turn_id: Option<&str>, generation: i64) -> QueueJobRecord {
    QueueJobRecord {
        job_id: id.to_owned(),
        target_thread_id: "thread".to_owned(),
        channel_id: 10,
        owner_user_id: None,
        discord_message_id: None,
        state,
        last_error: last_error.to_owned(),
        turn_id: turn_id.map(str::to_owned),
        app_server_generation: generation,
        attempt_count: 0,
        goal_waiting: false,
    }
}

fn is_idle_finish(action: &StartAction) -> bool {
    matches!(action, StartAction::Finish { result: Ok(None), note_usage_limit: false })
}

/// A run that reached the claim of the given pending job.
fn run_to_claim(pending: QueueJobRecord) -> StartRun {
    let mut run = StartRun::new(1, HOLD.to_owned());
    assert!(matches!(run.on(StartEvent::Admission(None)), StartAction::CheckHeld));
    assert!(matches!(run.on(StartEvent::Held(false)), StartAction::ListJobs));
    assert!(matches!(run.on(StartEvent::Jobs(vec![pending])), StartAction::CheckDue));
    assert!(matches!(run.on(StartEvent::Due(true)), StartAction::QueryActiveTurn));
    assert!(matches!(run.on(StartEvent::ActiveTurn(Ok(None))), StartAction::PrepareTurn));
    assert!(matches!(run.on(StartEvent::Prepared(Ok(()))), StartAction::ReadBaseline));
    match run.on(StartEvent::Baseline(Ok(vec!["turn-0".to_owned()]))) {
        StartAction::Claim(ids) => assert_eq!(ids, vec!["turn-0".to_owned()]),
        other => panic!("expected the claim, got {other:?}"),
    }
    run
}

#[test]
fn prefixes_must_not_be_empty() {
    assert!(FailurePrefixes::new(String::new(), "b".to_owned(), "c".to_owned()).is_none());
    assert!(FailurePrefixes::new("a".to_owned(), String::new(), "c".to_owned()).is_none());
    assert!(FailurePrefixes::new("a".to_owned(), "b".to_owned(), String::new()).is_none());
    let p = FailurePrefixes::new("a".to_owned(), "b".to_owned(), "c".to_owned()).unwrap();
    assert_eq!(p.reserve_hold, "c");
}

#[test]
fn existing_job_is_replayed_with_its_queue_state_and_turn() {
    let p = prefixes();
    let waiting = job("j1", QueueJobState::Pending, "", None, 1);
    match after_enqueue(false, waiting, false, &p) {
        EnqueueStep::Answer(s) => {
            assert_eq!(s.job_id, "j1");
            assert!(s.queued);
            assert_eq!(s.turn_id, None);
            assert!(s.warning.is_none());
        }
        EnqueueStep::Start => panic!("an existing job is not started again"),
    }
    let running = job("j2", QueueJobState::Running, "", Some("turn-7"), 1);
    match after_enqueue(false, running, true, &p) {
        EnqueueStep::Answer(s) => {
            assert!(!s.queued);
            assert_eq!(s.turn_id.as_deref(), Some("turn-7"));
        }
        EnqueueStep::Start => panic!("an existing job is not started again"),
    }
    assert!(matches!(after_enqueue(true, job("j3", QueueJobState::Pending, "", None, 1), false, &p), EnqueueStep::Start));
}

#[test]
fn failed_start_replays_the_recorded_job() {
    let p = prefixes();
    let held = job("j1", QueueJobState::Pending, "candidate hold: two turns", Some("turn-1"), 1);
    let s = after_start_failure(Some(held), BackendFailure::definite("x".to_owned()), &p).unwrap();
    assert!(!s.queued);
    assert_eq!(s.turn_id, None);
    assert_eq!(s.warning.unwrap().kind, BackendFailureKind::StartingCandidatesHeld);
    let clean = job("j2", QueueJobState::Pending, "", None, 1);
    assert!(matches!(
        after_start_failure(Some(clean), BackendFailure::definite("boom".to_owned()), &p),
        Err(QueueRunnerError::Backend(f)) if f.message == "boom"
    ));
}

#[test]
fn sealed_fence_held_target_or_live_turn_start_nothing() {
    let mut sealed = StartRun::new(1, HOLD.to_owned());
    assert!(is_idle_finish(&sealed.on(StartEvent::Admission(Some(DrainGateError::Sealed)))));
    assert!(matches!(sealed.stage, StartStage::Finished));

    let mut poisoned = StartRun::new(1, HOLD.to_owned());
    assert!(matches!(
        poisoned.on(StartEvent::Admission(Some(DrainGateError::LockPoisoned))),
        StartAction::Finish { result: Err(QueueRunnerError::RestartDrain(DrainGateError::LockPoisoned)), .. }
    ));

    let mut held = StartRun::new(1, HOLD.to_owned());
    held.on(StartEvent::Admission(None));
    assert!(is_idle_finish(&held.on(StartEvent::Held(true))));

    let mut live = StartRun::new(1, HOLD.to_owned());
    live.on(StartEvent::Admission(None));
    live.on(StartEvent::Held(false));
    live.on(StartEvent::Jobs(vec![job("j1", QueueJobState::Pending, "", None, 1)]));
    assert_eq!(live.job().unwrap().job_id, "j1");
    live.on(StartEvent::Due(true));
    assert!(is_idle_finish(&live.on(StartEvent::ActiveTurn(Ok(Some("turn-9".to_owned()))))));
}

#[test]
fn the_pending_head_is_never_bypassed() {
    // A job that owns the target blocks the queue.
    let mut owned = StartRun::new(1, HOLD.to_owned());
    owned.on(StartEvent::Admission(None));
    owned.on(StartEvent::Held(false));
    let jobs = vec![
        job("running", QueueJobState::Running, "", Some("t"), 0),
        job("next", QueueJobState::Pending, "", None, 1),
    ];
    assert!(is_idle_finish(&owned.on(StartEvent::Jobs(jobs))));

    // A head of another generation waits for recovery; the newer job behind it does not start.
    let mut old = StartRun::new(1, HOLD.to_owned());
    old.on(StartEvent::Admission(None));
    old.on(StartEvent::Held(false));
    let jobs = vec![
        job("old", QueueJobState::Pending, "", None, 0),
        job("new", QueueJobState::Pending, "", None, 1),
    ];
    assert!(is_idle_finish(&old.on(StartEvent::Jobs(jobs))));

    // A job held by the Reserve policy is skipped, and a head not yet due waits.
    let mut due = StartRun::new(1, HOLD.to_owned());
    due.on(StartEvent::Admission(None));
    due.on(StartEvent::Held(false));
    let jobs = vec![
        job("held", QueueJobState::Pending, "reserve hold: quota", None, 1),
        job("head", QueueJobState::Pending, "", None, 1),
    ];
    assert!(matches!(due.on(StartEvent::Jobs(jobs)), StartAction::CheckDue));
    assert_eq!(due.job().unwrap().job_id, "head");
    assert!(is_idle_finish(&due.on(StartEvent::Due(false))));
}

#[test]
fn claimed_start_runs_or_reports_a_lost_claim() {
    let mut run = run_to_claim(job("j1", QueueJobState::Pending, "", None, 1));
    assert!(matches!(run.on(StartEvent::Claimed(true)), StartAction::StartTurn));
    match run.on(StartEvent::Started(Ok("turn-1".to_owned()))) {
        StartAction::MarkRunning(t) => assert_eq!(t, "turn-1"),
        other => panic!("expected to mark the job running, got {other:?}"),
    }
    let running = job("j1", QueueJobState::Running, "", Some("turn-1"), 1);
    match run.on(StartEvent::Running(Some(running))) {
        StartAction::Finish { result: Ok(Some(j)), note_usage_limit: false } => assert_eq!(j.job_id, "j1"),
        other => panic!("expected the running job, got {other:?}"),
    }

    let mut lost = run_to_claim(job("j2", QueueJobState::Pending, "", None, 1));
    lost.on(StartEvent::Claimed(true));
    lost.on(StartEvent::Started(Ok("turn-2".to_owned())));
    assert!(matches!(
        lost.on(StartEvent::Running(None)),
        StartAction::Finish {
            result: Err(QueueRunnerError::AttemptClaimLost { job_id, observed_turn_id: Some(t) }),
            ..
        } if job_id == "j2" && t == "turn-2"
    ));

    let mut unclaimed = run_to_claim(job("j3", QueueJobState::Pending, "", None, 1));
    assert!(is_idle_finish(&unclaimed.on(StartEvent::Claimed(false))));
}

#[test]
fn failed_start_is_recorded_then_reported() {
    let mut run = run_to_claim(job("j1", QueueJobState::Pending, "", None, 1));
    run.on(StartEvent::Claimed(true));
    let failure = BackendFailure { message: "limit".to_owned(), ambiguous: false, kind: BackendFailureKind::UsageLimit };
    match run.on(StartEvent::Started(Err(failure))) {
        StartAction::RecordFailure { message, ambiguous } => {
            assert_eq!(message, "reserve hold:limit");
            assert!(!ambiguous);
        }
        other => panic!("expected the failure to be recorded, got {other:?}"),
    }
    assert!(matches!(
        run.on(StartEvent::Recorded(true)),
        StartAction::Finish { result: Err(QueueRunnerError::Backend(f)), note_usage_limit: true } if f.message == "limit"
    ));

    let mut lost = run_to_claim(job("j2", QueueJobState::Pending, "", None, 1));
    lost.on(StartEvent::Claimed(true));
    lost.on(StartEvent::Started(Err(BackendFailure::ambiguous("timeout".to_owned()))));
    assert!(matches!(
        lost.on(StartEvent::Recorded(false)),
        StartAction::Finish {
            result: Err(QueueRunnerError::AttemptClaimLost { job_id, observed_turn_id: None }),
            note_usage_limit: false,
        } if job_id == "j2"
    ));
}

#[test]
fn claimed_transition_completes_or_marks_its_claim_unknown() {
    let mut ok = ClaimedTransition::new(TransitionKind::Enter);
    assert!(matches!(ok.on(TransitionEvent::Claimed(Ok(Some(7)))), TransitionAction::Apply));
    assert!(matches!(ok.on(TransitionEvent::Applied(Ok(()))), TransitionAction::VerifyFinal));
    assert!(matches!(
        ok.on(TransitionEvent::Verified(Ok(()))),
        TransitionAction::Complete { from: "entering", to: "reserve" }
    ));
    assert!(matches!(ok.on(TransitionEvent::Completed(Ok(true))), TransitionAction::Finish(Ok(()))));

    let mut superseded = ClaimedTransition::new(TransitionKind::Enter);
    match superseded.on(TransitionEvent::Claimed(Ok(None))) {
        TransitionAction::Finish(Err(f)) => {
            assert_eq!(f.message, ENTRY_SUPERSEDED);
            assert_eq!(f.kind, BackendFailureKind::AutoReserveHeld);
        }
        other => panic!("expected a hold, got {other:?}"),
    }

    let mut failed = ClaimedTransition::new(TransitionKind::Restore);
    failed.on(TransitionEvent::Claimed(Ok(Some(3))));
    match failed.on(TransitionEvent::Applied(Err(BackendFailure::definite("apply failed".to_owned())))) {
        TransitionAction::MarkUnknown { revision, reason } => {
            assert_eq!(revision, 3);
            assert_eq!(reason, "apply failed");
        }
        other => panic!("expected the claim to be marked unknown, got {other:?}"),
    }
    assert!(matches!(
        failed.on(TransitionEvent::Marked),
        TransitionAction::Finish(Err(f)) if f.message == "apply failed"
    ));

    let mut lost = ClaimedTransition::new(TransitionKind::Restore);
    lost.on(TransitionEvent::Claimed(Ok(Some(4))));
    lost.on(TransitionEvent::Applied(Ok(())));
    lost.on(TransitionEvent::Verified(Ok(())));
    match lost.on(TransitionEvent::Completed(Ok(false))) {
        TransitionAction::MarkUnknown { revision, reason } => {
            assert_eq!(revision, 4);
            assert_eq!(reason, RESTORE_COMPLETION_SUPERSEDED);
        }
        other => panic!("expected the claim to be marked unknown, got {other:?}"),
    }
}

#[test]
fn handoff_keeps_the_source_when_no_fork_is_needed() {
    let kept = handoff_entry("src", false, Some("other".to_owned())).unwrap();
    assert_eq!(kept.thread_id, "src");
    assert!(kept.forked_from.is_none());
    let chained = handoff_entry("src", true, Some("end".to_owned())).unwrap();
    assert_eq!(chained.thread_id, "end");
    assert_eq!(chained.forked_from.as_deref(), Some("src"));
    assert!(handoff_entry("src", true, None).is_none());
    assert!(keeps_managed_target(false, true));
    assert!(!keeps_managed_target(true, true));
    assert!(!keeps_managed_target(false, false));
}
