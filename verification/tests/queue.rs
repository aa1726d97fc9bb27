use cdr_runtime_core::queue_runner::fork_handoff::{unchanged, visible_fork_error, INTERRUPTED_FORK_ERROR};
use cdr_runtime_core::queue_runner::job::{QueueJobRecord, QueueJobState};
use cdr_runtime_core::queue_runner::recovery::{affected_jobs, running_job_unresolved, turn_status};
use cdr_runtime_core::queue_runner::retry::{eligible_pending_head, replay_existing};
use cdr_runtime_core::queue_runner::{
    busy_status_from, control_binding_from, generation_i64, id_i64, is_active_writer_message,
    BackendFailure, BackendFailureKind, FailurePrefixes, QueueRunnerError, TurnRecord, TurnStatus,
};

fn prefixes() -> FailurePrefixes {
    FailurePrefixes {
        unresolved_fork: "unresolved fork:".to_owned(),
        starting_candidate_hold: "candidate hold:".to_owned(),
        reserve_hold: "reserve hold:".to_owned(),
    }
}

fn job(id: &str, target: &str, state: QueueJobState, last_error: &str, turn_id: Option<&str>) -> QueueJobRecord {
    QueueJobRecord {
        job_id: id.to_owned(),
        target_thread_id: target.to_owned(),
        channel_id: 10,
        owner_user_id: Some(20),
        discord_message_id: None,
        state,
        last_error: last_error.to_owned(),
        turn_id: turn_id.map(str::to_owned),
        app_server_generation: 1,
        attempt_count: 0,
        goal_waiting: false,
    }
}

#[test]
fn failure_constructors_set_kind_and_ambiguity() {
    let cases = [
        (BackendFailure::definite("m".to_owned()), false, BackendFailureKind::Other),
        (BackendFailure::ambiguous("m".to_owned()), true, BackendFailureKind::Other),
        (BackendFailure::active_writer("m".to_owned()), false, BackendFailureKind::ActiveWriter),
        (BackendFailure::quarantined("m".to_owned()), true, BackendFailureKind::Quarantined),
        (BackendFailure::fork_fenced("m".to_owned()), true, BackendFailureKind::ForkFenced),
        (
            BackendFailure::starting_candidates_held("m".to_owned()),
            true,
            BackendFailureKind::StartingCandidatesHeld,
        ),
        (BackendFailure::auto_reserve_held("m".to_owned()), true, BackendFailureKind::AutoReserveHeld),
    ];
    for (failure, ambiguous, kind) in cases {
        assert_eq!(failure.message, "m");
        assert_eq!(failure.ambiguous, ambiguous);
        assert_eq!(failure.kind, kind);
    }
}

#[test]
fn active_writer_messages_are_recognized() {
    assert!(is_active_writer_message("thread/resume failed: thread already has an active writer"));
    assert!(!is_active_writer_message("thread/resume failed: timeout"));
    assert!(!is_active_writer_message("already has an active writer"));
}

#[test]
fn persisted_failures_are_classified_by_message() {
    let p = prefixes();
    assert_eq!(BackendFailure::persisted("unresolved fork: x".to_owned(), false, &p).kind, BackendFailureKind::ForkFenced);
    assert_eq!(
        BackendFailure::persisted("candidate hold: x".to_owned(), true, &p).kind,
        BackendFailureKind::StartingCandidatesHeld
    );
    let writer = "thread/resume: already has an active writer";
    assert_eq!(BackendFailure::persisted(writer.to_owned(), false, &p).kind, BackendFailureKind::ActiveWriter);
    assert_eq!(BackendFailure::persisted(writer.to_owned(), true, &p).kind, BackendFailureKind::Other);
    assert_eq!(BackendFailure::persisted("other".to_owned(), false, &p).kind, BackendFailureKind::Other);
}

#[test]
fn pending_head_waits_for_owning_jobs_and_skips_held_ones() {
    let hold = "reserve hold:";
    let jobs = vec![
        job("a", "t", QueueJobState::Quarantined, "", None),
        job("b", "t", QueueJobState::Pending, "reserve hold: wait", None),
        job("c", "t", QueueJobState::Pending, "", None),
    ];
    assert_eq!(eligible_pending_head(&jobs, hold), Some(2));
    let mut busy = jobs.clone();
    busy.push(job("d", "t", QueueJobState::Running, "", Some("turn")));
    assert_eq!(eligible_pending_head(&busy, hold), None);
    assert_eq!(eligible_pending_head(&jobs[..2], hold), None);
}

#[test]
fn replay_reports_existing_job_by_state() {
    let p = prefixes();
    let pending = replay_existing(job("a", "t", QueueJobState::Pending, "", None), &p);
    assert_eq!(pending.job_id, "a");
    assert!(pending.queued);
    assert_eq!(pending.turn_id, None);
    assert_eq!(pending.warning, None);

    let running = replay_existing(job("b", "t", QueueJobState::Running, "", Some("turn-1")), &p);
    assert!(!running.queued);
    assert_eq!(running.turn_id.as_deref(), Some("turn-1"));

    let quarantined = replay_existing(job("c", "t", QueueJobState::Quarantined, "bad", Some("turn-2")), &p);
    assert!(!quarantined.queued);
    assert_eq!(quarantined.turn_id, None);
    assert_eq!(quarantined.warning, Some(BackendFailure::quarantined("bad".to_owned())));

    let held = replay_existing(job("d", "t", QueueJobState::Starting, "candidate hold: 2", Some("x")), &p);
    assert!(!held.queued);
    assert_eq!(held.turn_id, None);
    assert_eq!(held.warning.unwrap().kind, BackendFailureKind::StartingCandidatesHeld);

    let reserve = replay_existing(job("e", "t", QueueJobState::Pending, "reserve hold: x", None), &p);
    assert!(reserve.queued);
    assert_eq!(reserve.warning.unwrap().kind, BackendFailureKind::AutoReserveHeld);

    let starting = replay_existing(job("f", "t", QueueJobState::Starting, "timeout", None), &p);
    assert_eq!(starting.warning, Some(BackendFailure::ambiguous("timeout".to_owned())));
}

#[test]
fn control_binding_prefers_active_turn_then_single_candidate() {
    let jobs = vec![
        job("a", "t", QueueJobState::Pending, "", None),
        job("b", "t", QueueJobState::Running, "", Some("turn-b")),
    ];
    assert_eq!(control_binding_from(Some("live".to_owned()), &jobs), (Some("live".to_owned()), None));
    assert_eq!(control_binding_from(None, &jobs), (Some("turn-b".to_owned()), Some("b".to_owned())));
    let mut two = jobs.clone();
    two.push(job("c", "t", QueueJobState::Starting, "", None));
    assert_eq!(control_binding_from(None, &two), (None, None));
    let mut waiting = jobs.clone();
    waiting[1].goal_waiting = true;
    assert_eq!(control_binding_from(None, &waiting), (None, None));
}

#[test]
fn busy_status_allows_steering_only_an_active_turn() {
    let s = busy_status_from(true, false);
    assert!(s.busy && s.allow_steer);
    let s = busy_status_from(false, true);
    assert!(s.busy && !s.allow_steer);
    let s = busy_status_from(false, false);
    assert!(!s.busy && !s.allow_steer);
}

#[test]
fn store_integers_must_fit_i64() {
    assert_eq!(generation_i64(7).unwrap(), 7);
    assert_eq!(id_i64(i64::MAX as u64).unwrap(), i64::MAX);
    assert!(matches!(generation_i64(u64::MAX), Err(QueueRunnerError::IntegerRange)));
    assert!(matches!(id_i64(i64::MAX as u64 + 1), Err(QueueRunnerError::IntegerRange)));
}

#[test]
fn recovery_reads_turn_status_of_running_jobs() {
    let turns = vec![
        TurnRecord { turn_id: "t1".to_owned(), status: TurnStatus::Completed },
        TurnRecord { turn_id: "t2".to_owned(), status: TurnStatus::InProgress },
        TurnRecord { turn_id: "t1".to_owned(), status: TurnStatus::Failed },
    ];
    assert_eq!(turn_status(&turns, "t1"), Some(TurnStatus::Completed));
    assert_eq!(turn_status(&turns, "t3"), None);
    assert!(!running_job_unresolved(&Some("t2".to_owned()), &turns));
    assert!(running_job_unresolved(&Some("t1".to_owned()), &turns));
    assert!(running_job_unresolved(&Some("t3".to_owned()), &turns));
    assert!(running_job_unresolved(&None, &turns));
}

#[test]
fn unavailable_target_counts_its_unquarantined_jobs() {
    let jobs = vec![
        job("a", "t", QueueJobState::Pending, "", None),
        job("b", "t", QueueJobState::Quarantined, "", None),
        job("c", "u", QueueJobState::Running, "", None),
        job("d", "t", QueueJobState::Starting, "", None),
    ];
    assert_eq!(affected_jobs(&jobs, "t"), 2);
    assert_eq!(affected_jobs(&jobs, "v"), 0);
}

#[test]
fn fork_targets_and_errors() {
    let t = unchanged("thr");
    assert_eq!(t.thread_id, "thr");
    assert_eq!(t.forked_from, None);
    assert_eq!(t.quarantined_job_id, None);
    assert_eq!(visible_fork_error(""), INTERRUPTED_FORK_ERROR);
    assert_eq!(visible_fork_error("fork refused"), "fork refused");
}
