use cdr_runtime_core::queue_runner::completion::{
    completion_owner, goal_waiting_job, release_owner, running_job_for_turn, OWNERSHIP_CHANGED,
};
use cdr_runtime_core::queue_runner::fork_handoff::{
    begun_handoff_step, chained_target, existing_handoff_step, handoff_basis, needs_fork_preparation,
    unmanaged_candidates, writer_conflict_movable, ForkChain, ForkHandoffRecord, HandoffStep,
    INTERRUPTED_FORK_ERROR,
};
use cdr_runtime_core::queue_runner::job::{QueueJobRecord, QueueJobState};
use cdr_runtime_core::queue_runner::recovery::{
    candidate_turn_ids, first_turn_step, recovery_targets, starting_step, FirstTurnStep, StartingStep,
};
use cdr_runtime_core::queue_runner::submission::{
    after_enqueue, after_start, after_start_failure, job_for_message, job_named, queue_summary,
    start_failure_message, startable_head, EnqueueStep,
};
use cdr_runtime_core::queue_runner::{
    BackendFailure, FailurePrefixes, QueueRunnerError, TurnRecord, TurnStatus,
};

fn job(id: &str, target: &str, state: QueueJobState, generation: i64) -> QueueJobRecord {
    QueueJobRecord {
        job_id: id.to_owned(),
        target_thread_id: target.to_owned(),
        channel_id: 1,
        owner_user_id: Some(2),
        discord_message_id: None,
        state,
        last_error: String::new(),
        turn_id: None,
        app_server_generation: generation,
        attempt_count: 0,
        goal_waiting: false,
    }
}

fn turns(ids: &[&str]) -> Vec<TurnRecord> {
    ids.iter().map(|t| TurnRecord { turn_id: t.to_string(), status: TurnStatus::InProgress }).collect()
}

fn strings(list: &[&str]) -> Vec<String> {
    list.iter().map(|s| s.to_string()).collect()
}

fn prefixes() -> FailurePrefixes {
    FailurePrefixes {
        unresolved_fork: "fork:".to_owned(),
        starting_candidate_hold: "hold:".to_owned(),
        reserve_hold: "reserve:".to_owned(),
    }
}

#[test]
fn candidate_turns_are_new_sorted_and_distinct() {
    let c = candidate_turn_ids(&strings(&["t1"]), &turns(&["t3", "t1", "t2", "t3", "T9", "é"]));
    assert_eq!(c, strings(&["T9", "t2", "t3", "é"]));
    assert!(candidate_turn_ids(&strings(&["a"]), &turns(&["a"])).is_empty());
}

#[test]
fn starting_jobs_recover_by_their_candidates() {
    let one = strings(&["t2"]);
    assert_eq!(starting_step("hold: 2", "hold:", false, one.clone(), false, 1, 1), StartingStep::HoldCandidates(one.clone()));
    assert_eq!(starting_step("", "hold:", true, one.clone(), false, 1, 1), StartingStep::LeaseActive);
    assert_eq!(starting_step("", "hold:", false, one.clone(), false, 1, 1), StartingStep::MarkRunning("t2".to_owned()));
    assert_eq!(starting_step("", "hold:", false, vec![], true, 1, 1), StartingStep::CheckFirstTurn);
    assert_eq!(starting_step("", "hold:", false, vec![], false, 0, 1), StartingStep::CheckFirstTurn);
    assert_eq!(starting_step("", "hold:", false, vec![], false, 1, 1), StartingStep::Unresolved);
    let two = strings(&["a", "b"]);
    assert_eq!(starting_step("", "hold:", false, two.clone(), false, 1, 1), StartingStep::HoldCandidates(two));
    assert_eq!(first_turn_step(true, ""), FirstTurnStep::RecordUnknown);
    assert_eq!(first_turn_step(true, "earlier"), FirstTurnStep::Unresolved);
    assert_eq!(first_turn_step(false, ""), FirstTurnStep::Requeue);
}

#[test]
fn recovery_visits_each_live_target_once_in_order() {
    let jobs = vec![
        job("1", "zeta", QueueJobState::Pending, 1),
        job("2", "alpha", QueueJobState::Running, 1),
        job("3", "zeta", QueueJobState::Starting, 1),
        job("4", "mid", QueueJobState::Quarantined, 1),
    ];
    assert_eq!(recovery_targets(&jobs), strings(&["alpha", "zeta"]));
    assert_eq!(
        unmanaged_candidates(&jobs),
        vec![("alpha".to_owned(), true), ("zeta".to_owned(), true)]
    );
    let idle = vec![job("1", "b", QueueJobState::Pending, 1), job("2", "a", QueueJobState::Pending, 1)];
    assert_eq!(unmanaged_candidates(&idle), vec![("a".to_owned(), false), ("b".to_owned(), false)]);
    assert!(needs_fork_preparation(true, true));
    assert!(needs_fork_preparation(false, false));
    assert!(!needs_fork_preparation(false, true));
}

#[test]
fn fork_chain_follows_completed_targets_and_detects_cycles() {
    let mut chain = ForkChain::new("src");
    assert_eq!(chain.finish(), None);
    assert!(chain.advance("t1".to_owned()).is_ok());
    assert!(chain.advance("t2".to_owned()).is_ok());
    assert_eq!(chain.current(), "t2");
    assert_eq!(chain.finish().as_deref(), Some("t2"));
    match chain.advance("src".to_owned()) {
        Err(QueueRunnerError::ForkTargetCycle { source_thread_id }) => assert_eq!(source_thread_id, "src"),
        other => panic!("expected a cycle, got {other:?}"),
    }
    assert_eq!(chain.current(), "t2");
    let t = chained_target("src", "t2".to_owned());
    assert_eq!(t.forked_from.as_deref(), Some("src"));
    assert_eq!(t.quarantined_job_id, None);
}

fn handoff(target: Option<&str>, observed: Option<&str>, error: &str, ambiguous: bool) -> ForkHandoffRecord {
    ForkHandoffRecord {
        handoff_id: "h1".to_owned(),
        ambiguous_job_id: Some("j1".to_owned()),
        target_thread_id: target.map(str::to_owned),
        observed_target_thread_id: observed.map(str::to_owned),
        last_fork_error: error.to_owned(),
        fork_failure_ambiguous: ambiguous,
    }
}

#[test]
fn handoff_steps() {
    assert_eq!(
        existing_handoff_step(&handoff(None, Some("t9"), "", false)),
        HandoffStep::Finalize { handoff_id: "h1".to_owned(), target: "t9".to_owned() }
    );
    assert_eq!(
        existing_handoff_step(&handoff(None, None, "", false)),
        HandoffStep::Unresolved { handoff_id: "h1".to_owned(), notice: INTERRUPTED_FORK_ERROR.to_owned(), ambiguous: true }
    );
    assert_eq!(
        existing_handoff_step(&handoff(None, None, "refused", false)),
        HandoffStep::Unresolved { handoff_id: "h1".to_owned(), notice: "refused".to_owned(), ambiguous: false }
    );
    match begun_handoff_step("src", &handoff(Some("t5"), Some("t9"), "", false)) {
        HandoffStep::Target(t) => {
            assert_eq!(t.thread_id, "t5");
            assert_eq!(t.forked_from.as_deref(), Some("src"));
            assert_eq!(t.quarantined_job_id.as_deref(), Some("j1"));
        }
        other => panic!("expected a target, got {other:?}"),
    }
    let jobs = vec![job("1", "t", QueueJobState::Pending, 4), job("2", "t", QueueJobState::Starting, 3)];
    assert_eq!(handoff_basis(&jobs, 9), (Some(1), 3));
    assert_eq!(handoff_basis(&jobs[..1], 9), (None, 9));
    assert!(writer_conflict_movable(&jobs[..1]));
    assert!(!writer_conflict_movable(&jobs));
    assert!(!writer_conflict_movable(&[]));
}

#[test]
fn submission_outcomes() {
    let existing = vec![job("1", "t", QueueJobState::Quarantined, 1), job("2", "t", QueueJobState::Pending, 1)];
    assert_eq!(queue_summary(&existing, 1), (true, false));
    assert_eq!(queue_summary(&existing, 2), (true, true));
    assert_eq!(queue_summary(&existing[..1], 2), (false, false));
    let p = prefixes();
    match after_enqueue(true, job("9", "t", QueueJobState::Pending, 1), true, &p) {
        EnqueueStep::Answer(s) => {
            assert_eq!(s.job_id, "9");
            assert!(s.queued);
            assert_eq!(s.turn_id, None);
        }
        other => panic!("{other:?}"),
    }
    assert_eq!(after_enqueue(true, job("9", "t", QueueJobState::Pending, 1), false, &p), EnqueueStep::Start);
    let mut started = job("9", "t", QueueJobState::Running, 1);
    started.turn_id = Some("turn".to_owned());
    let s = after_start("9".to_owned(), Some(started.clone()));
    assert_eq!(s.turn_id.as_deref(), Some("turn"));
    assert!(!s.queued);
    let s = after_start("8".to_owned(), Some(started));
    assert_eq!(s.turn_id, None);
    assert!(s.queued);
    let mut failed = job("9", "t", QueueJobState::Pending, 1);
    failed.last_error = "boom".to_owned();
    let replayed = after_start_failure(Some(failed), BackendFailure::definite("boom".to_owned()), &p).unwrap();
    assert_eq!(replayed.warning, Some(BackendFailure::persisted("boom".to_owned(), false, &p)));
    match after_start_failure(None, BackendFailure::definite("boom".to_owned()), &p) {
        Err(QueueRunnerError::Backend(f)) => assert_eq!(f.message, "boom"),
        other => panic!("{other:?}"),
    }
    let mut with_message = job("m", "t", QueueJobState::Pending, 1);
    with_message.discord_message_id = Some(77);
    let jobs = vec![job("a", "t", QueueJobState::Pending, 1), with_message];
    assert_eq!(job_for_message(&jobs, 77), Some(1));
    assert_eq!(job_for_message(&jobs, 78), None);
    assert_eq!(job_named(&jobs, "a"), Some(0));
    assert_eq!(job_named(&jobs, "z"), None);
}

#[test]
fn start_only_the_current_generation_head() {
    let jobs = vec![job("1", "t", QueueJobState::Pending, 1), job("2", "t", QueueJobState::Pending, 2)];
    assert_eq!(startable_head(&jobs, "reserve:", 1), Some(0));
    assert_eq!(startable_head(&jobs, "reserve:", 2), None);
    let usage = BackendFailure::usage_limit("quota".to_owned());
    assert_eq!(start_failure_message(&usage, "reserve:"), "reserve:quota");
    assert_eq!(start_failure_message(&BackendFailure::definite("x".to_owned()), "reserve:"), "x");
}

#[test]
fn completion_ownership_and_release() {
    let mut a = job("a", "t", QueueJobState::Running, 1);
    a.turn_id = Some("turn".to_owned());
    let b = job("b", "t", QueueJobState::Pending, 1);
    assert_eq!(running_job_for_turn(&[b.clone(), a.clone()], "turn"), Some(1));
    assert_eq!(running_job_for_turn(&[b.clone()], "turn"), None);
    assert_eq!(completion_owner(&[b.clone(), a.clone()], "turn").unwrap(), Some(1));
    assert_eq!(completion_owner(&[b.clone()], "turn").unwrap(), None);
    match completion_owner(&[a.clone(), a.clone()], "turn") {
        Err(QueueRunnerError::InvalidQueueState(m)) => assert_eq!(m, OWNERSHIP_CHANGED),
        other => panic!("{other:?}"),
    }
    assert_eq!(release_owner(Some("r1"), Some("r1"), Some(4), 4, 4, 4), Some(("r1".to_owned(), 4)));
    assert_eq!(release_owner(Some("r1"), Some("r2"), Some(4), 4, 4, 4), None);
    assert_eq!(release_owner(Some("r1"), Some("r1"), None, 4, 4, 4), None);
    assert_eq!(release_owner(Some("r1"), Some("r1"), Some(4), 3, 4, 4), None);
    assert_eq!(release_owner(Some("r1"), Some("r1"), Some(4), 4, 4, 3), None);
    assert_eq!(release_owner(None, Some("r1"), Some(4), 4, 4, 4), None);
    let mut w = job("w", "t", QueueJobState::Running, 1);
    w.goal_waiting = true;
    assert_eq!(goal_waiting_job(&[b.clone(), w.clone()], "t").unwrap(), Some(1));
    assert_eq!(goal_waiting_job(&[b], "t").unwrap(), None);
    match goal_waiting_job(&[w.clone(), w], "t") {
        Err(QueueRunnerError::InvalidQueueState(m)) => assert_eq!(m, "multiple goal-waiting jobs for t"),
        other => panic!("{other:?}"),
    }
}
