use cdr_runtime_core::queue_runner::fork_handoff::{fork_failure_record, finalized_target, ForkFailureRecord};
use cdr_runtime_core::queue_runner::job::{QueueJobRecord, QueueJobState};
use cdr_runtime_core::queue_runner::recovery::{
    baseline_turn_ids, fenced_handoff_failure, needs_observation, RecoveryState,
};
use cdr_runtime_core::queue_runner::unavailable_log::UnavailableTargetLogState;
use cdr_runtime_core::queue_runner::{BackendFailure, BackendFailureKind, TurnRecord, TurnStatus};
use cdr_runtime_core::reserve_auto::{
    claimed, policy_snapshot_check, rates_failure, resume_observation, usage_resolution, ENTRY_SUPERSEDED,
};
use cdr_runtime_core::resource_report::{disk_line, gib, memory_line, processors_line};
use cdr_runtime_core::server_prompt_authority::{same_delivery_channel, PromptAuthorityError};

fn held(message: &str) -> BackendFailure {
    BackendFailure::auto_reserve_held(message.to_owned())
}

fn job(state: QueueJobState) -> QueueJobRecord {
    QueueJobRecord {
        job_id: "j".to_owned(),
        target_thread_id: "t".to_owned(),
        channel_id: 1,
        owner_user_id: None,
        discord_message_id: None,
        state,
        last_error: String::new(),
        turn_id: None,
        app_server_generation: 1,
        attempt_count: 0,
        goal_waiting: false,
    }
}

#[test]
fn cold_targets_last_until_reconciled() {
    let mut state = RecoveryState::new();
    let mut logs = UnavailableTargetLogState::new();
    logs.on_failure("gone", "unreachable", 1_000);
    state.initialize(&["b".to_owned(), "a".to_owned()], &mut logs);
    assert!(state.is_cold("a"));
    assert!(state.is_cold("b"));
    assert!(logs.retry_due("gone", 1_001));
    state.initialize(&["c".to_owned()], &mut logs);
    assert!(!state.is_cold("c"));
    state.mark_reconciled("a");
    assert!(!state.is_cold("a"));
    assert!(state.is_cold("b"));
}

#[test]
fn recovery_helpers() {
    assert!(needs_observation(&[job(QueueJobState::Pending), job(QueueJobState::Starting)]));
    assert!(!needs_observation(&[job(QueueJobState::Pending), job(QueueJobState::Quarantined)]));
    let f = fenced_handoff_failure("h7");
    assert_eq!(f.message, "app-server fork handoff h7 is unresolved; duplicate fork retry is fenced");
    assert!(!f.ambiguous);
    let turns = vec![
        TurnRecord { turn_id: "x".to_owned(), status: TurnStatus::Completed },
        TurnRecord { turn_id: "y".to_owned(), status: TurnStatus::Failed },
    ];
    assert_eq!(baseline_turn_ids(&turns), vec!["x".to_owned(), "y".to_owned()]);
    assert_eq!(fork_failure_record(true), ForkFailureRecord::KeepFenced);
    assert_eq!(fork_failure_record(false), ForkFailureRecord::Cancel);
    let t = finalized_target("src", "dst", Some("q".to_owned()));
    assert_eq!(t.thread_id, "dst");
    assert_eq!(t.forked_from.as_deref(), Some("src"));
    assert_eq!(t.quarantined_job_id.as_deref(), Some("q"));
    assert_eq!(same_delivery_channel(3, 3), Ok(()));
    assert_eq!(
        same_delivery_channel(3, 4),
        Err(PromptAuthorityError::Invalid("original delivery channel changed"))
    );
}

#[test]
fn reserve_observation_checks() {
    assert_eq!(resume_observation(Some("thr"), "thr", Some("idle")), Ok(()));
    assert_eq!(
        resume_observation(Some("other"), "thr", Some("idle")),
        Err(held("automatic resume returned a different or missing thread"))
    );
    assert_eq!(
        resume_observation(Some("thr"), "thr", Some("active")),
        Err(held("automatic settings require an exact idle thread observation"))
    );
    assert_eq!(rates_failure(true, "limit".to_owned()).kind, BackendFailureKind::UsageLimit);
    assert_eq!(rates_failure(false, "down".to_owned()), BackendFailure::definite("down".to_owned()));
    assert_eq!(policy_snapshot_check(true, false, false), Ok(()));
    assert_eq!(
        policy_snapshot_check(true, true, false),
        Err(held("automatic Reserve policy was superseded or held"))
    );
    assert_eq!(usage_resolution(false, false), Ok(()));
    assert_eq!(usage_resolution(true, true), Ok(()));
    assert_eq!(usage_resolution(true, false), Err(held("automatic usage-limit handling was superseded")));
    assert_eq!(claimed(true, ENTRY_SUPERSEDED), Ok(()));
    assert_eq!(claimed(false, ENTRY_SUPERSEDED), Err(held(ENTRY_SUPERSEDED)));
}

#[test]
fn resource_report_lines() {
    let g: u64 = 1 << 30;
    assert_eq!(gib(0), "0.00 GiB");
    assert_eq!(gib(g), "1.00 GiB");
    assert_eq!(gib(3 * g / 2), "1.50 GiB");
    assert_eq!(gib(5_443_871_046), "5.06 GiB");
    assert_eq!(gib(123_456_789_012), "114.97 GiB");
    assert_eq!(processors_line(8), "논리 CPU: 8");
    assert_eq!(
        processors_line(128),
        "논리 CPU: 128 · CPU%는 primary processor group 범위이며 전체 CPU가 아님"
    );
    assert_eq!(memory_line(4 * g, g), "RAM: 사용 3.00 GiB / 전체 4.00 GiB · 사용 가능 1.00 GiB");
    assert_eq!(
        disk_line(10 * g, 2 * g, 3 * g),
        "Disk: 사용자 할당 전체 10.00 GiB · 사용자 사용 가능 2.00 GiB · 볼륨 free 3.00 GiB"
    );
}
