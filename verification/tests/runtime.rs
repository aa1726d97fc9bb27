use cdr_runtime_core::restart_readiness::drain::DrainFenceKey;
use cdr_runtime_core::restart_readiness::drain_controller::{
    initial_state_check, owns_fence_marker, owns_identity_marker, prepare_unchanged, DrainProtocolError,
};
use cdr_runtime_core::restart_readiness::drain_marker::RuntimeMarker;
use cdr_runtime_core::restart_readiness::live_drain::{
    quiescence_verdict, record_active, LifecycleObservation, LiveDrainState, LiveObservation, DURABLE_CHANGED,
    RESIDENT_CHANGED,
};
use cdr_runtime_core::restart_readiness::maintenance::{AbsentTarget, IN_INVENTORY};
use cdr_runtime_core::restart_readiness::{
    after_close, durable_blocker, final_verdict, inspects_thread, CloseOutcome, RestartReadinessError,
    RestartReadinessState, ABSENCE_CHANGED, STATE_CHANGED,
};
use cdr_runtime_core::runtime_instance::{
    heartbeat_marker_text, lock_marker_text, mutex_name, socket_step, SocketStep,
};
use cdr_runtime_core::runtime_paths::discovery::{executable_name, local_app_roots};
use cdr_runtime_core::runtime_paths::state_paths::{is_state_db_name, newest, resolve};
use cdr_runtime_core::runtime_paths::RuntimePathError;
use cdr_runtime_core::server_request_worker::recovery::{
    first_error_result, keep_first_error, snapshot_after_fetch, snapshot_start, worker_step, RetrySchedule,
    SnapshotStep, WorkerEvent, WorkerStep,
};

#[test]
fn instance_markers_and_lock_name() {
    assert_eq!(lock_marker_text(42, 1_700_000_000), "pid=42\nstarted_at=1700000000\n");
    assert_eq!(heartbeat_marker_text(7, 0), "pid=7\nupdated_at=0\n");
    assert_eq!(mutex_name("C:\\Bots\\Codex"), "Local\\CodexDiscordBot_48e4ad877f741cbd");
    assert_eq!(mutex_name("c:\\bots\\codex"), mutex_name("C:\\BOTS\\CODEX"));
    assert_eq!(mutex_name("/srv/ÄBot"), "Local\\CodexDiscordBot_49877a4a5afd7128");
    assert_eq!(socket_step(true, true), SocketStep::AlreadyRunning);
    assert_eq!(socket_step(true, false), SocketStep::RemoveStale);
    assert_eq!(socket_step(false, false), SocketStep::Bind);
}

fn env(pairs: &[(&str, &str)]) -> Vec<(String, String)> {
    pairs.iter().map(|(a, b)| (a.to_string(), b.to_string())).collect()
}

#[test]
fn state_paths_resolve_home_and_database() {
    assert_eq!(resolve(&env(&[]), Some("/home/u"), '/'), Ok(("/home/u/.codex".to_owned(), None)));
    assert_eq!(
        resolve(&env(&[("CODEX_STATE_DB", "~/db.sqlite")]), Some("/home/u"), '/'),
        Ok(("/home/u/.codex".to_owned(), Some("/home/u/db.sqlite".to_owned())))
    );
    assert_eq!(
        resolve(&env(&[("CODEX_STATE_DB", "/db.sqlite")]), None, '/'),
        Ok((String::new(), Some("/db.sqlite".to_owned())))
    );
    assert_eq!(resolve(&env(&[]), None, '/'), Err(RuntimePathError::UserHomeMissing));
    assert_eq!(resolve(&env(&[("CODEX_HOME", "~/x")]), None, '/'), Err(RuntimePathError::UserHomeMissing));
    assert!(is_state_db_name("state_5.sqlite"));
    assert!(!is_state_db_name("state_5.sqlite-wal"));
    assert!(!is_state_db_name("logs_2.sqlite"));
    assert!(!is_state_db_name("state_"));
}

#[test]
fn newest_candidate_by_time_then_name() {
    let c = vec![(5u128, "b".to_owned()), (9, "a".to_owned()), (9, "c".to_owned()), (1, "z".to_owned())];
    assert_eq!(newest(&c), Some(2));
    let ties = vec![(3u128, "x".to_owned()), (3, "x".to_owned())];
    assert_eq!(newest(&ties), Some(1));
    assert_eq!(newest(&[]), None);
}

#[test]
fn local_app_roots_follow_the_environment() {
    assert_eq!(
        local_app_roots(&env(&[("LOCALAPPDATA", "C:\\L")]), "C:\\U", '\\', true, false),
        Ok(vec![
            "C:\\L\\OpenAI/Codex/bin".to_owned(),
            "C:\\U\\AppData/Local/OpenAI/Codex/bin".to_owned(),
            "C:\\U\\Library/Application Support/OpenAI/Codex/bin".to_owned(),
        ])
    );
    let mac = local_app_roots(&env(&[]), "/Users/u", '/', false, true).unwrap();
    assert_eq!(mac.len(), 3);
    assert_eq!(mac[2], "/Applications/Codex.app/Contents/Resources/bin");
    assert_eq!(executable_name(true), "codex.exe");
    assert_eq!(executable_name(false), "codex");
}

#[test]
fn live_drain_records_active_turns_in_thread_order() {
    let mut active = Vec::new();
    record_active(&mut active, "t2".to_owned(), "u2".to_owned());
    record_active(&mut active, "t1".to_owned(), "u1".to_owned());
    record_active(&mut active, "t2".to_owned(), "u3".to_owned());
    assert_eq!(active, vec![("t1".to_owned(), "u1".to_owned()), ("t2".to_owned(), "u3".to_owned())]);
    let observation = LiveObservation {
        lifecycle: LifecycleObservation {
            healthy: true,
            quarantined: false,
            restart_pending: false,
            has_process_id: true,
            description: String::new(),
        },
        unsettled: false,
        active,
    };
    assert_eq!(
        observation.blocker().as_deref(),
        Some("resident app-server thread t1 still has active turn u1")
    );
    assert_eq!(
        quiescence_verdict(false, true),
        LiveDrainState::Blocked { reason: DURABLE_CHANGED.to_owned() }
    );
    assert_eq!(
        quiescence_verdict(true, false),
        LiveDrainState::Blocked { reason: RESIDENT_CHANGED.to_owned() }
    );
    assert_eq!(quiescence_verdict(true, true), LiveDrainState::Ready);
}

#[test]
fn readiness_inspection_steps() {
    assert_eq!(durable_blocker(&[]), None);
    assert_eq!(
        durable_blocker(&["queue busy".to_owned(), "other".to_owned()]),
        Some(RestartReadinessState::Blocked { reason: "queue busy".to_owned() })
    );
    assert!(!inspects_thread(Some("t"), "t"));
    assert!(inspects_thread(Some("t"), "u"));
    assert!(inspects_thread(None, "t"));
    assert_eq!(final_verdict(false, false), RestartReadinessState::Blocked { reason: ABSENCE_CHANGED.to_owned() });
    assert_eq!(final_verdict(true, false), RestartReadinessState::Blocked { reason: STATE_CHANGED.to_owned() });
    assert_eq!(final_verdict(true, true), RestartReadinessState::Ready);
    assert_eq!(
        after_close(CloseOutcome::TimedOut, 5000, Ok(())),
        Some(Err(RestartReadinessError::CloseTimeout { timeout_ms: 5000 }))
    );
    assert_eq!(after_close(CloseOutcome::Failed, 5000, Ok(())), None);
    assert_eq!(after_close(CloseOutcome::Closed, 5000, Ok(())), Some(Ok(())));
}

#[test]
fn maintenance_inventory_and_ownership() {
    let t = AbsentTarget { state_db: "s".to_owned(), thread_id: "thr".to_owned(), room: 1, parent: 2 };
    assert_eq!(
        t.inventory_check(vec!["b".to_owned(), "a".to_owned(), "b".to_owned()], false),
        Ok(vec!["a".to_owned(), "b".to_owned(), "b".to_owned()])
    );
    let refused = |r: Result<(), RestartReadinessError>| match r {
        Err(RestartReadinessError::InvalidThreadState { reason, .. }) => reason,
        other => panic!("{other:?}"),
    };
    match t.inventory_check(vec!["thr".to_owned()], false) {
        Err(RestartReadinessError::InvalidThreadState { reason, .. }) => assert_eq!(reason, IN_INVENTORY),
        other => panic!("{other:?}"),
    }
    assert!(t.inventory_check(vec![], true).is_err());
    assert_eq!(t.protection_check(None), Ok(()));
    assert_eq!(refused(t.protection_check(Some("cleanup 4"))), "maintenance target protected by cleanup 4");
    assert_eq!(t.ownership_check("codex_thread_fork_handoffs", false), Ok(()));
    assert_eq!(
        refused(t.ownership_check("codex_thread_fork_handoffs", true)),
        "maintenance target retains ownership in codex_thread_fork_handoffs"
    );
}

#[test]
fn drain_controller_marker_checks() {
    assert!(matches!(initial_state_check(true, false), Err(DrainProtocolError::OrphanedState)));
    assert!(matches!(initial_state_check(false, true), Err(DrainProtocolError::OrphanedState)));
    assert!(initial_state_check(false, false).is_ok());
    let k = DrainFenceKey::new("r".to_owned(), "1|2".to_owned(), "n".to_owned()).unwrap();
    let other = DrainFenceKey::new("r".to_owned(), "1|2".to_owned(), "m".to_owned()).unwrap();
    assert!(prepare_unchanged(&Some(k.duplicate()), &k).is_ok());
    assert!(matches!(prepare_unchanged(&Some(other.duplicate()), &k), Err(DrainProtocolError::PrepareChanged)));
    assert!(matches!(prepare_unchanged(&None, &k), Err(DrainProtocolError::PrepareChanged)));
    assert!(owns_fence_marker(&Some(k.duplicate()), &k));
    assert!(!owns_fence_marker(&Some(other), &k));
    assert!(!owns_fence_marker(&None, &k));
    let m = RuntimeMarker { runtime_id: "r".to_owned(), process_id: 3 };
    assert!(owns_identity_marker(&Some(m.clone()), &m));
    assert!(!owns_identity_marker(&Some(RuntimeMarker { runtime_id: "r".to_owned(), process_id: 4 }), &m));
    assert!(!owns_identity_marker(&None, &m));
}

#[test]
fn worker_steps_and_snapshots() {
    assert_eq!(worker_step(WorkerEvent::Request { generation: 3 }), WorkerStep::Process { generation: 3 });
    assert_eq!(worker_step(WorkerEvent::Gap), WorkerStep::Recover { mark_gap: true });
    assert_eq!(worker_step(WorkerEvent::Lagged), WorkerStep::Recover { mark_gap: true });
    assert_eq!(worker_step(WorkerEvent::Closed), WorkerStep::Stop);
    assert_eq!(snapshot_start(3), SnapshotStep::Fetch);
    assert_eq!(snapshot_start(0), SnapshotStep::GiveUp(0));
    assert_eq!(snapshot_after_fetch(1, 3, 7, 7), SnapshotStep::Accept(7));
    assert_eq!(snapshot_after_fetch(1, 3, 7, 8), SnapshotStep::Fetch);
    assert_eq!(snapshot_after_fetch(3, 3, 7, 8), SnapshotStep::GiveUp(3));
    let mut first: Option<&str> = None;
    keep_first_error(&mut first, Ok(()));
    keep_first_error(&mut first, Err("a"));
    keep_first_error(&mut first, Err("b"));
    assert_eq!(first_error_result(first), Err("a"));
    assert_eq!(first_error_result::<&str>(None), Ok(()));
    let mut schedule = RetrySchedule::new();
    schedule.on_outcome(false, false, 10);
    assert_eq!(schedule.deadline(), Some(1_010));
    schedule.on_outcome(false, true, 20);
    assert_eq!(schedule.deadline(), Some(1_010));
    schedule.on_outcome(true, true, 30);
    assert_eq!(schedule.deadline(), None);
    schedule.on_outcome(false, false, 0);
    assert_eq!(schedule.deadline(), Some(1_000));
}
