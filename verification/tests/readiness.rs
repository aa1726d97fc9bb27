use cdr_runtime_core::restart_readiness::live_drain::{LifecycleObservation, LiveObservation};
use cdr_runtime_core::restart_readiness::maintenance::{AbsentTarget, INVALID_TARGET, MAPPING_CHANGED};
use cdr_runtime_core::restart_readiness::thread_state::{
    classify, ThreadObservation, ThreadReadResult, ThreadStatusObservation,
};
use cdr_runtime_core::restart_readiness::{
    wait_step, RestartReadinessError, RestartReadinessState, WaitStep,
};

fn thread(status_type: &str, flags: Option<Vec<Option<&str>>>, updated_at: u64) -> ThreadReadResult {
    ThreadReadResult {
        thread: Some(ThreadObservation {
            id: Some("thr".to_owned()),
            updated_at: Some(updated_at),
            status: Some(ThreadStatusObservation {
                status_type: Some(status_type.to_owned()),
                active_flags: flags.map(|f| f.into_iter().map(|x| x.map(str::to_owned)).collect()),
            }),
        }),
    }
}

fn invalid_reason(r: Result<RestartReadinessState, RestartReadinessError>) -> String {
    match r {
        Err(RestartReadinessError::InvalidThreadState { thread_id, reason }) => {
            assert_eq!(thread_id, "thr");
            reason
        }
        other => panic!("expected an invalid thread state, got {other:?}"),
    }
}

fn blocked(reason: &str) -> Result<RestartReadinessState, RestartReadinessError> {
    Ok(RestartReadinessState::Blocked { reason: reason.to_owned() })
}

#[test]
fn idle_thread_is_ready_once_quiet() {
    assert_eq!(classify(&thread("idle", None, 100), "thr", 30, 130), Ok(RestartReadinessState::Ready));
    assert_eq!(classify(&thread("notLoaded", None, 100), "thr", 30, 500), Ok(RestartReadinessState::Ready));
    assert_eq!(
        classify(&thread("idle", None, 100), "thr", 30, 129),
        blocked("thread thr is recent: updated_at=100 quiet_seconds=30")
    );
    assert_eq!(
        classify(&thread("idle", None, 200), "thr", 30, 100),
        blocked("thread thr is recent: updated_at=200 quiet_seconds=30")
    );
}

#[test]
fn active_thread_is_blocked_with_its_flags() {
    assert_eq!(classify(&thread("active", Some(vec![]), 0), "thr", 0, 0), blocked("thread thr is active"));
    assert_eq!(
        classify(
            &thread("active", Some(vec![Some("waitingOnApproval"), Some("waitingOnUserInput")]), 0),
            "thr",
            0,
            0
        ),
        blocked("thread thr is active flags=waitingOnApproval,waitingOnUserInput")
    );
    assert_eq!(
        classify(&thread("systemError", None, 0), "thr", 0, 0),
        blocked("thread thr has systemError status")
    );
}

#[test]
fn malformed_thread_reads_are_invalid() {
    assert_eq!(invalid_reason(classify(&ThreadReadResult { thread: None }, "thr", 0, 0)), "missing thread object");
    let mut other = thread("idle", None, 0);
    other.thread.as_mut().unwrap().id = Some("other".to_owned());
    assert_eq!(invalid_reason(classify(&other, "thr", 0, 0)), "thread id mismatch");
    let mut no_time = thread("idle", None, 0);
    no_time.thread.as_mut().unwrap().updated_at = None;
    assert_eq!(invalid_reason(classify(&no_time, "thr", 0, 0)), "missing or invalid updatedAt");
    assert_eq!(
        invalid_reason(classify(&thread("active", None, 0), "thr", 0, 0)),
        "active status has no activeFlags array"
    );
    assert_eq!(
        invalid_reason(classify(&thread("active", Some(vec![None]), 0), "thr", 0, 0)),
        "active flag is not text"
    );
    assert_eq!(
        invalid_reason(classify(&thread("active", Some(vec![Some("weird\"flag")]), 0), "thr", 0, 0)),
        "unknown active flag \"weird\\\"flag\""
    );
    assert_eq!(
        invalid_reason(classify(&thread("sleeping", None, 0), "thr", 0, 0)),
        "unknown status type \"sleeping\""
    );
}

#[test]
fn wait_step_polls_until_deadline() {
    assert_eq!(wait_step(RestartReadinessState::Ready, 999, 10, 5), WaitStep::Done);
    let blocked = RestartReadinessState::Blocked { reason: "busy".to_owned() };
    assert_eq!(wait_step(blocked.clone(), 0, 1_000, 250), WaitStep::Sleep(250));
    assert_eq!(wait_step(blocked.clone(), 900, 1_000, 250), WaitStep::Sleep(100));
    assert_eq!(
        wait_step(blocked, 1_000, 1_000, 250),
        WaitStep::Fail(RestartReadinessError::DeadlineExceeded { last_reason: "busy".to_owned() })
    );
}

fn observation(healthy: bool, unsettled: bool, active: Vec<(&str, &str)>) -> LiveObservation {
    LiveObservation {
        lifecycle: LifecycleObservation {
            healthy,
            quarantined: false,
            restart_pending: false,
            has_process_id: true,
            description: "Lifecycle { healthy: false }".to_owned(),
        },
        unsettled,
        active: active.into_iter().map(|(a, b)| (a.to_owned(), b.to_owned())).collect(),
    }
}

#[test]
fn live_drain_blockers_in_priority_order() {
    assert_eq!(observation(true, false, vec![]).blocker(), None);
    assert_eq!(
        observation(false, true, vec![("t", "u")]).blocker().as_deref(),
        Some("resident app-server is not stably healthy: Lifecycle { healthy: false }")
    );
    assert_eq!(
        observation(true, true, vec![("t", "u")]).blocker().as_deref(),
        Some("resident app-server has an unsettled approval or input request")
    );
    assert_eq!(
        observation(true, false, vec![("t1", "u1"), ("t2", "u2")]).blocker().as_deref(),
        Some("resident app-server thread t1 still has active turn u1")
    );
}

fn target(thread_id: &str, room: i64, parent: i64) -> AbsentTarget {
    AbsentTarget { state_db: "state.sqlite".to_owned(), thread_id: thread_id.to_owned(), room, parent }
}

fn refusal(r: Result<(), RestartReadinessError>) -> String {
    match r {
        Err(RestartReadinessError::InvalidThreadState { reason, .. }) => reason,
        other => panic!("expected a refusal, got {other:?}"),
    }
}

#[test]
fn maintenance_ticket_must_name_thread_room_and_parent() {
    assert_eq!(target("thr", 1, 2).validate(), Ok(()));
    assert_eq!(refusal(target("", 1, 2).validate()), INVALID_TARGET);
    assert_eq!(refusal(target("thr", 0, 2).validate()), INVALID_TARGET);
    assert_eq!(refusal(target("thr", 1, -2).validate()), INVALID_TARGET);
}

#[test]
fn maintenance_mapping_must_be_the_single_exact_row() {
    let t = target("thr", 10, 20);
    assert_eq!(t.check_mapping(&[("thr".to_owned(), 10, 20)]), Ok(()));
    assert_eq!(refusal(t.check_mapping(&[])), MAPPING_CHANGED);
    assert_eq!(refusal(t.check_mapping(&[("thr".to_owned(), 10, 21)])), MAPPING_CHANGED);
    assert_eq!(
        refusal(t.check_mapping(&[("thr".to_owned(), 10, 20), ("x".to_owned(), 10, 20)])),
        MAPPING_CHANGED
    );
}
