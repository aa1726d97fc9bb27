use cdr_runtime_core::queue_runner::job::{QueueJobRecord, QueueJobState};
use cdr_runtime_core::queue_runner::{BackendFailure, BackendFailureKind};
use cdr_runtime_core::reserve_auto::episode::{
    LiveSettings, TierUpdate, PREVIOUS_EFFORT_MISSING, PREVIOUS_INCOMPLETE, RESTORE_STOPPED,
};
use cdr_runtime_core::reserve_auto::flow::{
    PrepareAction, PrepareEvent, PrepareRun, RestoreAction, RestoreEvent, RestoreRun, ARCHIVE_FENCED,
};
use cdr_runtime_core::reserve_auto::{
    PreparationRoute, RateObservation, ReservePolicy, DISABLED_USAGE, USAGE_CLAIM_GONE, USAGE_UNRESOLVED,
};
use cdr_runtime_core::restart_readiness::live_drain::{
    LifecycleObservation, LiveDrainState, LiveObservation, QuiescenceAction, QuiescenceEvent, QuiescenceRun,
    DURABLE_CHANGED, RESIDENT_CHANGED,
};
use cdr_runtime_core::restart_readiness::maintenance::{
    AbsenceAction, AbsenceEvent, AbsenceRun, AbsentTarget, FORK_HANDOFFS_TABLE, IN_INVENTORY, INVALID_TARGET,
    MANAGED_TARGETS_TABLE,
};
use cdr_runtime_core::restart_readiness::RestartReadinessError;
use cdr_runtime_core::server_prompt_authority::{
    AuthorityAction, AuthorityEvent, AuthorityRun, PromptAuthorityError, CONNECTION_CHANGED, MAPPING_CHANGED,
    MISSING_TURN, SECRET_INPUT, TURN_INACTIVE,
};

const MODEL: &str = "reserve-model";

fn policy(mode: &str, state: &str) -> ReservePolicy {
    ReservePolicy {
        thread_id: "thr".to_owned(),
        mode: mode.to_owned(),
        state: state.to_owned(),
        revision: 3,
        account_id: Some("acct".to_owned()),
        previous_model: Some("gpt-main".to_owned()),
        previous_effort: Some("high".to_owned()),
        previous_effort_present: true,
        previous_tier: None,
        applied_model: Some(MODEL.to_owned()),
        applied_effort: Some("medium".to_owned()),
        applied_tier: Some("default".to_owned()),
    }
}

fn rates(allowed: Option<bool>, account: Option<&str>) -> RateObservation {
    RateObservation { ordinary_usage_allowed: allowed, account_id: account.map(str::to_owned) }
}

fn held_message(action: PrepareAction) -> String {
    match action {
        PrepareAction::Finish(Err(f)) => {
            assert_eq!(f.kind, BackendFailureKind::AutoReserveHeld);
            f.message
        }
        other => panic!("expected a hold, got {other:?}"),
    }
}

#[test]
fn archive_fence_holds_before_the_policy_is_read() {
    let mut run = PrepareRun::new();
    assert_eq!(held_message(run.on(PrepareEvent::Fenced(Ok(true)))), ARCHIVE_FENCED);
    assert!(run.policy.is_none());
}

#[test]
fn disabled_policy_ends_before_rate_limits() {
    let mut run = PrepareRun::new();
    assert!(matches!(run.on(PrepareEvent::Fenced(Ok(false))), PrepareAction::ReadPolicy));
    assert!(matches!(run.on(PrepareEvent::Policy(Ok(policy("manual", "reserve")))), PrepareAction::ReadUsageFailure));
    assert!(matches!(run.on(PrepareEvent::UsagePending(Ok(false))), PrepareAction::Finish(Ok(()))));

    let mut pending = PrepareRun::new();
    pending.on(PrepareEvent::Fenced(Ok(false)));
    pending.on(PrepareEvent::Policy(Ok(policy("off", "ordinary"))));
    assert!(matches!(pending.on(PrepareEvent::UsagePending(Ok(true))), PrepareAction::ReadUsageClaim));
    assert_eq!(held_message(pending.on(PrepareEvent::UsageClaim(Ok(true)))), DISABLED_USAGE);

    let mut gone = PrepareRun::new();
    gone.on(PrepareEvent::Fenced(Ok(false)));
    gone.on(PrepareEvent::Policy(Ok(policy("auto", "ordinary"))));
    gone.on(PrepareEvent::UsagePending(Ok(true)));
    assert_eq!(held_message(gone.on(PrepareEvent::UsageClaim(Ok(false)))), USAGE_CLAIM_GONE);
}

#[test]
fn enabled_policy_routes_on_fresh_rates_then_rechecks_usage() {
    let mut run = PrepareRun::new();
    run.on(PrepareEvent::Fenced(Ok(false)));
    run.on(PrepareEvent::Policy(Ok(policy("auto", "reserve"))));
    assert!(matches!(run.on(PrepareEvent::UsagePending(Ok(false))), PrepareAction::ReadRates));
    match run.on(PrepareEvent::Rates(Ok(rates(Some(true), Some("acct"))))) {
        PrepareAction::Run { route, usage_open, .. } => {
            assert_eq!(route, PreparationRoute::Restore);
            assert!(!usage_open);
        }
        other => panic!("expected a route, got {other:?}"),
    }
    assert!(matches!(run.on(PrepareEvent::RouteDone(Ok(()))), PrepareAction::RecheckUsageFailure));
    assert_eq!(held_message(run.on(PrepareEvent::UsageStillPending(Ok(true)))), USAGE_UNRESOLVED);
}

#[test]
fn restore_refuses_incomplete_settings_before_resuming() {
    let mut p = policy("auto", "reserve");
    p.previous_effort_present = false;
    let (mut run, action) = RestoreRun::begin(p, rates(Some(true), Some("acct")), MODEL.to_owned(), false);
    match action {
        RestoreAction::MarkUnknown { revision, reason } => {
            assert_eq!(revision, 3);
            assert_eq!(reason, PREVIOUS_EFFORT_MISSING);
        }
        other => panic!("expected the policy to be marked unknown, got {other:?}"),
    }
    match run.on(RestoreEvent::Marked(Ok(true))) {
        RestoreAction::Finish(Err(f)) => assert_eq!(f.message, PREVIOUS_INCOMPLETE),
        other => panic!("expected a hold, got {other:?}"),
    }
}

#[test]
fn restore_applies_the_recorded_settings_after_fresh_rates() {
    let (mut run, action) = RestoreRun::begin(policy("auto", "reserve"), rates(Some(true), Some("acct")), MODEL.to_owned(), true);
    assert!(matches!(action, RestoreAction::ResolveUsageFailure));
    assert!(matches!(run.on(RestoreEvent::UsageResolved(Ok(true))), RestoreAction::Resume));
    let live = LiveSettings {
        model: MODEL.to_owned(),
        effort: Some("medium".to_owned()),
        effort_present: true,
        tier: Some("default".to_owned()),
    };
    assert!(matches!(run.on(RestoreEvent::Resumed(Ok(live))), RestoreAction::ReadRates));
    match run.on(RestoreEvent::Rates(Ok(rates(Some(true), Some("acct"))))) {
        RestoreAction::BeginTransition(u) => {
            assert_eq!(u.model.as_deref(), Some("gpt-main"));
            assert_eq!(u.effort.as_deref(), Some("high"));
            assert!(!u.effort_clear);
            assert_eq!(u.service_tier, TierUpdate::Clear);
        }
        other => panic!("expected the claimed transition, got {other:?}"),
    }

    let (mut changed, _) = RestoreRun::begin(policy("auto", "reserve"), rates(Some(true), Some("acct")), MODEL.to_owned(), false);
    let manual = LiveSettings { model: "other".to_owned(), effort: None, effort_present: true, tier: None };
    assert!(matches!(changed.on(RestoreEvent::Resumed(Ok(manual))), RestoreAction::MarkUnknown { revision: 3, .. }));
    match changed.on(RestoreEvent::Marked(Ok(true))) {
        RestoreAction::Finish(Err(f)) => assert_eq!(f.message, RESTORE_STOPPED),
        other => panic!("expected a hold, got {other:?}"),
    }
}

fn running_job(channel: i64, owner: Option<i64>) -> QueueJobRecord {
    QueueJobRecord {
        job_id: "job".to_owned(),
        target_thread_id: "thread".to_owned(),
        channel_id: channel,
        owner_user_id: owner,
        discord_message_id: None,
        state: QueueJobState::Running,
        last_error: String::new(),
        turn_id: Some("turn".to_owned()),
        app_server_generation: 5,
        attempt_count: 1,
        goal_waiting: false,
    }
}

fn begin(method: &str, secret: Option<Vec<Option<bool>>>, turn: Option<&str>) -> Result<AuthorityRun, PromptAuthorityError> {
    AuthorityRun::begin(5, method, &secret, Some("thread".to_owned()), turn.map(str::to_owned))
}

#[test]
fn secret_input_is_refused_before_any_read() {
    let refused = begin("item/tool/requestUserInput", Some(vec![None, Some(true)]), Some("turn"));
    assert!(matches!(refused, Err(PromptAuthorityError::Invalid(r)) if r == SECRET_INPUT));
    assert!(matches!(begin("item/approval", None, Some(" turn")), Err(PromptAuthorityError::Invalid(r)) if r == MISSING_TURN));
}

#[test]
fn verified_authority_names_the_original_request() {
    let mut run = begin("item/approval", None, Some("turn")).unwrap();
    let ready = AuthorityEvent::Lifecycle { generation: 5, healthy: true, quarantined: false, restart_pending: false };
    assert!(matches!(run.on(ready), AuthorityAction::ReadActiveTurn));
    assert!(matches!(run.on(AuthorityEvent::ActiveTurn(Some("turn".to_owned()))), AuthorityAction::ReadCompletion));
    assert!(matches!(run.on(AuthorityEvent::CompletionObserved(false)), AuthorityAction::ListJobs));
    assert!(matches!(
        run.on(AuthorityEvent::Jobs(vec![running_job(42, Some(7))])),
        AuthorityAction::ReadMapping { channel: 42 }
    ));
    assert!(matches!(run.on(AuthorityEvent::Mapped(Some("thread".to_owned()))), AuthorityAction::ReadPending));
    match run.on(AuthorityEvent::Pending { generation: 5, still_pending: true }) {
        AuthorityAction::Finish(Ok(a)) => {
            assert_eq!(a.thread_id, "thread");
            assert_eq!(a.turn_id, "turn");
            assert_eq!(a.channel_id, 42);
            assert_eq!(a.user_id, 7);
            assert_eq!(a.generation, 5);
        }
        other => panic!("expected the authority, got {other:?}"),
    }
}

#[test]
fn authority_refusals_in_order() {
    let mut changed = begin("item/approval", None, Some("turn")).unwrap();
    let other_generation = AuthorityEvent::Lifecycle { generation: 6, healthy: true, quarantined: false, restart_pending: false };
    assert!(matches!(
        changed.on(other_generation),
        AuthorityAction::Finish(Err(PromptAuthorityError::Invalid(r))) if r == CONNECTION_CHANGED
    ));

    let mut ended = begin("item/approval", None, Some("turn")).unwrap();
    ended.on(AuthorityEvent::Lifecycle { generation: 5, healthy: true, quarantined: false, restart_pending: false });
    ended.on(AuthorityEvent::ActiveTurn(Some("turn".to_owned())));
    assert!(matches!(
        ended.on(AuthorityEvent::CompletionObserved(true)),
        AuthorityAction::Finish(Err(PromptAuthorityError::Invalid(r))) if r == TURN_INACTIVE
    ));

    let mut remapped = begin("item/approval", None, Some("turn")).unwrap();
    remapped.on(AuthorityEvent::Lifecycle { generation: 5, healthy: true, quarantined: false, restart_pending: false });
    remapped.on(AuthorityEvent::ActiveTurn(Some("turn".to_owned())));
    remapped.on(AuthorityEvent::CompletionObserved(false));
    remapped.on(AuthorityEvent::Jobs(vec![running_job(42, Some(7))]));
    assert!(matches!(
        remapped.on(AuthorityEvent::Mapped(Some("elsewhere".to_owned()))),
        AuthorityAction::Finish(Err(PromptAuthorityError::Invalid(r))) if r == MAPPING_CHANGED
    ));
}

fn observation(unsettled: bool, active: Vec<(&str, &str)>) -> LiveObservation {
    LiveObservation {
        lifecycle: LifecycleObservation {
            healthy: true,
            quarantined: false,
            restart_pending: false,
            has_process_id: true,
            description: "Lifecycle { healthy: true }".to_owned(),
        },
        unsettled,
        active: active.into_iter().map(|(a, b)| (a.to_owned(), b.to_owned())).collect(),
    }
}

fn blocked_reason(action: QuiescenceAction) -> String {
    match action {
        QuiescenceAction::Finish(LiveDrainState::Blocked { reason }) => reason,
        other => panic!("expected a blocker, got {other:?}"),
    }
}

#[test]
fn active_turn_or_unsettled_request_blocks_live_drain() {
    let durable = || QuiescenceEvent::Durable { blockers: vec![], target_thread_ids: vec!["thread-a".to_owned()] };

    let mut running = QuiescenceRun::new();
    let reason = blocked_reason(running.on(QuiescenceEvent::Durable {
        blockers: vec!["job job-1 is running".to_owned()],
        target_thread_ids: vec!["thread-a".to_owned()],
    }));
    assert!(reason.contains("running"));

    let mut active = QuiescenceRun::new();
    assert!(matches!(active.on(durable()), QuiescenceAction::Observe));
    assert!(blocked_reason(active.on(QuiescenceEvent::Observed(observation(false, vec![("thread-a", "turn-1")])))).contains("active turn"));

    let mut unsettled = QuiescenceRun::new();
    unsettled.on(durable());
    assert!(blocked_reason(unsettled.on(QuiescenceEvent::Observed(observation(true, vec![])))).contains("unsettled"));

    let mut changed = QuiescenceRun::new();
    changed.on(durable());
    assert!(matches!(changed.on(QuiescenceEvent::Observed(observation(false, vec![]))), QuiescenceAction::ReadDurable));
    assert!(matches!(changed.on(QuiescenceEvent::DurableAgain { unchanged: true }), QuiescenceAction::Observe));
    assert_eq!(
        blocked_reason(changed.on(QuiescenceEvent::Observed(observation(false, vec![("thread-a", "turn-2")])))),
        RESIDENT_CHANGED
    );

    let mut durable_changed = QuiescenceRun::new();
    durable_changed.on(durable());
    durable_changed.on(QuiescenceEvent::Observed(observation(false, vec![])));
    assert_eq!(blocked_reason(durable_changed.on(QuiescenceEvent::DurableAgain { unchanged: false })), DURABLE_CHANGED);
}

#[test]
fn idle_live_server_and_stable_durable_snapshot_are_ready() {
    let mut run = QuiescenceRun::new();
    run.on(QuiescenceEvent::Durable { blockers: vec![], target_thread_ids: vec!["thread-a".to_owned()] });
    run.on(QuiescenceEvent::Observed(observation(false, vec![])));
    run.on(QuiescenceEvent::DurableAgain { unchanged: true });
    assert!(matches!(
        run.on(QuiescenceEvent::Observed(observation(false, vec![]))),
        QuiescenceAction::Finish(LiveDrainState::Ready)
    ));
}

fn ticket() -> AbsentTarget {
    AbsentTarget { state_db: "state.sqlite".to_owned(), thread_id: "gone".to_owned(), room: 11, parent: 22 }
}

fn refusal(action: AbsenceAction) -> String {
    match action {
        AbsenceAction::Finish(Err(RestartReadinessError::InvalidThreadState { reason, .. })) => reason,
        other => panic!("expected a refusal, got {other:?}"),
    }
}

#[test]
fn absence_proof_reads_each_store_in_order() {
    let mut bad = ticket();
    bad.room = 0;
    assert_eq!(refusal(AbsenceRun::begin(bad).1), INVALID_TARGET);

    let (mut run, action) = AbsenceRun::begin(ticket());
    assert!(matches!(action, AbsenceAction::ReadProtection));
    assert!(matches!(run.on(AbsenceEvent::Protected(None)), AbsenceAction::ReadInventory));
    assert!(matches!(
        run.on(AbsenceEvent::Inventory { listed: vec!["b".to_owned(), "a".to_owned()], loadable: false }),
        AbsenceAction::ReadOwnership { table } if table == MANAGED_TARGETS_TABLE
    ));
    assert!(matches!(
        run.on(AbsenceEvent::Retained(false)),
        AbsenceAction::ReadOwnership { table } if table == FORK_HANDOFFS_TABLE
    ));
    assert!(matches!(run.on(AbsenceEvent::Retained(false)), AbsenceAction::ReadMapping));
    match run.on(AbsenceEvent::Rows(vec![("gone".to_owned(), 11, 22)])) {
        AbsenceAction::Finish(Ok(ids)) => assert_eq!(ids, vec!["a".to_owned(), "b".to_owned()]),
        other => panic!("expected the inventory, got {other:?}"),
    }

    let (mut listed, _) = AbsenceRun::begin(ticket());
    listed.on(AbsenceEvent::Protected(None));
    assert_eq!(
        refusal(listed.on(AbsenceEvent::Inventory { listed: vec!["gone".to_owned()], loadable: false })),
        IN_INVENTORY
    );

    let (mut owned, _) = AbsenceRun::begin(ticket());
    owned.on(AbsenceEvent::Protected(None));
    owned.on(AbsenceEvent::Inventory { listed: vec![], loadable: false });
    assert!(refusal(owned.on(AbsenceEvent::Retained(true))).ends_with(MANAGED_TARGETS_TABLE));

    let (mut unreadable, _) = AbsenceRun::begin(ticket());
    assert_eq!(refusal(unreadable.on(AbsenceEvent::Failed("database is locked".to_owned()))), "database is locked");
}

#[test]
fn prepare_failure_is_passed_through() {
    let mut run = PrepareRun::new();
    let failure = BackendFailure::definite("store failed".to_owned());
    assert!(matches!(run.on(PrepareEvent::Fenced(Err(failure))), PrepareAction::Finish(Err(f)) if f.message == "store failed"));
}
