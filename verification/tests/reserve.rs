use cdr_runtime_core::queue_runner::{BackendFailure, BackendFailureKind};
use cdr_runtime_core::reserve_auto::episode::{
    alignment_quota, applied_effort, final_settings_match, mark_unknown_outcome, require_existing_reserve_owner,
    reserve_update, restore_confirmed, restore_preconditions, restore_update, LiveSettings, Refusal,
    SettingsUpdate, TierUpdate, ACCOUNT_CHANGED, ACCOUNT_CHANGED_REASON, CHANGED_OUTSIDE, PREVIOUS_EFFORT_MISSING,
    PREVIOUS_INCOMPLETE, PREVIOUS_MODEL_MISSING, RECOVERY_UNCONFIRMED, RESTORE_STOPPED,
};
use cdr_runtime_core::reserve_auto::{
    account_id, cycle_step, disabled_outcome, finish_preparation, identity, manual_mode, ordinary_allowed,
    ordinary_step, preparation_route, require_account, require_identity, wants_recovery, wire_generation,
    wrap_cursor, CycleStep, OrdinaryStep, PreparationRoute, RateObservation, ReservePolicy, ResidentSnapshot,
};

const MODEL: &str = "gpt-reserve";

fn held(message: &str) -> BackendFailure {
    BackendFailure::auto_reserve_held(message.to_owned())
}

fn policy(mode: &str, state: &str) -> ReservePolicy {
    ReservePolicy {
        thread_id: "thr".to_owned(),
        mode: mode.to_owned(),
        state: state.to_owned(),
        revision: 3,
        account_id: Some("acct".to_owned()),
        previous_model: Some("gpt-main".to_owned()),
        previous_effort: Some("high".to_owned()),
        previous_effort_present: true,
        previous_tier: None,
        applied_model: Some(MODEL.to_owned()),
        applied_effort: Some("medium".to_owned()),
        applied_tier: Some("default".to_owned()),
    }
}

fn rates(allowed: Option<bool>, account: Option<&str>) -> RateObservation {
    RateObservation { ordinary_usage_allowed: allowed, account_id: account.map(str::to_owned) }
}

fn live(model: &str, effort: Option<&str>, tier: Option<&str>) -> LiveSettings {
    LiveSettings {
        model: model.to_owned(),
        effort: effort.map(str::to_owned),
        effort_present: true,
        tier: tier.map(str::to_owned),
    }
}

#[test]
fn rate_limits_give_quota_and_account() {
    assert_eq!(ordinary_allowed(&rates(Some(false), None)), Ok(false));
    assert_eq!(ordinary_allowed(&rates(None, None)), Err(held("ordinary usage availability is unknown")));
    assert_eq!(account_id(&rates(None, Some(" acct "))), Ok(" acct ".to_owned()));
    assert_eq!(account_id(&rates(None, Some("  "))), Err(held("account identity is unavailable")));
    assert_eq!(account_id(&rates(None, None)), Err(held("account identity is unavailable")));
}

#[test]
fn resident_identity_must_not_change() {
    let snap = ResidentSnapshot { process_id: Some(7), generation: 4, healthy: true, quarantined: false, restart_pending: false };
    let id = identity(&snap);
    assert_eq!(id, (Some(7), 4));
    assert_eq!(require_identity(id, &snap), Ok(()));
    let changed = held("app-server resident identity changed or is unavailable");
    assert_eq!(require_identity((Some(8), 4), &snap), Err(changed.clone()));
    assert_eq!(require_identity((None, 4), &snap), Err(changed.clone()));
    assert_eq!(require_identity(id, &ResidentSnapshot { restart_pending: true, ..snap }), Err(changed.clone()));
    let huge = ResidentSnapshot { generation: u64::MAX, ..snap };
    assert_eq!(identity(&huge), (Some(7), -1));
    assert_eq!(require_identity(identity(&huge), &huge), Err(changed));
    assert_eq!(wire_generation(5), Ok(5));
    assert_eq!(wire_generation(-1), Err(held("app-server generation is outside the wire contract")));
}

#[test]
fn account_permission_is_rechecked() {
    let changed = held("account or quota permission changed during automatic settings operation");
    assert_eq!(require_account(&rates(Some(false), Some("acct")), "acct", Some(false)), Ok(()));
    assert_eq!(require_account(&rates(Some(true), Some("acct")), "acct", Some(false)), Err(changed.clone()));
    assert_eq!(require_account(&rates(Some(true), Some("other")), "acct", None), Err(changed));
    assert_eq!(
        require_account(&rates(None, Some("acct")), "acct", Some(true)),
        Err(held("ordinary usage availability is unknown"))
    );
    assert_eq!(require_account(&rates(None, Some("acct")), "acct", None), Ok(()));
}

#[test]
fn disabled_policy_only_reports_unresolved_outcomes() {
    assert_eq!(disabled_outcome(&policy("auto", "ordinary"), true), None);
    assert_eq!(
        disabled_outcome(&policy("off", "ordinary"), true),
        Some(Err(held("disabled automatic policy still has an unresolved usage failure")))
    );
    assert_eq!(
        disabled_outcome(&policy("manual", "restoring"), false),
        Some(Err(held("disabled automatic policy still has an unresolved settings outcome")))
    );
    assert_eq!(disabled_outcome(&policy("off", "reserve"), false), Some(Ok(())));
}

#[test]
fn preparation_routes_by_state_and_quota() {
    let r = rates(Some(true), Some("acct"));
    assert_eq!(preparation_route("ordinary", &r), Ok(PreparationRoute::Ordinary));
    assert_eq!(preparation_route("reserve", &r), Ok(PreparationRoute::Restore));
    assert_eq!(preparation_route("reserve", &rates(Some(false), None)), Ok(PreparationRoute::VerifyReserve));
    assert_eq!(
        preparation_route("entering", &r),
        Err(held("automatic Reserve state requires a fresh, unambiguous observation"))
    );
    assert_eq!(preparation_route("bogus", &r), Err(held("invalid automatic Reserve state")));
    assert_eq!(
        finish_preparation(Ok(()), true),
        Err(held("automatic preparation completed while usage-limit handling remains unresolved"))
    );
    assert_eq!(finish_preparation(Ok(()), false), Ok(()));
    assert_eq!(finish_preparation(Err(held("x")), true), Err(held("x")));
}

#[test]
fn ordinary_policy_steps() {
    assert_eq!(ordinary_step(MODEL, MODEL, &rates(None, None), true), Ok(OrdinaryStep::VerifyReserve));
    assert_eq!(ordinary_step("gpt-main", MODEL, &rates(Some(true), None), true), Ok(OrdinaryStep::ResolveUsage));
    assert_eq!(
        ordinary_step("gpt-main", MODEL, &rates(Some(false), Some("acct")), false),
        Ok(OrdinaryStep::EnterReserve("acct".to_owned()))
    );
    assert_eq!(ordinary_step("gpt-main", MODEL, &rates(None, None), false), Ok(OrdinaryStep::QuotaUnknown));
    assert_eq!(
        ordinary_step("gpt-main", MODEL, &rates(None, None), true),
        Err(held("ordinary usage availability is unknown"))
    );
}

fn refusal(reason: Option<&str>, message: &str) -> Refusal {
    Refusal { mark_unknown: reason.map(str::to_owned), failure: held(message) }
}

#[test]
fn restore_requires_the_episode_account_and_complete_previous_settings() {
    let p = policy("auto", "reserve");
    assert_eq!(restore_preconditions(&p, "acct"), Ok(()));
    assert_eq!(restore_preconditions(&p, "other"), Err(refusal(Some(ACCOUNT_CHANGED_REASON), ACCOUNT_CHANGED)));
    let mut no_model = p.clone();
    no_model.previous_model = None;
    assert_eq!(
        restore_preconditions(&no_model, "acct"),
        Err(refusal(Some(PREVIOUS_MODEL_MISSING), PREVIOUS_INCOMPLETE))
    );
    let mut no_effort = p.clone();
    no_effort.previous_effort_present = false;
    assert_eq!(
        restore_preconditions(&no_effort, "acct"),
        Err(refusal(Some(PREVIOUS_EFFORT_MISSING), PREVIOUS_INCOMPLETE))
    );
}

#[test]
fn restore_applies_previous_settings_only_over_the_episode_settings() {
    let p = policy("auto", "reserve");
    let update = restore_update(&p, &live(MODEL, Some("medium"), Some("default")), MODEL).unwrap();
    assert_eq!(
        update,
        SettingsUpdate {
            model: Some("gpt-main".to_owned()),
            effort: Some("high".to_owned()),
            effort_clear: false,
            service_tier: TierUpdate::Clear,
        }
    );
    let mut tiered = p.clone();
    tiered.previous_tier = Some("flex".to_owned());
    tiered.previous_effort = None;
    let update = restore_update(&tiered, &live(MODEL, Some("medium"), Some("default")), MODEL).unwrap();
    assert!(update.effort_clear);
    assert_eq!(update.service_tier, TierUpdate::Assign("flex".to_owned()));
    assert_eq!(
        restore_update(&p, &live(MODEL, Some("high"), Some("default")), MODEL),
        Err(refusal(Some(CHANGED_OUTSIDE), RESTORE_STOPPED))
    );
    assert_eq!(
        restore_confirmed(&rates(Some(true), Some("acct")), "acct"),
        Ok(())
    );
    assert_eq!(restore_confirmed(&rates(Some(false), Some("acct")), "acct"), Err(held(RECOVERY_UNCONFIRMED)));
    assert_eq!(restore_confirmed(&rates(Some(true), Some("other")), "acct"), Err(held(RECOVERY_UNCONFIRMED)));
    assert_eq!(mark_unknown_outcome(false), Err(held("automatic Reserve policy was superseded")));
    assert_eq!(mark_unknown_outcome(true), Ok(()));
}

#[test]
fn existing_reserve_selection_must_be_exact() {
    let episode = policy("auto", "reserve");
    let good = live(MODEL, Some("medium"), Some("default"));
    assert_eq!(require_existing_reserve_owner(&episode, &good, MODEL), Ok(()));
    assert_eq!(
        require_existing_reserve_owner(&episode, &live(MODEL, Some("low"), Some("default")), MODEL),
        Err(refusal(Some(CHANGED_OUTSIDE), CHANGED_OUTSIDE))
    );
    let manual = policy("on", "ordinary");
    assert_eq!(require_existing_reserve_owner(&manual, &live(MODEL, Some("low"), Some("default")), MODEL), Ok(()));
    assert_eq!(
        require_existing_reserve_owner(&manual, &live(MODEL, Some("low"), Some("flex")), MODEL),
        Err(refusal(None, CHANGED_OUTSIDE))
    );
    assert_eq!(alignment_quota(&episode), Some(false));
    assert_eq!(alignment_quota(&manual), None);
}

#[test]
fn reserve_update_and_final_checks() {
    let update = reserve_update(MODEL, "medium");
    assert_eq!(update.model.as_deref(), Some(MODEL));
    assert_eq!(update.effort.as_deref(), Some("medium"));
    assert!(!update.effort_clear);
    assert_eq!(update.service_tier, TierUpdate::Assign("default".to_owned()));
    assert_eq!(applied_effort(&update), Ok("medium".to_owned()));
    let mut no_effort = update.clone();
    no_effort.effort = None;
    assert_eq!(applied_effort(&no_effort), Err(held("exact Reserve effort is missing")));
    let observed = live(MODEL, Some("medium"), Some("default"));
    assert_eq!(final_settings_match(&observed, true), Ok(()));
    assert_eq!(
        final_settings_match(&observed, false),
        Err(held("final Reserve settings do not match the applied values"))
    );
}

#[test]
fn recovery_and_manual_mode() {
    assert!(wants_recovery(&Some(policy("auto", "reserve"))));
    assert!(wants_recovery(&Some(policy("on", "reserve"))));
    assert!(!wants_recovery(&Some(policy("manual", "reserve"))));
    assert!(!wants_recovery(&Some(policy("auto", "ordinary"))));
    assert!(!wants_recovery(&None));
    let (mode, message) = manual_mode(true);
    assert_eq!(mode, "on");
    assert_eq!(message, "자동 Reserve 전환을 활성화했습니다. 실패한 요청은 재실행하지 않습니다.");
    assert_eq!(manual_mode(false).0, "off");
    let mut cursor = Some("t3".to_owned());
    assert!(!wrap_cursor(true, &mut cursor));
    assert_eq!(cursor.as_deref(), Some("t3"));
    assert!(wrap_cursor(false, &mut cursor));
    assert_eq!(cursor, None);
    assert!(!wrap_cursor(false, &mut cursor));
    assert_eq!(cycle_step(true, true), CycleStep::Shutdown);
    assert_eq!(cycle_step(false, true), CycleStep::OutOfTime);
    assert_eq!(cycle_step(false, false), CycleStep::Recover);
}

#[test]
fn held_failures_are_ambiguous_and_never_replayed() {
    let f = held("x");
    assert!(f.ambiguous);
    assert_eq!(f.kind, BackendFailureKind::AutoReserveHeld);
    let u = BackendFailure::usage_limit("limit".to_owned());
    assert_eq!(u.kind, BackendFailureKind::UsageLimit);
}
