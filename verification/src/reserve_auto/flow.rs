//! The order of the automation's reads and writes: preparing a turn, and
//! the part of a restore before its claim. Each step takes what the store
//! or the app-server answered and names the one thing to do next, so what
//! is read, and what is written, before each decision is fixed here.

use vstd::prelude::*;

use super::episode::{
    restore_preconditions, restore_update, restores, still_applied, mark_unknown_outcome, LiveSettings,
    Refusal, SettingsUpdate, ACCOUNT_CHANGED, ACCOUNT_CHANGED_REASON, CHANGED_OUTSIDE, POLICY_SUPERSEDED,
    PREVIOUS_EFFORT_MISSING, PREVIOUS_INCOMPLETE, PREVIOUS_MODEL_MISSING, RESTORE_STOPPED,
};
use super::{
    account_id, account_of, automation_enabled, disabled_outcome, held, held_with, is_held, permission_spec,
    preparation_route, require_account, unsettled_state, usage_resolution, PreparationRoute, RateObservation,
    ReservePolicy, DISABLED_SETTINGS, DISABLED_USAGE, ORDINARY_UNKNOWN, STATE_AMBIGUOUS, STATE_INVALID,
    USAGE_CLAIM_GONE, USAGE_SUPERSEDED, USAGE_UNRESOLVED, ACCOUNT_UNKNOWN,
};
use super::transition::{completion_states, TransitionKind};
use crate::queue_runner::job::opt_text;
use crate::queue_runner::types::BackendFailureKind;
use crate::queue_runner::types::BackendFailure;

verus! {

/// Hold message: the thread is fenced for an archive operation.
pub const ARCHIVE_FENCED: &'static str = "archive lifecycle fence blocks automatic settings";

// ---------------------------------------------------------------------
// Preparing a turn.
// ---------------------------------------------------------------------

/// Where a preparation stands.
#[derive(Debug)]
pub enum PrepareStage {
    /// Waiting to learn whether an archive operation fences the thread.
    FenceCheck,
    /// Waiting for the thread's policy.
    PolicyRead,
    /// Waiting to learn whether a usage failure is unresolved.
    UsageCheck,
    /// Waiting to learn whether that failure's claim is still there.
    ClaimCheck,
    /// Waiting for fresh rate limits of the pinned resident; `usage_open`
    /// says whether a usage failure is unresolved.
    RatesRead { usage_open: bool },
    /// Waiting for the chosen route to finish.
    Routed,
    /// Waiting to learn whether a usage failure is still unresolved.
    FinalUsageCheck,
    /// The preparation is over.
    Finished,
}

/// What the store or the app-server answered.
#[derive(Debug)]
pub enum PrepareEvent {
    Fenced(Result<bool, BackendFailure>),
    Policy(Result<ReservePolicy, BackendFailure>),
    UsagePending(Result<bool, BackendFailure>),
    /// Whether the unresolved failure's claim was found.
    UsageClaim(Result<bool, BackendFailure>),
    Rates(Result<RateObservation, BackendFailure>),
    RouteDone(Result<(), BackendFailure>),
    UsageStillPending(Result<bool, BackendFailure>),
}

/// What to do next.
#[derive(Debug)]
pub enum PrepareAction {
    ReadPolicy,
    ReadUsageFailure,
    ReadUsageClaim,
    /// Pin the resident and read fresh rate limits.
    ReadRates,
    /// Run `route` on these rate limits.
    Run { route: PreparationRoute, rates: RateObservation, usage_open: bool },
    RecheckUsageFailure,
    Finish(Result<(), BackendFailure>),
}

/// One preparation of a thread's next turn. The policy is kept once read.
pub struct PrepareRun {
    pub policy: Option<ReservePolicy>,
    pub stage: PrepareStage,
}

/// The route of an enabled policy in `state` on `rates`, or the hold.
pub open spec fn route_of(state: Seq<char>, rates: RateObservation) -> Result<PreparationRoute, Seq<char>> {
    if state == "ordinary"@ {
        Ok(PreparationRoute::Ordinary)
    } else if state == "reserve"@ {
        match rates.ordinary_usage_allowed {
            Some(true) => Ok(PreparationRoute::Restore),
            Some(false) => Ok(PreparationRoute::VerifyReserve),
            None => Err(ORDINARY_UNKNOWN@),
        }
    } else if unsettled_state(state) {
        Err(STATE_AMBIGUOUS@)
    } else {
        Err(STATE_INVALID@)
    }
}

/// The event that answers the action a stage waits for, and the policy is
/// known from the usage check on.
pub open spec fn prepare_expects(run: PrepareRun, event: PrepareEvent) -> bool {
    match run.stage {
        PrepareStage::FenceCheck => event is Fenced,
        PrepareStage::PolicyRead => event is Policy,
        PrepareStage::UsageCheck => event is UsagePending && run.policy is Some,
        PrepareStage::ClaimCheck => event is UsageClaim && run.policy is Some,
        PrepareStage::RatesRead { .. } => event is Rates && run.policy is Some,
        PrepareStage::Routed => event is RouteDone,
        PrepareStage::FinalUsageCheck => event is UsageStillPending,
        PrepareStage::Finished => false,
    }
}

/// The preparation ends with `result`.
pub open spec fn prepare_ends(next: PrepareStage, a: PrepareAction, result: Result<(), BackendFailure>) -> bool {
    next is Finished && a == PrepareAction::Finish(result)
}

/// The preparation ends with the hold `message`.
pub open spec fn prepare_holds(next: PrepareStage, a: PrepareAction, message: Seq<char>) -> bool {
    next is Finished && (a matches PrepareAction::Finish(r) && held_with(r, message))
}

/// With the usage state known: a disabled policy ends here, before any
/// rate limits are read; an enabled one reads fresh rate limits.
pub open spec fn prepare_decides(p: ReservePolicy, usage_open: bool, next: PrepareStage, a: PrepareAction) -> bool {
    if automation_enabled(p.mode@) {
        next == (PrepareStage::RatesRead { usage_open }) && a is ReadRates
    } else if usage_open {
        prepare_holds(next, a, DISABLED_USAGE@)
    } else if unsettled_state(p.state@) {
        prepare_holds(next, a, DISABLED_SETTINGS@)
    } else {
        prepare_ends(next, a, Ok(()))
    }
}

/// The step of a preparation from `run` on `event`.
pub open spec fn prepare_step(run: PrepareRun, event: PrepareEvent, next: PrepareRun, a: PrepareAction) -> bool {
    match event {
        PrepareEvent::Fenced(r) => next.policy == run.policy && match r {
            Err(e) => prepare_ends(next.stage, a, Err(e)),
            Ok(true) => prepare_holds(next.stage, a, ARCHIVE_FENCED@),
            Ok(false) => next.stage is PolicyRead && a is ReadPolicy,
        },
        PrepareEvent::Policy(r) => match r {
            Err(e) => next.policy == run.policy && prepare_ends(next.stage, a, Err(e)),
            Ok(p) => next.policy == Some(p) && next.stage is UsageCheck && a is ReadUsageFailure,
        },
        PrepareEvent::UsagePending(r) => next.policy == run.policy && match r {
            Err(e) => prepare_ends(next.stage, a, Err(e)),
            Ok(true) => next.stage is ClaimCheck && a is ReadUsageClaim,
            Ok(false) => prepare_decides(run.policy->0, false, next.stage, a),
        },
        PrepareEvent::UsageClaim(r) => next.policy == run.policy && match r {
            Err(e) => prepare_ends(next.stage, a, Err(e)),
            Ok(false) => prepare_holds(next.stage, a, USAGE_CLAIM_GONE@),
            Ok(true) => prepare_decides(run.policy->0, true, next.stage, a),
        },
        PrepareEvent::Rates(r) => next.policy == run.policy && match r {
            Err(e) => prepare_ends(next.stage, a, Err(e)),
            Ok(rates) => match route_of(run.policy->0.state@, rates) {
                Err(m) => prepare_holds(next.stage, a, m),
                Ok(route) => next.stage is Routed && a == (PrepareAction::Run {
                    route,
                    rates,
                    usage_open: run.stage->usage_open,
                }),
            },
        },
        PrepareEvent::RouteDone(r) => next.policy == run.policy && match r {
            Err(e) => prepare_ends(next.stage, a, Err(e)),
            Ok(()) => next.stage is FinalUsageCheck && a is RecheckUsageFailure,
        },
        PrepareEvent::UsageStillPending(r) => next.policy == run.policy && match r {
            Err(e) => prepare_ends(next.stage, a, Err(e)),
            Ok(true) => prepare_holds(next.stage, a, USAGE_UNRESOLVED@),
            Ok(false) => prepare_ends(next.stage, a, Ok(())),
        },
    }
}

fn prepare_finish(result: Result<(), BackendFailure>) -> (r: (PrepareStage, PrepareAction))
    ensures
        prepare_ends(r.0, r.1, result),
{
    (PrepareStage::Finished, PrepareAction::Finish(result))
}

fn prepare_decide(p: &ReservePolicy, usage_open: bool) -> (r: (PrepareStage, PrepareAction))
    ensures
        prepare_decides(*p, usage_open, r.0, r.1),
{
    match disabled_outcome(p, usage_open) {
        Some(x) => prepare_finish(x),
        None => (PrepareStage::RatesRead { usage_open }, PrepareAction::ReadRates),
    }
}

impl PrepareRun {
    /// A preparation that first checks the thread's archive fence.
    pub fn new() -> (r: Self)
        ensures
            r.policy is None,
            r.stage is FenceCheck,
    {
        PrepareRun { policy: None, stage: PrepareStage::FenceCheck }
    }

    /// Takes the answer to the last action and returns the next one.
    pub fn on(&mut self, event: PrepareEvent) -> (a: PrepareAction)
        requires
            prepare_expects(*old(self), event),
        ensures
            prepare_step(*old(self), event, *final(self), a),
    {
        let mut stage = PrepareStage::Finished;
        std::mem::swap(&mut stage, &mut self.stage);
        let (next, action) = match event {
            PrepareEvent::Fenced(r) => match r {
                Err(e) => prepare_finish(Err(e)),
                Ok(true) => prepare_finish(Err(held(ARCHIVE_FENCED))),
                Ok(false) => (PrepareStage::PolicyRead, PrepareAction::ReadPolicy),
            },
            PrepareEvent::Policy(r) => match r {
                Err(e) => prepare_finish(Err(e)),
                Ok(p) => {
                    self.policy = Some(p);
                    (PrepareStage::UsageCheck, PrepareAction::ReadUsageFailure)
                },
            },
            PrepareEvent::UsagePending(r) => match r {
                Err(e) => prepare_finish(Err(e)),
                Ok(true) => (PrepareStage::ClaimCheck, PrepareAction::ReadUsageClaim),
                Ok(false) => match &self.policy {
                    Some(p) => prepare_decide(p, false),
                    None => {
                        proof {
                            assert(false);
                        }
                        prepare_finish(Ok(()))
                    },
                },
            },
            PrepareEvent::UsageClaim(r) => match r {
                Err(e) => prepare_finish(Err(e)),
                Ok(false) => prepare_finish(Err(held(USAGE_CLAIM_GONE))),
                Ok(true) => match &self.policy {
                    Some(p) => prepare_decide(p, true),
                    None => {
                        proof {
                            assert(false);
                        }
                        prepare_finish(Ok(()))
                    },
                },
            },
            PrepareEvent::Rates(r) => match r {
                Err(e) => prepare_finish(Err(e)),
                Ok(rates) => {
                    let usage_open = match stage {
                        PrepareStage::RatesRead { usage_open } => usage_open,
                        _ => {
                            proof {
                                assert(false);
                            }
                            false
                        },
                    };
                    match &self.policy {
                        Some(p) => match preparation_route(p.state.as_str(), &rates) {
                            Err(e) => prepare_finish(Err(e)),
                            Ok(route) => (PrepareStage::Routed, PrepareAction::Run { route, rates, usage_open }),
                        },
                        None => {
                            proof {
                                assert(false);
                            }
                            prepare_finish(Ok(()))
                        },
                    }
                },
            },
            PrepareEvent::RouteDone(r) => match r {
                Err(e) => prepare_finish(Err(e)),
                Ok(()) => (PrepareStage::FinalUsageCheck, PrepareAction::RecheckUsageFailure),
            },
            PrepareEvent::UsageStillPending(r) => match r {
                Err(e) => prepare_finish(Err(e)),
                Ok(true) => prepare_finish(Err(held(USAGE_UNRESOLVED))),
                Ok(false) => prepare_finish(Ok(())),
            },
        };
        self.stage = next;
        action
    }
}

/// A fenced thread is held before its policy is even read; a disabled
/// policy ends the preparation before any rate limits or models are read
/// and without any settings change; rate limits are read only for an
/// enabled policy whose usage state is known.
pub proof fn law_disabled_policy_reads_nothing(run: PrepareRun, event: PrepareEvent, next: PrepareRun, a: PrepareAction)
    requires
        prepare_expects(run, event),
        prepare_step(run, event, next, a),
    ensures
        event == PrepareEvent::Fenced(Ok(true)) ==> prepare_holds(next.stage, a, ARCHIVE_FENCED@),
        (event == PrepareEvent::UsagePending(Ok(false)) || event == PrepareEvent::UsageClaim(Ok(true)))
            && !automation_enabled(run.policy->0.mode@) ==> a is Finish,
        a is ReadRates ==> automation_enabled(run.policy->0.mode@) && (run.stage is UsageCheck
            || run.stage is ClaimCheck),
{
}

/// A policy whose last settings change has not settled -- left in the state
/// a claimed transition starts from, marked unknown after a failed claim,
/// or held -- never lets a turn proceed: a disabled policy holds the turn
/// whatever its usage state, and an enabled one is refused until a fresh,
/// unambiguous observation. A settled policy (ordinary or reserve) under a
/// disabled mode with no usage failure lets the turn proceed unchanged.
pub proof fn law_unsettled_outcome_holds_the_turn(
    kind: TransitionKind,
    p: ReservePolicy,
    rates: RateObservation,
    usage_open: bool,
    next: PrepareStage,
    a: PrepareAction,
)
    requires
        prepare_decides(p, usage_open, next, a),
    ensures
        (p.state@ == completion_states(kind).0@ || p.state@ == "unknown"@ || p.state@ == "held"@) ==> route_of(
            p.state@,
            rates,
        ) == Err::<PreparationRoute, Seq<char>>(STATE_AMBIGUOUS@),
        (p.state@ == completion_states(kind).0@ || p.state@ == "unknown"@ || p.state@ == "held"@) && !automation_enabled(
            p.mode@,
        ) ==> (a matches PrepareAction::Finish(Err(f)) && f.kind == BackendFailureKind::AutoReserveHeld),
        (p.state@ == "ordinary"@ || p.state@ == "reserve"@) && !automation_enabled(p.mode@) && !usage_open ==> a
            == PrepareAction::Finish(Ok(())),
{
    reveal_strlit("entering");
    reveal_strlit("restoring");
    reveal_strlit("unknown");
    reveal_strlit("held");
    reveal_strlit("ordinary");
    reveal_strlit("reserve");
    let unsettled = seq!["entering"@, "restoring"@, "unknown"@, "held"@];
    let settled = seq!["ordinary"@, "reserve"@];
    assert forall|i: int, k: int| 0 <= i < 4 && 0 <= k < 2 implies #[trigger] unsettled[i] != #[trigger] settled[k] by {
        if i == 0 {
            assert(unsettled[i][0] != settled[k][0]);
        } else if i == 1 {
            if k == 0 {
                assert(unsettled[i][0] != settled[k][0]);
            } else {
                assert(unsettled[i].len() != settled[k].len());
            }
        } else {
            assert(unsettled[i][0] != settled[k][0]);
        }
    }
    assert(unsettled[0] != settled[0] && unsettled[0] != settled[1]);
    assert(unsettled[1] != settled[0] && unsettled[1] != settled[1]);
    assert(unsettled[2] != settled[0] && unsettled[2] != settled[1]);
    assert(unsettled[3] != settled[0] && unsettled[3] != settled[1]);
    match kind {
        TransitionKind::Enter => {},
        TransitionKind::Restore => {},
    }
}

// ---------------------------------------------------------------------
// A restore, up to its claim.
// ---------------------------------------------------------------------

/// Where a restore stands before its claim.
#[derive(Debug)]
pub enum RestoreStage {
    /// Waiting for the unresolved usage failure to be resolved.
    Resolving,
    /// Waiting for the pinned thread's live settings, for this account.
    Resuming(String),
    /// Waiting for fresh rate limits before the claim, with the update.
    AccountCheck(String, SettingsUpdate),
    /// Waiting for the policy to be marked unknown; the hold follows.
    Marking(BackendFailure),
    /// The restore has ended, or handed over to its claimed transition.
    Finished,
}

/// What the store or the app-server answered.
#[derive(Debug)]
pub enum RestoreEvent {
    /// Whether the usage failure's claim was resolved.
    UsageResolved(Result<bool, BackendFailure>),
    /// The live settings of an exact idle resume of the pinned thread.
    Resumed(Result<LiveSettings, BackendFailure>),
    /// Fresh rate limits of the pinned resident.
    Rates(Result<RateObservation, BackendFailure>),
    /// Whether the policy was marked unknown.
    Marked(Result<bool, BackendFailure>),
}

/// What to do next.
#[derive(Debug)]
pub enum RestoreAction {
    ResolveUsageFailure,
    /// Resume the thread and read its live settings.
    Resume,
    /// Pin the resident and read fresh rate limits.
    ReadRates,
    /// Mark the policy's revision unknown, giving `reason`.
    MarkUnknown { revision: i64, reason: String },
    /// Take the restore claim and apply `update` through it.
    BeginTransition(SettingsUpdate),
    Finish(Result<(), BackendFailure>),
}

/// A restore of the settings a Reserve episode recorded.
pub struct RestoreRun {
    pub policy: ReservePolicy,
    pub rates: RateObservation,
    pub reserve_model: String,
    pub stage: RestoreStage,
}

/// The reason recorded and the hold reported when a restore is refused
/// before the thread is resumed.
pub open spec fn restore_refusal(policy: ReservePolicy, account: Seq<char>) -> Option<(Seq<char>, Seq<char>)> {
    if opt_text(policy.account_id) != Some(account) {
        Some((ACCOUNT_CHANGED_REASON@, ACCOUNT_CHANGED@))
    } else if policy.previous_model is None {
        Some((PREVIOUS_MODEL_MISSING@, PREVIOUS_INCOMPLETE@))
    } else if !policy.previous_effort_present {
        Some((PREVIOUS_EFFORT_MISSING@, PREVIOUS_INCOMPLETE@))
    } else {
        None
    }
}

/// The restore is refused with `reason` recorded and `message` held: it
/// marks the policy's revision unknown first.
pub open spec fn restore_marks(
    policy: ReservePolicy,
    reason: Seq<char>,
    message: Seq<char>,
    next: RestoreStage,
    a: RestoreAction,
) -> bool {
    (next matches RestoreStage::Marking(f) && is_held(f, message)) && (a matches RestoreAction::MarkUnknown {
        revision,
        reason: r,
    } && revision == policy.revision && r@ == reason)
}

/// The restore ends with `result`.
pub open spec fn restore_ends(next: RestoreStage, a: RestoreAction, result: Result<(), BackendFailure>) -> bool {
    next is Finished && a == RestoreAction::Finish(result)
}

/// With the usage failure resolved: the account of the rate limits must be
/// known; then the episode's account and recorded settings are checked,
/// all before the thread is resumed.
pub open spec fn restore_checks(policy: ReservePolicy, rates: RateObservation, next: RestoreStage, a: RestoreAction) -> bool {
    match account_of(rates) {
        None => next is Finished && (a matches RestoreAction::Finish(r) && held_with(r, ACCOUNT_UNKNOWN@)),
        Some(account) => match restore_refusal(policy, account) {
            Some((reason, message)) => restore_marks(policy, reason, message, next, a),
            None => (next matches RestoreStage::Resuming(s) && s@ == account) && a is Resume,
        },
    }
}

/// The step of a restore from `run` on `event`.
pub open spec fn restore_step(run: RestoreRun, event: RestoreEvent, next: RestoreRun, a: RestoreAction) -> bool {
    &&& next.policy == run.policy
    &&& next.rates == run.rates
    &&& next.reserve_model == run.reserve_model
    &&& match (run.stage, event) {
        (RestoreStage::Resolving, RestoreEvent::UsageResolved(r)) => match r {
            Err(e) => restore_ends(next.stage, a, Err(e)),
            Ok(false) => next.stage is Finished && (a matches RestoreAction::Finish(x) && held_with(
                x,
                USAGE_SUPERSEDED@,
            )),
            Ok(true) => restore_checks(run.policy, run.rates, next.stage, a),
        },
        (RestoreStage::Resuming(account), RestoreEvent::Resumed(r)) => match r {
            Err(e) => restore_ends(next.stage, a, Err(e)),
            Ok(current) => if still_applied(run.policy, current, run.reserve_model@) {
                (next.stage matches RestoreStage::AccountCheck(s, u) && s == account && restores(u, run.policy))
                    && a is ReadRates
            } else {
                restore_marks(run.policy, CHANGED_OUTSIDE@, RESTORE_STOPPED@, next.stage, a)
            },
        },
        (RestoreStage::AccountCheck(account, update), RestoreEvent::Rates(r)) => match r {
            Err(e) => restore_ends(next.stage, a, Err(e)),
            Ok(fresh) => match permission_spec(fresh, account@, Some(true)) {
                Ok(()) => next.stage is Finished && a == RestoreAction::BeginTransition(update),
                Err(m) => next.stage is Finished && (a matches RestoreAction::Finish(x) && held_with(x, m)),
            },
        },
        (RestoreStage::Marking(failure), RestoreEvent::Marked(r)) => match r {
            Err(e) => restore_ends(next.stage, a, Err(e)),
            Ok(false) => next.stage is Finished && (a matches RestoreAction::Finish(x) && held_with(
                x,
                POLICY_SUPERSEDED@,
            )),
            Ok(true) => restore_ends(next.stage, a, Err(failure)),
        },
        _ => false,
    }
}

/// The event that answers the action a stage waits for; a restore resumes
/// the thread only with the previous model recorded.
pub open spec fn restore_expects(run: RestoreRun, event: RestoreEvent) -> bool {
    match run.stage {
        RestoreStage::Resolving => event is UsageResolved,
        RestoreStage::Resuming(_) => event is Resumed && run.policy.previous_model is Some,
        RestoreStage::AccountCheck(_, _) => event is Rates,
        RestoreStage::Marking(_) => event is Marked,
        RestoreStage::Finished => false,
    }
}

fn refusal_step(policy: &ReservePolicy, x: Refusal) -> (r: (RestoreStage, RestoreAction))
    ensures
        r.0 == RestoreStage::Marking(x.failure),
        r.1 matches RestoreAction::MarkUnknown { revision, reason } && revision == policy.revision && (
        x.mark_unknown matches Some(m) ==> reason@ == m@),
{
    let reason = match x.mark_unknown {
        Some(reason) => reason,
        None => String::new(),
    };
    let failure = x.failure;
    (RestoreStage::Marking(failure), RestoreAction::MarkUnknown { revision: policy.revision, reason })
}

fn after_resolution(policy: &ReservePolicy, rates: &RateObservation) -> (r: (RestoreStage, RestoreAction))
    ensures
        restore_checks(*policy, *rates, r.0, r.1),
{
    let account = match account_id(rates) {
        Err(e) => {
            return (RestoreStage::Finished, RestoreAction::Finish(Err(e)));
        },
        Ok(a) => a,
    };
    match restore_preconditions(policy, account.as_str()) {
        Err(x) => refusal_step(policy, x),
        Ok(()) => (RestoreStage::Resuming(account), RestoreAction::Resume),
    }
}

impl RestoreRun {
    /// A restore on the rate limits that showed ordinary usage back. With a
    /// usage failure claim held it resolves that first; otherwise the checks
    /// that need no read come first.
    pub fn begin(policy: ReservePolicy, rates: RateObservation, reserve_model: String, claim_held: bool) -> (r: (
        Self,
        RestoreAction,
    ))
        ensures
            r.0.policy == policy,
            r.0.rates == rates,
            r.0.reserve_model == reserve_model,
            claim_held ==> r.0.stage is Resolving && r.1 is ResolveUsageFailure,
            !claim_held ==> restore_checks(policy, rates, r.0.stage, r.1),
    {
        if claim_held {
            let run = RestoreRun { policy, rates, reserve_model, stage: RestoreStage::Resolving };
            return (run, RestoreAction::ResolveUsageFailure);
        }
        let (stage, action) = after_resolution(&policy, &rates);
        (RestoreRun { policy, rates, reserve_model, stage }, action)
    }

    /// Takes the answer to the last action and returns the next one.
    pub fn on(&mut self, event: RestoreEvent) -> (a: RestoreAction)
        requires
            restore_expects(*old(self), event),
        ensures
            restore_step(*old(self), event, *final(self), a),
    {
        let mut stage = RestoreStage::Finished;
        std::mem::swap(&mut stage, &mut self.stage);
        let (next, action) = match (stage, event) {
            (RestoreStage::Resolving, RestoreEvent::UsageResolved(r)) => match r {
                Err(e) => (RestoreStage::Finished, RestoreAction::Finish(Err(e))),
                Ok(resolved) => match usage_resolution(true, resolved) {
                    Err(e) => (RestoreStage::Finished, RestoreAction::Finish(Err(e))),
                    Ok(()) => after_resolution(&self.policy, &self.rates),
                },
            },
            (RestoreStage::Resuming(account), RestoreEvent::Resumed(r)) => match r {
                Err(e) => (RestoreStage::Finished, RestoreAction::Finish(Err(e))),
                Ok(current) => {
                    match restore_update(&self.policy, &current, self.reserve_model.as_str()) {
                        Err(x) => refusal_step(&self.policy, x),
                        Ok(update) => (RestoreStage::AccountCheck(account, update), RestoreAction::ReadRates),
                    }
                },
            },
            (RestoreStage::AccountCheck(account, update), RestoreEvent::Rates(r)) => match r {
                Err(e) => (RestoreStage::Finished, RestoreAction::Finish(Err(e))),
                Ok(fresh) => match require_account(&fresh, account.as_str(), Some(true)) {
                    Err(e) => (RestoreStage::Finished, RestoreAction::Finish(Err(e))),
                    Ok(()) => (RestoreStage::Finished, RestoreAction::BeginTransition(update)),
                },
            },
            (RestoreStage::Marking(failure), RestoreEvent::Marked(r)) => match r {
                Err(e) => (RestoreStage::Finished, RestoreAction::Finish(Err(e))),
                Ok(changed) => match mark_unknown_outcome(changed) {
                    Err(e) => (RestoreStage::Finished, RestoreAction::Finish(Err(e))),
                    Ok(()) => (RestoreStage::Finished, RestoreAction::Finish(Err(failure))),
                },
            },
            (_, _) => {
                proof {
                    assert(false);
                }
                (RestoreStage::Finished, RestoreAction::Finish(Ok(())))
            },
        };
        self.stage = next;
        action
    }
}

/// A restore whose episode belongs to another account, or whose previous
/// settings are incomplete, marks the policy unknown and is held before the
/// thread is resumed or any setting is sent.
pub proof fn law_restore_refuses_before_resume(
    policy: ReservePolicy,
    rates: RateObservation,
    account: Seq<char>,
    next: RestoreStage,
    a: RestoreAction,
)
    requires
        restore_checks(policy, rates, next, a),
        account_of(rates) == Some(account),
        restore_refusal(policy, account) is Some,
    ensures
        a matches RestoreAction::MarkUnknown { revision, .. } && revision == policy.revision,
        next is Marking,
{
}

} // verus!
