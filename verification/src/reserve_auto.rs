//! Automatic ordinary-quota/Reserve switching: the decisions between the
//! account reads, the settings changes and the durable policy records.
//! `flow` fixes the order of a preparation and of a restore up to its
//! claim (a restore's claim begins only after fresh rate limits confirm its
//! account), and `transition` the order of a claimed settings change.

pub mod episode;
pub mod flow;
pub mod transition;

use vstd::prelude::*;

use crate::queue_runner::types::{BackendFailure, BackendFailureKind, failure_is};
use crate::text::{chars_of, same_text, trim, trim_chars};

verus! {

/// The automatic Reserve policy of a thread, as the store keeps it.
#[derive(Clone, Debug, PartialEq, Eq)]
pub struct ReservePolicy {
    pub thread_id: String,
    /// `auto`, `on`, `off` or `manual`.
    pub mode: String,
    /// `ordinary`, `reserve`, `entering`, `restoring`, `unknown` or `held`.
    pub state: String,
    pub revision: i64,
    pub account_id: Option<String>,
    pub previous_model: Option<String>,
    pub previous_effort: Option<String>,
    pub previous_effort_present: bool,
    pub previous_tier: Option<String>,
    pub applied_model: Option<String>,
    pub applied_effort: Option<String>,
    pub applied_tier: Option<String>,
}

/// What the automation reads of a rate-limit answer. Each field is `None`
/// when it is absent or of the wrong JSON type.
#[derive(Clone, Debug, PartialEq, Eq)]
pub struct RateObservation {
    /// `ordinaryUsageAllowed`, when it is a boolean.
    pub ordinary_usage_allowed: Option<bool>,
    /// `accountId`, when it is text.
    pub account_id: Option<String>,
}

/// The resident app-server's lifecycle, as far as the automation pins it.
#[derive(Clone, Copy, Debug, PartialEq, Eq)]
pub struct ResidentSnapshot {
    pub process_id: Option<u32>,
    pub generation: u64,
    pub healthy: bool,
    pub quarantined: bool,
    pub restart_pending: bool,
}

/// The identity of a resident app-server: its process id and generation,
/// the generation being `-1` when it does not fit an `i64`.
pub type Identity = (Option<i64>, i64);

/// A failure that holds the request for the automatic Reserve policy.
pub open spec fn is_held(f: BackendFailure, message: Seq<char>) -> bool {
    failure_is(f, message, true, BackendFailureKind::AutoReserveHeld)
}

/// The result is the hold with `message`.
pub open spec fn held_with<T>(r: Result<T, BackendFailure>, message: Seq<char>) -> bool {
    r matches Err(f) && is_held(f, message)
}

/// A hold of the automatic Reserve policy.
pub fn held(message: &str) -> (r: BackendFailure)
    ensures
        is_held(r, message@),
{
    BackendFailure::auto_reserve_held(message.to_owned())
}

/// Hold message: the ordinary quota is not known.
pub const ORDINARY_UNKNOWN: &'static str = "ordinary usage availability is unknown";
/// Hold message: the account is not known.
pub const ACCOUNT_UNKNOWN: &'static str = "account identity is unavailable";
/// Hold message: the generation cannot be sent on the wire.
pub const GENERATION_OUTSIDE: &'static str = "app-server generation is outside the wire contract";
/// Hold message: the resident app-server changed.
pub const RESIDENT_CHANGED: &'static str = "app-server resident identity changed or is unavailable";
/// Hold message: account or quota changed during a settings change.
pub const PERMISSION_CHANGED: &'static str = "account or quota permission changed during automatic settings operation";

/// Whether ordinary usage is allowed, as the rate limits say.
pub fn ordinary_allowed(rates: &RateObservation) -> (r: Result<bool, BackendFailure>)
    ensures
        match rates.ordinary_usage_allowed {
            Some(b) => r == Ok::<bool, BackendFailure>(b),
            None => held_with(r, ORDINARY_UNKNOWN@),
        },
{
    match rates.ordinary_usage_allowed {
        Some(b) => Ok(b),
        None => Err(held(ORDINARY_UNKNOWN)),
    }
}

/// The account the rate limits belong to: an id that is not blank.
pub open spec fn account_of(rates: RateObservation) -> Option<Seq<char>> {
    match rates.account_id {
        Some(a) => if trim(a@).len() > 0 { Some(a@) } else { None },
        None => None,
    }
}

/// The account id of the rate limits.
pub fn account_id(rates: &RateObservation) -> (r: Result<String, BackendFailure>)
    ensures
        match account_of(*rates) {
            Some(a) => r matches Ok(s) && s@ == a,
            None => held_with(r, ACCOUNT_UNKNOWN@),
        },
{
    match &rates.account_id {
        Some(a) => {
            if trim_chars(&chars_of(a.as_str())).len() > 0 {
                Ok(a.clone())
            } else {
                Err(held(ACCOUNT_UNKNOWN))
            }
        },
        None => Err(held(ACCOUNT_UNKNOWN)),
    }
}

/// A generation as the wire carries it.
pub fn wire_generation(value: i64) -> (r: Result<u64, BackendFailure>)
    ensures
        value >= 0 ==> r == Ok::<u64, BackendFailure>(value as u64),
        value < 0 ==> held_with(r, GENERATION_OUTSIDE@),
{
    if value >= 0 {
        Ok(value as u64)
    } else {
        Err(held(GENERATION_OUTSIDE))
    }
}

/// The identity of the resident a snapshot shows.
pub open spec fn identity_of(s: ResidentSnapshot) -> Identity {
    (
        match s.process_id {
            Some(p) => Some(p as i64),
            None => None,
        },
        if s.generation <= i64::MAX { s.generation as i64 } else { -1i64 },
    )
}

/// The identity of the resident a snapshot shows.
pub fn identity(s: &ResidentSnapshot) -> (r: Identity)
    ensures
        r == identity_of(*s),
{
    let pid = match s.process_id {
        Some(p) => Some(p as i64),
        None => None,
    };
    let generation = if s.generation <= i64::MAX as u64 { s.generation as i64 } else { -1 };
    (pid, generation)
}

/// The snapshot shows the ready resident `expected` names.
pub open spec fn resident_is(expected: Identity, s: ResidentSnapshot) -> bool {
    &&& expected.0 is Some
    &&& expected.1 >= 0
    &&& identity_of(s) == expected
    &&& s.healthy
    &&& !s.quarantined
    &&& !s.restart_pending
}

/// Pins the resident: the snapshot must show the same healthy process and
/// generation as `expected`.
pub fn require_identity(expected: Identity, s: &ResidentSnapshot) -> (r: Result<(), BackendFailure>)
    ensures
        resident_is(expected, *s) ==> r is Ok,
        !resident_is(expected, *s) ==> held_with(r, RESIDENT_CHANGED@),
{
    let actual = identity(s);
    if expected.0.is_none() || expected.1 < 0 || actual.0 != expected.0 || actual.1 != expected.1
        || !s.healthy || s.quarantined || s.restart_pending {
        return Err(held(RESIDENT_CHANGED));
    }
    Ok(())
}

/// The account and quota checks of a settings change on fresh rate limits:
/// the account must be `account`, and, when `ordinary` is given, ordinary
/// usage must be allowed exactly when it says.
pub open spec fn permission_spec(rates: RateObservation, account: Seq<char>, ordinary: Option<bool>) -> Result<(), Seq<char>> {
    match (ordinary, rates.ordinary_usage_allowed) {
        (Some(_), None) => Err(ORDINARY_UNKNOWN@),
        _ => match account_of(rates) {
            None => Err(ACCOUNT_UNKNOWN@),
            Some(a) => if a != account || match ordinary {
                Some(e) => rates.ordinary_usage_allowed != Some(e),
                None => false,
            } {
                Err(PERMISSION_CHANGED@)
            } else {
                Ok(())
            },
        },
    }
}

/// Checks fresh rate limits against the account and quota a settings
/// change started with.
pub fn require_account(rates: &RateObservation, account: &str, ordinary: Option<bool>) -> (r: Result<(), BackendFailure>)
    ensures
        match permission_spec(*rates, account@, ordinary) {
            Ok(()) => r is Ok,
            Err(m) => held_with(r, m),
        },
{
    let changed = match ordinary {
        Some(expected) => ordinary_allowed(rates)? != expected,
        None => false,
    };
    let current = account_id(rates)?;
    if !same_text(current.as_str(), account) || changed {
        return Err(held(PERMISSION_CHANGED));
    }
    Ok(())
}

/// The policy is switched on: its mode is neither `off` nor `manual`.
pub open spec fn automation_enabled(mode: Seq<char>) -> bool {
    mode != "off"@ && mode != "manual"@
}

/// Whether the policy's mode lets the automation act.
pub fn is_enabled(policy: &ReservePolicy) -> (r: bool)
    ensures
        r == automation_enabled(policy.mode@),
{
    !same_text(policy.mode.as_str(), "off") && !same_text(policy.mode.as_str(), "manual")
}

/// A settings outcome that is still unresolved.
pub open spec fn unsettled_state(state: Seq<char>) -> bool {
    state == "entering"@ || state == "restoring"@ || state == "unknown"@ || state == "held"@
}

fn is_unsettled(state: &str) -> (r: bool)
    ensures
        r == unsettled_state(state@),
{
    same_text(state, "entering") || same_text(state, "restoring") || same_text(state, "unknown")
        || same_text(state, "held")
}

/// Hold message: a disabled policy with a usage failure to resolve.
pub const DISABLED_USAGE: &'static str = "disabled automatic policy still has an unresolved usage failure";
/// Hold message: a disabled policy with a settings outcome to resolve.
pub const DISABLED_SETTINGS: &'static str = "disabled automatic policy still has an unresolved settings outcome";
/// Hold message: a state that needs a fresh observation.
pub const STATE_AMBIGUOUS: &'static str = "automatic Reserve state requires a fresh, unambiguous observation";
/// Hold message: a state the automation does not know.
pub const STATE_INVALID: &'static str = "invalid automatic Reserve state";
/// Hold message: preparation ended with a usage failure still unresolved.
pub const USAGE_UNRESOLVED: &'static str = "automatic preparation completed while usage-limit handling remains unresolved";

/// The outcome of preparing a turn under a disabled policy: nothing to do,
/// unless a usage failure or a settings outcome is still unresolved.
pub fn disabled_outcome(policy: &ReservePolicy, usage_failure_pending: bool) -> (r: Option<Result<(), BackendFailure>>)
    ensures
        automation_enabled(policy.mode@) ==> r is None,
        !automation_enabled(policy.mode@) && usage_failure_pending ==> (r matches Some(x) && held_with(x, DISABLED_USAGE@)),
        !automation_enabled(policy.mode@) && !usage_failure_pending && unsettled_state(policy.state@) ==> (r matches Some(x)
            && held_with(x, DISABLED_SETTINGS@)),
        !automation_enabled(policy.mode@) && !usage_failure_pending && !unsettled_state(policy.state@) ==> r == Some(
            Ok::<(), BackendFailure>(()),
        ),
{
    if is_enabled(policy) {
        return None;
    }
    if usage_failure_pending {
        return Some(Err(held(DISABLED_USAGE)));
    }
    if is_unsettled(policy.state.as_str()) {
        return Some(Err(held(DISABLED_SETTINGS)));
    }
    Some(Ok(()))
}

/// How an enabled policy prepares a turn.
#[derive(Clone, Copy, Debug, PartialEq, Eq)]
pub enum PreparationRoute {
    /// The policy is ordinary: classify the live settings.
    Ordinary,
    /// Reserve while ordinary usage is back: resolve the usage failure and
    /// restore the previous settings.
    Restore,
    /// Reserve while ordinary usage is still refused: verify the Reserve
    /// settings.
    VerifyReserve,
}

/// The route of an enabled policy in `state` on fresh rate limits.
pub fn preparation_route(state: &str, rates: &RateObservation) -> (r: Result<PreparationRoute, BackendFailure>)
    ensures
        if state@ == "ordinary"@ {
            r == Ok::<PreparationRoute, BackendFailure>(PreparationRoute::Ordinary)
        } else if state@ == "reserve"@ {
            match rates.ordinary_usage_allowed {
                Some(true) => r == Ok::<PreparationRoute, BackendFailure>(PreparationRoute::Restore),
                Some(false) => r == Ok::<PreparationRoute, BackendFailure>(PreparationRoute::VerifyReserve),
                None => held_with(r, ORDINARY_UNKNOWN@),
            }
        } else if unsettled_state(state@) {
            held_with(r, STATE_AMBIGUOUS@)
        } else {
            held_with(r, STATE_INVALID@)
        },
{
    if same_text(state, "ordinary") {
        Ok(PreparationRoute::Ordinary)
    } else if same_text(state, "reserve") {
        if ordinary_allowed(rates)? {
            Ok(PreparationRoute::Restore)
        } else {
            Ok(PreparationRoute::VerifyReserve)
        }
    } else if is_unsettled(state) {
        Err(held(STATE_AMBIGUOUS))
    } else {
        Err(held(STATE_INVALID))
    }
}

/// A preparation that succeeded while the usage failure is still open is
/// held; any other outcome stands.
pub fn finish_preparation(result: Result<(), BackendFailure>, usage_still_unresolved: bool) -> (r: Result<
    (),
    BackendFailure,
>)
    ensures
        result is Ok && usage_still_unresolved ==> held_with(r, USAGE_UNRESOLVED@),
        !(result is Ok && usage_still_unresolved) ==> r == result,
{
    if result.is_ok() && usage_still_unresolved {
        return Err(held(USAGE_UNRESOLVED));
    }
    result
}

/// How an ordinary policy goes on once the live settings are known.
#[derive(Clone, Debug, PartialEq, Eq)]
pub enum OrdinaryStep {
    /// The thread already runs the Reserve model: verify its settings.
    VerifyReserve,
    /// Ordinary usage is allowed: resolve the usage failure, if any.
    ResolveUsage,
    /// Ordinary usage is refused: enter Reserve for this account.
    EnterReserve(String),
    /// The quota is unknown with no usage failure open: nothing to do.
    QuotaUnknown,
}

/// The step of an ordinary policy whose thread runs `current_model`.
pub fn ordinary_step(current_model: &str, reserve_model: &str, rates: &RateObservation, usage_failure_open: bool) -> (r: Result<
    OrdinaryStep,
    BackendFailure,
>)
    ensures
        current_model@ == reserve_model@ ==> r == Ok::<OrdinaryStep, BackendFailure>(OrdinaryStep::VerifyReserve),
        current_model@ != reserve_model@ ==> match rates.ordinary_usage_allowed {
            Some(true) => r == Ok::<OrdinaryStep, BackendFailure>(OrdinaryStep::ResolveUsage),
            Some(false) => match account_of(*rates) {
                Some(a) => r matches Ok(OrdinaryStep::EnterReserve(s)) && s@ == a,
                None => held_with(r, ACCOUNT_UNKNOWN@),
            },
            None => if usage_failure_open {
                held_with(r, ORDINARY_UNKNOWN@)
            } else {
                r == Ok::<OrdinaryStep, BackendFailure>(OrdinaryStep::QuotaUnknown)
            },
        },
{
    if same_text(current_model, reserve_model) {
        return Ok(OrdinaryStep::VerifyReserve);
    }
    match ordinary_allowed(rates) {
        Ok(true) => Ok(OrdinaryStep::ResolveUsage),
        Ok(false) => {
            let account = account_id(rates)?;
            Ok(OrdinaryStep::EnterReserve(account))
        },
        Err(e) => if usage_failure_open { Err(e) } else { Ok(OrdinaryStep::QuotaUnknown) },
    }
}

/// Hold message: recovery found a turn running.
pub const RECOVERY_ACTIVE_TURN: &'static str = "automatic recovery found an active turn";

/// Recovery acts only on a Reserve episode whose policy is switched on.
pub open spec fn recovery_wanted(policy: Option<ReservePolicy>) -> bool {
    match policy {
        Some(p) => p.state@ == "reserve"@ && (p.mode@ == "auto"@ || p.mode@ == "on"@),
        None => false,
    }
}

/// Whether background recovery should prepare the thread of `policy`.
pub fn wants_recovery(policy: &Option<ReservePolicy>) -> (r: bool)
    ensures
        r == recovery_wanted(*policy),
{
    match policy {
        Some(p) => same_text(p.state.as_str(), "reserve") && (same_text(p.mode.as_str(), "auto")
            || same_text(p.mode.as_str(), "on")),
        None => false,
    }
}

/// The mode stored for a manual switch, and the reply shown to the user.
pub fn manual_mode(enabled: bool) -> (r: (&'static str, String))
    ensures
        enabled ==> r.0@ == "on"@ && r.1@ == "자동 Reserve 전환을 활성화했습니다. 실패한 요청은 재실행하지 않습니다."@,
        !enabled ==> r.0@ == "off"@ && r.1@ == "자동 Reserve 전환을 비활성화했습니다. 실패한 요청은 재실행하지 않습니다."@,
{
    if enabled {
        ("on", "자동 Reserve 전환을 활성화했습니다. 실패한 요청은 재실행하지 않습니다.".to_owned())
    } else {
        ("off", "자동 Reserve 전환을 비활성화했습니다. 실패한 요청은 재실행하지 않습니다.".to_owned())
    }
}

/// After polling past the cursor found no target: when a cursor was set,
/// it is cleared and the poll starts over from the beginning.
pub fn wrap_cursor(targets_found: bool, cursor: &mut Option<String>) -> (poll_again: bool)
    ensures
        targets_found ==> !poll_again && *final(cursor) == *old(cursor),
        !targets_found ==> poll_again == (*old(cursor)) is Some && *final(cursor) is None,
{
    if targets_found {
        return false;
    }
    cursor.take().is_some()
}

/// What a recovery cycle does before the next target.
#[derive(Clone, Copy, Debug, PartialEq, Eq)]
pub enum CycleStep {
    /// Shutdown was requested.
    Shutdown,
    /// The cycle's time budget is spent.
    OutOfTime,
    /// Recover the next target.
    Recover,
}

/// A requested shutdown ends the cycle first, then a spent budget.
pub fn cycle_step(shutdown_requested: bool, past_deadline: bool) -> (r: CycleStep)
    ensures
        shutdown_requested ==> r == CycleStep::Shutdown,
        !shutdown_requested && past_deadline ==> r == CycleStep::OutOfTime,
        !shutdown_requested && !past_deadline ==> r == CycleStep::Recover,
{
    if shutdown_requested {
        CycleStep::Shutdown
    } else if past_deadline {
        CycleStep::OutOfTime
    } else {
        CycleStep::Recover
    }
}

/// Hold message: the resume answered for another thread or none.
pub const RESUME_OTHER_THREAD: &'static str = "automatic resume returned a different or missing thread";
/// Hold message: the resumed thread is not idle.
pub const RESUME_NOT_IDLE: &'static str = "automatic settings require an exact idle thread observation";

/// A resume is usable only when it answers for `thread` and shows it idle.
pub fn resume_observation(observed_thread: Option<&str>, thread: &str, status_type: Option<&str>) -> (r: Result<
    (),
    BackendFailure,
>)
    ensures
        !(observed_thread matches Some(t) && t@ == thread@) ==> held_with(r, RESUME_OTHER_THREAD@),
        (observed_thread matches Some(t) && t@ == thread@) && !(status_type matches Some(s) && s@ == "idle"@) ==> held_with(
            r,
            RESUME_NOT_IDLE@,
        ),
        (observed_thread matches Some(t) && t@ == thread@) && (status_type matches Some(s) && s@ == "idle"@) ==> r is Ok,
{
    let same = match observed_thread {
        Some(t) => same_text(t, thread),
        None => false,
    };
    if !same {
        return Err(held(RESUME_OTHER_THREAD));
    }
    let idle = match status_type {
        Some(s) => same_text(s, "idle"),
        None => false,
    };
    if !idle {
        return Err(held(RESUME_NOT_IDLE));
    }
    Ok(())
}

/// A failed rate-limit read: a usage-limit refusal is reported as such,
/// any other failure as a definite failure with its message.
pub fn rates_failure(usage_limit: bool, message: String) -> (r: BackendFailure)
    ensures
        usage_limit ==> failure_is(r, message@, false, BackendFailureKind::UsageLimit),
        !usage_limit ==> failure_is(r, message@, false, BackendFailureKind::Other),
{
    if usage_limit {
        BackendFailure::usage_limit(message)
    } else {
        BackendFailure::definite(message)
    }
}

/// Hold message: the policy changed or the thread is fenced or held.
pub const POLICY_SUPERSEDED_OR_HELD: &'static str = "automatic Reserve policy was superseded or held";

/// The policy read again must be the one the automation started from, and
/// the thread neither archive-fenced nor held for a dead generation.
pub fn policy_snapshot_check(unchanged: bool, fenced: bool, generation_held: bool) -> (r: Result<(), BackendFailure>)
    ensures
        (unchanged && !fenced && !generation_held) ==> r is Ok,
        !(unchanged && !fenced && !generation_held) ==> held_with(r, POLICY_SUPERSEDED_OR_HELD@),
{
    if !unchanged || fenced || generation_held {
        return Err(held(POLICY_SUPERSEDED_OR_HELD));
    }
    Ok(())
}

/// Hold message: the usage-limit claim was resolved by someone else.
pub const USAGE_SUPERSEDED: &'static str = "automatic usage-limit handling was superseded";

/// Resolving a usage failure must succeed for the claim the automation holds.
pub fn usage_resolution(claim_held: bool, resolved: bool) -> (r: Result<(), BackendFailure>)
    ensures
        (!claim_held || resolved) ==> r is Ok,
        (claim_held && !resolved) ==> held_with(r, USAGE_SUPERSEDED@),
{
    if claim_held && !resolved {
        return Err(held(USAGE_SUPERSEDED));
    }
    Ok(())
}

/// Hold message: the usage failure claim vanished while it was unresolved.
pub const USAGE_CLAIM_GONE: &'static str = "automatic usage-limit handling claim disappeared";
/// Hold message: another transition superseded the entry into Reserve.
pub const ENTRY_SUPERSEDED: &'static str = "automatic Reserve transition was superseded";
/// Hold message: the entry's completion was superseded.
pub const ENTRY_COMPLETION_SUPERSEDED: &'static str = "automatic Reserve completion was superseded";
/// Hold message: another transition superseded the restore.
pub const RESTORE_SUPERSEDED: &'static str = "automatic restore was superseded";
/// Hold message: the restore's completion was superseded.
pub const RESTORE_COMPLETION_SUPERSEDED: &'static str = "automatic restore completion was superseded";
/// Hold message: another transition superseded the effort alignment.
pub const ALIGNMENT_SUPERSEDED: &'static str = "Reserve effort alignment was superseded";
/// Hold message: the alignment's completion was superseded.
pub const ALIGNMENT_COMPLETION_SUPERSEDED: &'static str = "Reserve effort completion or usage fence was superseded";

/// A durable claim or completion of the automation must take effect;
/// when it does not, the request is held with `message`.
pub fn claimed(took_effect: bool, message: &str) -> (r: Result<(), BackendFailure>)
    ensures
        took_effect ==> r is Ok,
        !took_effect ==> held_with(r, message@),
{
    if !took_effect {
        return Err(held(message));
    }
    Ok(())
}

/// Message staged when a typed usage-limit failure reaches the automation.
pub const TYPED_USAGE_FAILURE: &'static str = "typed usage-limit failure requires automatic handling";

} // verus!
