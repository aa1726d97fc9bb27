//! The checks of a Reserve episode: entering Reserve, restoring the previous
//! settings, and keeping an existing Reserve selection aligned.

use vstd::prelude::*;

use super::{
    RateObservation, ReservePolicy, account_of, held, held_with, is_held, ORDINARY_UNKNOWN,
    ACCOUNT_UNKNOWN,
};
use crate::queue_runner::job::{copy_opt, opt_text};
use crate::queue_runner::types::BackendFailure;
use crate::text::same_text;

verus! {

/// Live settings of a thread, as an exact idle resume shows them.
#[derive(Clone, Debug, PartialEq, Eq)]
pub struct LiveSettings {
    pub model: String,
    pub effort: Option<String>,
    /// Whether the resume carried an effort field at all.
    pub effort_present: bool,
    pub tier: Option<String>,
}

/// A change of the service tier.
#[derive(Clone, Debug, PartialEq, Eq)]
pub enum TierUpdate {
    Assign(String),
    Clear,
}

/// A change of a thread's settings.
#[derive(Clone, Debug, PartialEq, Eq)]
pub struct SettingsUpdate {
    pub model: Option<String>,
    pub effort: Option<String>,
    pub effort_clear: bool,
    pub service_tier: TierUpdate,
}

/// Why an episode step is refused: the hold to report and, when the
/// policy's revision must be marked unknown first, the reason recorded.
#[derive(Clone, Debug, PartialEq, Eq)]
pub struct Refusal {
    pub mark_unknown: Option<String>,
    pub failure: BackendFailure,
}

/// The refusal that marks the policy unknown with `reason` and holds with
/// `message`; `reason` is `None` when nothing is marked.
pub open spec fn refusal_is(r: Refusal, reason: Option<Seq<char>>, message: Seq<char>) -> bool {
    opt_text(r.mark_unknown) == reason && is_held(r.failure, message)
}

fn refuse(reason: Option<&str>, message: &str) -> (r: Refusal)
    ensures
        refusal_is(
            r,
            match reason {
                Some(s) => Some(s@),
                None => None,
            },
            message@,
        ),
{
    Refusal {
        mark_unknown: match reason {
            Some(s) => Some(s.to_owned()),
            None => None,
        },
        failure: held(message),
    }
}

/// Recorded reason: the account changed.
pub const ACCOUNT_CHANGED_REASON: &'static str = "account identity changed";
/// Hold message: the account changed.
pub const ACCOUNT_CHANGED: &'static str = "account identity changed; automatic episode is held";
/// Recorded reason: no previous model.
pub const PREVIOUS_MODEL_MISSING: &'static str = "previous model missing";
/// Recorded reason: no previous effort field.
pub const PREVIOUS_EFFORT_MISSING: &'static str = "previous effort field was not present";
/// Hold message: previous settings are incomplete.
pub const PREVIOUS_INCOMPLETE: &'static str = "previous settings are incomplete; automatic restore was not guessed";
/// Recorded reason and hold message: the settings changed outside the episode.
pub const CHANGED_OUTSIDE: &'static str = "Reserve settings changed outside this episode";
/// Hold message: restore stopped on settings changed outside the episode.
pub const RESTORE_STOPPED: &'static str = "Reserve settings changed outside this episode; automatic restore stopped";
/// Hold message: ordinary usage did not come back after the restore.
pub const RECOVERY_UNCONFIRMED: &'static str = "ordinary usage recovery was not confirmed";
/// Hold message: the policy was superseded.
pub const POLICY_SUPERSEDED: &'static str = "automatic Reserve policy was superseded";

/// An episode belongs to the account that began it.
pub fn require_episode_account(policy: &ReservePolicy, account: &str) -> (r: Result<(), Refusal>)
    ensures
        opt_text(policy.account_id) == Some(account@) ==> r is Ok,
        opt_text(policy.account_id) != Some(account@) ==> (r matches Err(x) && refusal_is(
            x,
            Some(ACCOUNT_CHANGED_REASON@),
            ACCOUNT_CHANGED@,
        )),
{
    let same = match &policy.account_id {
        Some(a) => same_text(a.as_str(), account),
        None => false,
    };
    if !same {
        return Err(refuse(Some(ACCOUNT_CHANGED_REASON), ACCOUNT_CHANGED));
    }
    Ok(())
}

/// Marking the policy unknown must change the very revision read.
pub fn mark_unknown_outcome(changed: bool) -> (r: Result<(), BackendFailure>)
    ensures
        changed ==> r is Ok,
        !changed ==> held_with(r, POLICY_SUPERSEDED@),
{
    if !changed {
        return Err(held(POLICY_SUPERSEDED));
    }
    Ok(())
}

/// The checks before a restore resumes the thread: the episode's account,
/// and previous settings complete enough to restore without guessing.
pub fn restore_preconditions(policy: &ReservePolicy, account: &str) -> (r: Result<(), Refusal>)
    ensures
        opt_text(policy.account_id) != Some(account@) ==> (r matches Err(x) && refusal_is(
            x,
            Some(ACCOUNT_CHANGED_REASON@),
            ACCOUNT_CHANGED@,
        )),
        opt_text(policy.account_id) == Some(account@) && policy.previous_model is None ==> (r matches Err(x)
            && refusal_is(x, Some(PREVIOUS_MODEL_MISSING@), PREVIOUS_INCOMPLETE@)),
        opt_text(policy.account_id) == Some(account@) && policy.previous_model is Some
            && !policy.previous_effort_present ==> (r matches Err(x) && refusal_is(
            x,
            Some(PREVIOUS_EFFORT_MISSING@),
            PREVIOUS_INCOMPLETE@,
        )),
        opt_text(policy.account_id) == Some(account@) && policy.previous_model is Some
            && policy.previous_effort_present ==> r is Ok,
{
    require_episode_account(policy, account)?;
    if policy.previous_model.is_none() {
        return Err(refuse(Some(PREVIOUS_MODEL_MISSING), PREVIOUS_INCOMPLETE));
    }
    if !policy.previous_effort_present {
        return Err(refuse(Some(PREVIOUS_EFFORT_MISSING), PREVIOUS_INCOMPLETE));
    }
    Ok(())
}

/// The live settings are still exactly what the episode applied, and what
/// it applied is the Reserve model.
pub open spec fn still_applied(policy: ReservePolicy, current: LiveSettings, reserve_model: Seq<char>) -> bool {
    &&& opt_text(policy.applied_model) == Some(reserve_model)
    &&& current.model@ == reserve_model
    &&& opt_text(current.effort) == opt_text(policy.applied_effort)
    &&& opt_text(current.tier) == opt_text(policy.applied_tier)
}

fn same_opt(a: &Option<String>, b: &Option<String>) -> (r: bool)
    ensures
        r == (opt_text(*a) == opt_text(*b)),
{
    match (a, b) {
        (Some(x), Some(y)) => same_text(x.as_str(), y.as_str()),
        (None, None) => true,
        _ => false,
    }
}

fn opt_is(a: &Option<String>, s: &str) -> (r: bool)
    ensures
        r == (opt_text(*a) == Some(s@)),
{
    match a {
        Some(x) => same_text(x.as_str(), s),
        None => false,
    }
}

/// The update that restores the previous settings: the previous model and
/// effort (clearing the effort when there was none) and the previous tier
/// (clearing it when there was none).
pub open spec fn restores(u: SettingsUpdate, policy: ReservePolicy) -> bool {
    &&& opt_text(u.model) == opt_text(policy.previous_model)
    &&& opt_text(u.effort) == opt_text(policy.previous_effort)
    &&& u.effort_clear == (policy.previous_effort is None)
    &&& match policy.previous_tier {
        Some(t) => u.service_tier matches TierUpdate::Assign(s) && s@ == t@,
        None => u.service_tier == TierUpdate::Clear,
    }
}

/// The update a restore applies, once the live settings are read: refused
/// when they are no longer what the episode applied.
pub fn restore_update(policy: &ReservePolicy, current: &LiveSettings, reserve_model: &str) -> (r: Result<
    SettingsUpdate,
    Refusal,
>)
    requires
        policy.previous_model is Some,
    ensures
        still_applied(*policy, *current, reserve_model@) ==> (r matches Ok(u) && restores(u, *policy)),
        !still_applied(*policy, *current, reserve_model@) ==> (r matches Err(x) && refusal_is(
            x,
            Some(CHANGED_OUTSIDE@),
            RESTORE_STOPPED@,
        )),
{
    if !opt_is(&policy.applied_model, reserve_model) || !same_text(current.model.as_str(), reserve_model)
        || !same_opt(&current.effort, &policy.applied_effort) || !same_opt(&current.tier, &policy.applied_tier) {
        return Err(refuse(Some(CHANGED_OUTSIDE), RESTORE_STOPPED));
    }
    let tier = match &policy.previous_tier {
        Some(t) => TierUpdate::Assign(t.clone()),
        None => TierUpdate::Clear,
    };
    Ok(SettingsUpdate {
        model: copy_opt(&policy.previous_model),
        effort: copy_opt(&policy.previous_effort),
        effort_clear: policy.previous_effort.is_none(),
        service_tier: tier,
    })
}

/// After a restore, fresh rate limits must show the same account with
/// ordinary usage allowed.
pub fn restore_confirmed(final_rates: &RateObservation, account: &str) -> (r: Result<(), BackendFailure>)
    ensures
        match account_of(*final_rates) {
            None => held_with(r, ACCOUNT_UNKNOWN@),
            Some(a) => if a != account@ {
                held_with(r, RECOVERY_UNCONFIRMED@)
            } else {
                match final_rates.ordinary_usage_allowed {
                    None => held_with(r, ORDINARY_UNKNOWN@),
                    Some(true) => r is Ok,
                    Some(false) => held_with(r, RECOVERY_UNCONFIRMED@),
                }
            },
        },
{
    let current = super::account_id(final_rates)?;
    if !same_text(current.as_str(), account) {
        return Err(held(RECOVERY_UNCONFIRMED));
    }
    if !super::ordinary_allowed(final_rates)? {
        return Err(held(RECOVERY_UNCONFIRMED));
    }
    Ok(())
}

/// The update that selects Reserve: the Reserve model with `effort` and
/// the default tier.
pub open spec fn selects_reserve(u: SettingsUpdate, reserve_model: Seq<char>, effort: Seq<char>) -> bool {
    &&& opt_text(u.model) == Some(reserve_model)
    &&& opt_text(u.effort) == Some(effort)
    &&& !u.effort_clear
    &&& u.service_tier matches TierUpdate::Assign(t) && t@ == "default"@
}

/// The update that selects the Reserve model with `effort`.
pub fn reserve_update(reserve_model: &str, effort: &str) -> (r: SettingsUpdate)
    ensures
        selects_reserve(r, reserve_model@, effort@),
{
    SettingsUpdate {
        model: Some(reserve_model.to_owned()),
        effort: Some(effort.to_owned()),
        effort_clear: false,
        service_tier: TierUpdate::Assign("default".to_owned()),
    }
}

/// A Reserve selection the automation may keep aligned: the Reserve model
/// with an effort field and the default tier, and, inside an episode,
/// exactly what the episode applied.
pub open spec fn owns_reserve(policy: ReservePolicy, current: LiveSettings, reserve_model: Seq<char>) -> bool {
    &&& current.model@ == reserve_model
    &&& current.effort_present
    &&& opt_text(current.tier) == Some("default"@)
    &&& policy.state@ == "reserve"@ ==> {
        &&& opt_text(policy.applied_model) == Some(current.model@)
        &&& opt_text(policy.applied_effort) == opt_text(current.effort)
        &&& opt_text(policy.applied_tier) == opt_text(current.tier)
    }
}

/// Checks the live Reserve selection before aligning it; inside an episode
/// a foreign change also marks the policy unknown.
pub fn require_existing_reserve_owner(policy: &ReservePolicy, current: &LiveSettings, reserve_model: &str) -> (r: Result<
    (),
    Refusal,
>)
    ensures
        owns_reserve(*policy, *current, reserve_model@) ==> r is Ok,
        !owns_reserve(*policy, *current, reserve_model@) ==> (r matches Err(x) && refusal_is(
            x,
            if policy.state@ == "reserve"@ { Some(CHANGED_OUTSIDE@) } else { None },
            CHANGED_OUTSIDE@,
        )),
{
    let episode = same_text(policy.state.as_str(), "reserve");
    let invalid = !same_text(current.model.as_str(), reserve_model) || !current.effort_present || !opt_is(
        &current.tier,
        "default",
    ) || (episode && (!opt_is(&policy.applied_model, current.model.as_str()) || !same_opt(
        &policy.applied_effort,
        &current.effort,
    ) || !same_opt(&policy.applied_tier, &current.tier)));
    if invalid {
        return Err(refuse(if episode { Some(CHANGED_OUTSIDE) } else { None }, CHANGED_OUTSIDE));
    }
    Ok(())
}

/// Hold message: the applied effort is missing.
pub const EFFORT_MISSING: &'static str = "exact Reserve effort is missing";
/// Hold message: the final settings differ from the applied ones.
pub const FINAL_MISMATCH: &'static str = "final Reserve settings do not match the applied values";

/// The effort an update applies, which a final check needs.
pub fn applied_effort(update: &SettingsUpdate) -> (r: Result<String, BackendFailure>)
    ensures
        match update.effort {
            Some(e) => r matches Ok(s) && s@ == e@,
            None => held_with(r, EFFORT_MISSING@),
        },
{
    match &update.effort {
        Some(e) => Ok(e.clone()),
        None => Err(held(EFFORT_MISSING)),
    }
}

/// The final observation must match the update and carry an effort field.
pub fn final_settings_match(observed: &LiveSettings, matches_update: bool) -> (r: Result<(), BackendFailure>)
    ensures
        (matches_update && observed.effort_present) ==> r is Ok,
        !(matches_update && observed.effort_present) ==> held_with(r, FINAL_MISMATCH@),
{
    if !matches_update || !observed.effort_present {
        return Err(held(FINAL_MISMATCH));
    }
    Ok(())
}

/// The quota an alignment rechecks: inside an episode ordinary usage must
/// still be refused; a manual Reserve selection has no quota precondition.
pub fn alignment_quota(policy: &ReservePolicy) -> (r: Option<bool>)
    ensures
        policy.state@ == "reserve"@ ==> r == Some(false),
        policy.state@ != "reserve"@ ==> r is None,
{
    if same_text(policy.state.as_str(), "reserve") {
        Some(false)
    } else {
        None
    }
}

} // verus!
