//! The claimed part of a settings transition of the automation, entering
//! Reserve or restoring the previous settings: the durable claim, applying
//! the settings, the final verification and the completion of the claim.
//! Once the claim is taken, every failure marks its outcome unknown before
//! the failure is returned, so a later pass never replays the settings.

use vstd::prelude::*;

use super::{
    held, is_held, ENTRY_COMPLETION_SUPERSEDED, ENTRY_SUPERSEDED, RESTORE_COMPLETION_SUPERSEDED,
    RESTORE_SUPERSEDED,
};
use crate::queue_runner::types::BackendFailure;

verus! {

/// Which transition runs.
#[derive(Clone, Copy, Debug, PartialEq, Eq, Structural)]
pub enum TransitionKind {
    /// From the ordinary model into Reserve.
    Enter,
    /// From Reserve back to the settings the episode recorded.
    Restore,
}

/// The hold when another transition took the claim first.
pub open spec fn superseded_message(kind: TransitionKind) -> Seq<char> {
    match kind {
        TransitionKind::Enter => ENTRY_SUPERSEDED@,
        TransitionKind::Restore => RESTORE_SUPERSEDED@,
    }
}

/// The hold when the claim could not be completed.
pub open spec fn completion_message(kind: TransitionKind) -> Seq<char> {
    match kind {
        TransitionKind::Enter => ENTRY_COMPLETION_SUPERSEDED@,
        TransitionKind::Restore => RESTORE_COMPLETION_SUPERSEDED@,
    }
}

/// The policy state a completed claim moves from, and the one it moves to:
/// an entry goes from `entering` to `reserve`, a restore from `restoring`
/// to `ordinary`.
pub open spec fn completion_states(kind: TransitionKind) -> (&'static str, &'static str) {
    match kind {
        TransitionKind::Enter => ("entering", "reserve"),
        TransitionKind::Restore => ("restoring", "ordinary"),
    }
}

/// Where the transition stands; from `Applying` on it carries the revision
/// of the claim it holds.
#[derive(Debug)]
pub enum TransitionStage {
    /// Waiting for the durable claim.
    Claiming,
    /// Waiting for the settings to be applied or confirmed.
    Applying(i64),
    /// Waiting for the final verification.
    Verifying(i64),
    /// Waiting for the claim to be completed.
    Completing(i64),
    /// Waiting for the claim's outcome to be marked unknown; the failure
    /// is returned next.
    MarkingUnknown(BackendFailure),
    /// The transition is over.
    Finished,
}

/// What the store or the app-server answered.
#[derive(Debug)]
pub enum TransitionEvent {
    /// The revision of the claim taken, `None` when another transition took
    /// it, or the store's failure.
    Claimed(Result<Option<i64>, BackendFailure>),
    /// The outcome of applying the settings between identity checks.
    Applied(Result<(), BackendFailure>),
    /// The outcome of the final verification.
    Verified(Result<(), BackendFailure>),
    /// Whether the claim's completion took effect, or the store's failure.
    Completed(Result<bool, BackendFailure>),
    /// The claim's outcome was marked unknown (whatever the store said).
    Marked,
}

/// What to do next.
#[derive(Debug)]
pub enum TransitionAction {
    Apply,
    VerifyFinal,
    /// Complete the claim, moving the policy from state `from` to state `to`.
    Complete { from: &'static str, to: &'static str },
    /// Mark the outcome of the claim with this revision unknown, giving
    /// `reason`.
    MarkUnknown { revision: i64, reason: String },
    /// End the transition with this result.
    Finish(Result<(), BackendFailure>),
}

/// One claimed transition.
pub struct ClaimedTransition {
    pub kind: TransitionKind,
    pub stage: TransitionStage,
}

/// The event that answers the action a stage waits for.
pub open spec fn transition_expects(stage: TransitionStage, event: TransitionEvent) -> bool {
    match stage {
        TransitionStage::Claiming => event is Claimed,
        TransitionStage::Applying(_) => event is Applied,
        TransitionStage::Verifying(_) => event is Verified,
        TransitionStage::Completing(_) => event is Completed,
        TransitionStage::MarkingUnknown(_) => event is Marked,
        TransitionStage::Finished => false,
    }
}

/// The claim with revision `revision` failed with `e`: its outcome is marked
/// unknown with the failure's message, and the failure is returned after.
pub open spec fn marks_unknown(next: TransitionStage, a: TransitionAction, revision: i64, e: BackendFailure) -> bool {
    next == TransitionStage::MarkingUnknown(e) && (a matches TransitionAction::MarkUnknown { revision: r, reason }
        && r == revision && reason@ == e.message@)
}

/// The step from `stage` on `event` to `next` with action `a`.
pub open spec fn transition_step(
    kind: TransitionKind,
    stage: TransitionStage,
    event: TransitionEvent,
    next: TransitionStage,
    a: TransitionAction,
) -> bool {
    match (stage, event) {
        (TransitionStage::Claiming, TransitionEvent::Claimed(claim)) => match claim {
            Err(e) => next is Finished && a == TransitionAction::Finish(Err(e)),
            Ok(None) => next is Finished && (a matches TransitionAction::Finish(Err(f)) && is_held(
                f,
                superseded_message(kind),
            )),
            Ok(Some(revision)) => next == TransitionStage::Applying(revision) && a is Apply,
        },
        (TransitionStage::Applying(revision), TransitionEvent::Applied(outcome)) => match outcome {
            Err(e) => marks_unknown(next, a, revision, e),
            Ok(()) => next == TransitionStage::Verifying(revision) && a is VerifyFinal,
        },
        (TransitionStage::Verifying(revision), TransitionEvent::Verified(outcome)) => match outcome {
            Err(e) => marks_unknown(next, a, revision, e),
            Ok(()) => next == TransitionStage::Completing(revision) && (a matches TransitionAction::Complete {
                from,
                to,
            } && (from, to) == completion_states(kind)),
        },
        (TransitionStage::Completing(revision), TransitionEvent::Completed(outcome)) => match outcome {
            Err(e) => marks_unknown(next, a, revision, e),
            Ok(false) => next is MarkingUnknown && (next matches TransitionStage::MarkingUnknown(e) && is_held(
                e,
                completion_message(kind),
            ) && marks_unknown(next, a, revision, e)),
            Ok(true) => next is Finished && a == TransitionAction::Finish(Ok(())),
        },
        (TransitionStage::MarkingUnknown(e), TransitionEvent::Marked) => next is Finished && a
            == TransitionAction::Finish(Err(e)),
        _ => false,
    }
}

fn mark_unknown(revision: i64, e: BackendFailure) -> (r: (TransitionStage, TransitionAction))
    ensures
        marks_unknown(r.0, r.1, revision, e),
{
    let reason = e.message.clone();
    (TransitionStage::MarkingUnknown(e), TransitionAction::MarkUnknown { revision, reason })
}

impl ClaimedTransition {
    /// A transition of `kind` that first takes the durable claim.
    pub fn new(kind: TransitionKind) -> (r: Self)
        ensures
            r.kind == kind,
            r.stage is Claiming,
    {
        ClaimedTransition { kind, stage: TransitionStage::Claiming }
    }

    /// Takes the answer to the last action and returns the next one.
    pub fn on(&mut self, event: TransitionEvent) -> (a: TransitionAction)
        requires
            transition_expects(old(self).stage, event),
        ensures
            final(self).kind == old(self).kind,
            transition_step(old(self).kind, old(self).stage, event, final(self).stage, a),
    {
        let mut stage = TransitionStage::Finished;
        std::mem::swap(&mut stage, &mut self.stage);
        let (next, action) = match (stage, event) {
            (TransitionStage::Claiming, TransitionEvent::Claimed(claim)) => match claim {
                Err(e) => (TransitionStage::Finished, TransitionAction::Finish(Err(e))),
                Ok(None) => {
                    let f = match self.kind {
                        TransitionKind::Enter => held(ENTRY_SUPERSEDED),
                        TransitionKind::Restore => held(RESTORE_SUPERSEDED),
                    };
                    (TransitionStage::Finished, TransitionAction::Finish(Err(f)))
                },
                Ok(Some(revision)) => (TransitionStage::Applying(revision), TransitionAction::Apply),
            },
            (TransitionStage::Applying(revision), TransitionEvent::Applied(outcome)) => match outcome {
                Err(e) => mark_unknown(revision, e),
                Ok(()) => (TransitionStage::Verifying(revision), TransitionAction::VerifyFinal),
            },
            (TransitionStage::Verifying(revision), TransitionEvent::Verified(outcome)) => match outcome {
                Err(e) => mark_unknown(revision, e),
                Ok(()) => {
                    let (from, to) = match self.kind {
                        TransitionKind::Enter => ("entering", "reserve"),
                        TransitionKind::Restore => ("restoring", "ordinary"),
                    };
                    (TransitionStage::Completing(revision), TransitionAction::Complete { from, to })
                },
            },
            (TransitionStage::Completing(revision), TransitionEvent::Completed(outcome)) => match outcome {
                Err(e) => mark_unknown(revision, e),
                Ok(false) => {
                    let f = match self.kind {
                        TransitionKind::Enter => held(ENTRY_COMPLETION_SUPERSEDED),
                        TransitionKind::Restore => held(RESTORE_COMPLETION_SUPERSEDED),
                    };
                    mark_unknown(revision, f)
                },
                Ok(true) => (TransitionStage::Finished, TransitionAction::Finish(Ok(()))),
            },
            (TransitionStage::MarkingUnknown(e), TransitionEvent::Marked) => (
                TransitionStage::Finished,
                TransitionAction::Finish(Err(e)),
            ),
            (_, _) => {
                proof {
                    assert(false);
                }
                (TransitionStage::Finished, TransitionAction::Finish(Ok(())))
            },
        };
        self.stage = next;
        action
    }
}

/// The answer reports that the claimed work failed or that the claim could
/// not be completed.
pub open spec fn claim_failed(event: TransitionEvent) -> bool {
    match event {
        TransitionEvent::Applied(outcome) => outcome is Err,
        TransitionEvent::Verified(outcome) => outcome is Err,
        TransitionEvent::Completed(outcome) => !(outcome == Ok::<bool, BackendFailure>(true)),
        _ => false,
    }
}

/// The revision of the claim a stage holds.
pub open spec fn held_claim(stage: TransitionStage) -> Option<i64> {
    match stage {
        TransitionStage::Applying(r) => Some(r),
        TransitionStage::Verifying(r) => Some(r),
        TransitionStage::Completing(r) => Some(r),
        _ => None,
    }
}

/// A transition succeeds only when its claim was completed; a failure
/// after the claim was taken first marks that claim's outcome unknown, and
/// only a claim the transition holds is ever marked.
pub proof fn law_failed_claim_is_marked_unknown(
    kind: TransitionKind,
    stage: TransitionStage,
    event: TransitionEvent,
    next: TransitionStage,
    a: TransitionAction,
)
    requires
        transition_step(kind, stage, event, next, a),
    ensures
        a == TransitionAction::Finish(Ok(())) ==> stage is Completing && event == TransitionEvent::Completed(
            Ok(true),
        ),
        held_claim(stage) is Some && claim_failed(event) ==> (a matches TransitionAction::MarkUnknown {
            revision,
            ..
        } && held_claim(stage) == Some(revision)),
        a matches TransitionAction::MarkUnknown { revision, .. } ==> held_claim(stage) == Some(revision),
        (a matches TransitionAction::Finish(Err(_))) ==> stage is Claiming || stage is MarkingUnknown,
{
}

} // verus!
