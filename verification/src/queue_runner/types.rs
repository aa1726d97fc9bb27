//! Backend failures, submissions and the queue's view of a durable job.

use vstd::prelude::*;

use crate::restart_readiness::drain::DrainGateError;
use crate::text::{chars_of, contains, has_infix, has_prefix, starts_with};

verus! {

/// How a backend failure affects the request that met it.
#[derive(Clone, Copy, Debug, PartialEq, Eq, Structural)]
pub enum BackendFailureKind {
    Other,
    ActiveWriter,
    Quarantined,
    ForkFenced,
    StartingCandidatesHeld,
    UsageLimit,
    AutoReserveHeld,
}

/// A failure reported by the Codex turn backend.
#[derive(Clone, Debug, PartialEq, Eq)]
pub struct BackendFailure {
    pub message: String,
    /// Whether the request may have taken effect despite the failure.
    pub ambiguous: bool,
    pub kind: BackendFailureKind,
}

/// The message of a failure that is reported verbatim.
pub open spec fn failure_is(f: BackendFailure, message: Seq<char>, ambiguous: bool, kind: BackendFailureKind) -> bool {
    f.message@ == message && f.ambiguous == ambiguous && f.kind == kind
}

/// The prefixes with which the durable store marks held or fenced requests.
pub struct FailurePrefixes {
    /// Marks a request fenced by an unresolved app-server fork handoff.
    pub unresolved_fork: String,
    /// Marks a start whose outcome is ambiguous between candidate turns.
    pub starting_candidate_hold: String,
    /// Marks a request held by the automatic Reserve policy.
    pub reserve_hold: String,
}

impl FailurePrefixes {
    /// Every prefix is non-empty, so each marks only the messages that
    /// begin with it; an empty prefix would mark every message.
    pub open spec fn valid(&self) -> bool {
        &&& self.unresolved_fork@.len() > 0
        &&& self.starting_candidate_hold@.len() > 0
        &&& self.reserve_hold@.len() > 0
    }

    /// The prefixes, when none of them is empty.
    pub fn new(unresolved_fork: String, starting_candidate_hold: String, reserve_hold: String) -> (r: Option<Self>)
        ensures
            r is Some <==> (unresolved_fork@.len() > 0 && starting_candidate_hold@.len() > 0 && reserve_hold@.len()
                > 0),
            r matches Some(p) ==> p.valid() && p.unresolved_fork@ == unresolved_fork@
                && p.starting_candidate_hold@ == starting_candidate_hold@ && p.reserve_hold@ == reserve_hold@,
    {
        if unresolved_fork.as_str().is_empty() || starting_candidate_hold.as_str().is_empty()
            || reserve_hold.as_str().is_empty() {
            None
        } else {
            Some(FailurePrefixes { unresolved_fork, starting_candidate_hold, reserve_hold })
        }
    }
}

impl BackendFailure {
    /// A failure that certainly did not take effect.
    pub fn definite(message: String) -> (r: Self)
        ensures
            failure_is(r, message@, false, BackendFailureKind::Other),
    {
        BackendFailure { message, ambiguous: false, kind: BackendFailureKind::Other }
    }

    /// A failure that may have taken effect.
    pub fn ambiguous(message: String) -> (r: Self)
        ensures
            failure_is(r, message@, true, BackendFailureKind::Other),
    {
        BackendFailure { message, ambiguous: true, kind: BackendFailureKind::Other }
    }

    /// Another process owns the thread's writer.
    pub fn active_writer(message: String) -> (r: Self)
        ensures
            failure_is(r, message@, false, BackendFailureKind::ActiveWriter),
    {
        BackendFailure { message, ambiguous: false, kind: BackendFailureKind::ActiveWriter }
    }

    /// The request is quarantined and is never replayed.
    pub fn quarantined(message: String) -> (r: Self)
        ensures
            failure_is(r, message@, true, BackendFailureKind::Quarantined),
    {
        BackendFailure { message, ambiguous: true, kind: BackendFailureKind::Quarantined }
    }

    /// The request is fenced behind an unresolved fork handoff.
    pub fn fork_fenced(message: String) -> (r: Self)
        ensures
            failure_is(r, message@, true, BackendFailureKind::ForkFenced),
    {
        BackendFailure { message, ambiguous: true, kind: BackendFailureKind::ForkFenced }
    }

    /// The request is held because several candidate turns may be its start.
    pub fn starting_candidates_held(message: String) -> (r: Self)
        ensures
            failure_is(r, message@, true, BackendFailureKind::StartingCandidatesHeld),
    {
        BackendFailure { message, ambiguous: true, kind: BackendFailureKind::StartingCandidatesHeld }
    }

    /// The app-server refused for the account's usage limit.
    pub fn usage_limit(message: String) -> (r: Self)
        ensures
            failure_is(r, message@, false, BackendFailureKind::UsageLimit),
    {
        BackendFailure { message, ambiguous: false, kind: BackendFailureKind::UsageLimit }
    }

    /// The request is held by the automatic Reserve policy and is not replayed.
    pub fn auto_reserve_held(message: String) -> (r: Self)
        ensures
            failure_is(r, message@, true, BackendFailureKind::AutoReserveHeld),
    {
        BackendFailure { message, ambiguous: true, kind: BackendFailureKind::AutoReserveHeld }
    }

    /// A failure read back from the durable store, classified by its message.
    pub fn persisted(message: String, ambiguous: bool, prefixes: &FailurePrefixes) -> (r: Self)
        requires
            prefixes.valid(),
        ensures
            failure_is(r, message@, ambiguous, persisted_kind(message@, ambiguous, prefixes)),
    {
        let cs = chars_of(message.as_str());
        let kind = if starts_with(&cs, &chars_of(prefixes.unresolved_fork.as_str())) {
            BackendFailureKind::ForkFenced
        } else if starts_with(&cs, &chars_of(prefixes.starting_candidate_hold.as_str())) {
            BackendFailureKind::StartingCandidatesHeld
        } else if !ambiguous && is_active_writer_message(message.as_str()) {
            BackendFailureKind::ActiveWriter
        } else {
            BackendFailureKind::Other
        };
        BackendFailure { message, ambiguous, kind }
    }
}

/// The kind of a persisted failure with this message.
pub open spec fn persisted_kind(message: Seq<char>, ambiguous: bool, prefixes: &FailurePrefixes) -> BackendFailureKind {
    if has_prefix(message, prefixes.unresolved_fork@) {
        BackendFailureKind::ForkFenced
    } else if has_prefix(message, prefixes.starting_candidate_hold@) {
        BackendFailureKind::StartingCandidatesHeld
    } else if !ambiguous && active_writer_message(message) {
        BackendFailureKind::ActiveWriter
    } else {
        BackendFailureKind::Other
    }
}

/// The message tells that a resume met another active writer.
pub open spec fn active_writer_message(message: Seq<char>) -> bool {
    has_infix(message, "thread/resume"@) && has_infix(message, "already has an active writer"@)
}

/// Whether `message` reports a resume refused for another active writer.
pub fn is_active_writer_message(message: &str) -> (r: bool)
    ensures
        r == active_writer_message(message@),
{
    let cs = chars_of(message);
    contains(&cs, &chars_of("thread/resume")) && contains(
        &cs,
        &chars_of("already has an active writer"),
    )
}

/// Status of a turn as the app-server reports it.
#[derive(Clone, Copy, Debug, PartialEq, Eq, Structural)]
pub enum TurnStatus {
    Completed,
    Interrupted,
    Failed,
    InProgress,
}

/// A turn of a thread and its status.
#[derive(Clone, Debug, PartialEq, Eq)]
pub struct TurnRecord {
    pub turn_id: String,
    pub status: TurnStatus,
}

/// The outcome of submitting a request to the queue.
#[derive(Clone, Debug, PartialEq, Eq)]
pub struct Submission {
    pub job_id: String,
    pub queued: bool,
    pub turn_id: Option<String>,
    pub warning: Option<BackendFailure>,
}

/// Whether a target is busy and whether steering its active turn is allowed.
#[derive(Clone, Copy, Debug, PartialEq, Eq)]
pub struct BusyStatus {
    pub busy: bool,
    pub allow_steer: bool,
}

/// Why a queue operation failed.
#[derive(Debug)]
pub enum QueueRunnerError {
    RestartDrain(DrainGateError),
    Backend(BackendFailure),
    UnresolvedForkHandoff { source_thread_id: String, handoff_id: String, last_fork_error: String },
    AttemptClaimLost { job_id: String, observed_turn_id: Option<String> },
    ForkTargetCycle { source_thread_id: String },
    /// The durable queue is not in the state the operation requires.
    InvalidQueueState(String),
    LockPoisoned,
    /// A Discord or app-server generation does not fit the SQLite integer range.
    IntegerRange,
}

} // verus!
