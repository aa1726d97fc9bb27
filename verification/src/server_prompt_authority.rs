//! Approval authority comes from the exact original running request, never
//! a new click.

use vstd::prelude::*;

use crate::queue_runner::job::{QueueJobRecord, QueueJobState};
use crate::text::same_text;

verus! {

/// Why an approval or input answer is refused.
#[derive(Debug, Clone, PartialEq, Eq)]
pub enum PromptAuthorityError {
    /// The authority of the original request cannot be established; no
    /// response was submitted.
    Invalid(&'static str),
}

/// Who may answer a pending request: its original thread, turn, channel,
/// user and app-server generation.
#[derive(Clone, Debug, Eq, PartialEq)]
pub struct PromptAuthority {
    pub thread_id: String,
    pub turn_id: String,
    pub channel_id: u64,
    pub user_id: u64,
    pub generation: u64,
}

/// Refusal message when the answering user or channel is not the original.
pub const ACTOR_MISMATCH: &'static str = "original user or channel does not match";

impl PromptAuthority {
    /// Accepts an answer only from the original user in the original channel.
    pub fn require_actor(&self, channel: u64, user: u64) -> (r: Result<(), PromptAuthorityError>)
        ensures
            (channel == self.channel_id && user == self.user_id) ==> r is Ok,
            !(channel == self.channel_id && user == self.user_id) ==> r == Err::<(), PromptAuthorityError>(
                PromptAuthorityError::Invalid(ACTOR_MISMATCH),
            ),
    {
        if self.channel_id != channel || self.user_id != user {
            return Err(PromptAuthorityError::Invalid(ACTOR_MISMATCH));
        }
        Ok(())
    }
}

/// Refusal: the request asks for a secret answer.
pub const SECRET_INPUT: &'static str = "secret input requires the Codex app";
/// Refusal: the request names no thread.
pub const MISSING_THREAD: &'static str = "missing original thread";
/// Refusal: the request names no usable turn.
pub const MISSING_TURN: &'static str = "missing original turn";
/// Refusal: the app-server connection is not the ready original one.
pub const CONNECTION_CHANGED: &'static str = "connection changed or is not ready";
/// Refusal: the original turn has ended.
pub const TURN_INACTIVE: &'static str = "original turn is no longer active";
/// Refusal: no queued request ran the original turn.
pub const OWNER_UNKNOWN: &'static str = "original Discord request owner is unknown";
/// Refusal: the queued request of the original turn is not plainly running it.
pub const OWNERSHIP_UNCERTAIN: &'static str = "original execution ownership is uncertain";
/// Refusal: the queued request's channel is not a Discord id.
pub const INVALID_CHANNEL: &'static str = "invalid original channel";
/// Refusal: the queued request has no Discord user.
pub const USER_UNKNOWN: &'static str = "original Discord user is unknown";
/// Refusal: the channel is now mirrored to another thread.
pub const MAPPING_CHANGED: &'static str = "original channel mapping changed";
/// Refusal: the request is no longer pending as it was.
pub const REQUEST_CHANGED: &'static str = "original request expired or changed";

/// The refusal of `reason`.
pub open spec fn refused(r: Result<(), PromptAuthorityError>, reason: &'static str) -> bool {
    r == Err::<(), PromptAuthorityError>(PromptAuthorityError::Invalid(reason))
}

/// The request is a user-input request with a question marked secret.
pub open spec fn asks_secret(method: Seq<char>, secret_flags: Option<Vec<Option<bool>>>) -> bool {
    method == "item/tool/requestUserInput"@ && match secret_flags {
        Some(fs) => exists|k: int| 0 <= k < fs.len() && fs@[k] == Some(true),
        None => false,
    }
}

/// A usable turn id: present, not empty and without surrounding white space.
pub open spec fn usable_turn(turn_id: Option<&str>) -> bool {
    match turn_id {
        Some(t) => t@.len() > 0 && crate::text::trim(t@) == t@,
        None => false,
    }
}

/// `active` is the turn `turn`.
pub open spec fn is_turn(active: Option<&str>, turn: Seq<char>) -> bool {
    match active {
        Some(a) => a@ == turn,
        None => false,
    }
}

/// The channel is mirrored to a thread other than `thread`.
pub open spec fn mapped_elsewhere(mapped: Option<&str>, thread: Seq<char>) -> bool {
    match mapped {
        Some(m) => m@ != thread,
        None => false,
    }
}

/// A user-input request with a secret question must be answered in the
/// Codex app. `secret_flags` holds each question's `isSecret` when the
/// questions are an array.
pub fn reject_secret_input(method: &str, secret_flags: &Option<Vec<Option<bool>>>) -> (r: Result<
    (),
    PromptAuthorityError,
>)
    ensures
        asks_secret(method@, *secret_flags) ==> refused(r, SECRET_INPUT),
        !asks_secret(method@, *secret_flags) ==> r is Ok,
{
    if !same_text(method, "item/tool/requestUserInput") {
        return Ok(());
    }
    match secret_flags {
        None => Ok(()),
        Some(fs) => {
            let mut i: usize = 0;
            while i < fs.len()
                invariant
                    i <= fs.len(),
                    method@ == "item/tool/requestUserInput"@,
                    *secret_flags == Some(*fs),
                    forall|k: int| 0 <= k < i ==> fs@[k] != Some(true),
                decreases fs.len() - i,
            {
                if let Some(true) = fs[i] {
                    assert(fs@[i as int] == Some(true));
                    return Err(PromptAuthorityError::Invalid(SECRET_INPUT));
                }
                i = i + 1;
            }
            Ok(())
        },
    }
}

/// The request's turn id: present, not empty and without surrounding
/// white space.
pub fn original_turn(turn_id: Option<&str>) -> (r: Result<(), PromptAuthorityError>)
    ensures
        usable_turn(turn_id) ==> r is Ok,
        !usable_turn(turn_id) ==> refused(r, MISSING_TURN),
{
    match turn_id {
        None => Err(PromptAuthorityError::Invalid(MISSING_TURN)),
        Some(t) => {
            let cs = crate::text::chars_of(t);
            let trimmed = crate::text::trim_chars(&cs);
            if cs.len() > 0 && crate::text_lines::chars_equal(&trimmed, &cs) {
                Ok(())
            } else {
                Err(PromptAuthorityError::Invalid(MISSING_TURN))
            }
        },
    }
}

/// The resident app-server is the original generation and ready.
pub fn connection_ready(observed_generation: u64, generation: u64, healthy: bool, quarantined: bool, restart_pending: bool) -> (r: Result<
    (),
    PromptAuthorityError,
>)
    ensures
        (observed_generation == generation && healthy && !quarantined && !restart_pending) ==> r is Ok,
        !(observed_generation == generation && healthy && !quarantined && !restart_pending) ==> refused(
            r,
            CONNECTION_CHANGED,
        ),
{
    if observed_generation != generation || !healthy || quarantined || restart_pending {
        return Err(PromptAuthorityError::Invalid(CONNECTION_CHANGED));
    }
    Ok(())
}

/// The original turn is still the thread's active turn and its completion
/// has not been observed.
pub fn turn_still_active(active_turn: Option<&str>, turn: &str, completion_observed: bool) -> (r: Result<
    (),
    PromptAuthorityError,
>)
    ensures
        (is_turn(active_turn, turn@) && !completion_observed) ==> r is Ok,
        !(is_turn(active_turn, turn@) && !completion_observed) ==> refused(r, TURN_INACTIVE),
{
    let same = match active_turn {
        Some(a) => same_text(a, turn),
        None => false,
    };
    if !same || completion_observed {
        return Err(PromptAuthorityError::Invalid(TURN_INACTIVE));
    }
    Ok(())
}

/// The queued request that owns the turn.
pub open spec fn owns_turn(job: QueueJobRecord, thread: Seq<char>, turn: Seq<char>) -> bool {
    job.target_thread_id@ == thread && (job.turn_id matches Some(t) && t@ == turn)
}

/// Who owns the original turn: the Discord channel and user of the one
/// running request of `thread` bound to `turn` in `generation`.
pub open spec fn owner_spec(jobs: Seq<QueueJobRecord>, thread: Seq<char>, turn: Seq<char>, generation: u64) -> Result<
    (u64, u64),
    &'static str,
> {
    let owners = jobs.filter(|j: QueueJobRecord| owns_turn(j, thread, turn));
    if owners.len() == 0 {
        Err(OWNER_UNKNOWN)
    } else {
        let job = owners[0];
        if owners.len() > 1 || job.state != QueueJobState::Running || job.goal_waiting
            || job.app_server_generation < 0 || job.app_server_generation != generation {
            Err(OWNERSHIP_UNCERTAIN)
        } else if job.channel_id <= 0 {
            Err(INVALID_CHANNEL)
        } else {
            match job.owner_user_id {
                Some(u) => if u > 0 {
                    Ok((job.channel_id as u64, u as u64))
                } else {
                    Err(USER_UNKNOWN)
                },
                None => Err(USER_UNKNOWN),
            }
        }
    }
}

/// The channel and user of the original request of `turn` in `thread`.
pub fn original_owner(jobs: &[QueueJobRecord], thread: &str, turn: &str, generation: u64) -> (r: Result<
    (u64, u64),
    PromptAuthorityError,
>)
    ensures
        match (r, owner_spec(jobs@, thread@, turn@, generation)) {
            (Ok(a), Ok(b)) => a == b,
            (Err(PromptAuthorityError::Invalid(m)), Err(n)) => m == n,
            _ => false,
        },
{
    let ghost pred = |j: QueueJobRecord| owns_turn(j, thread@, turn@);
    let mut first: Option<usize> = None;
    let mut count: usize = 0;
    let mut i: usize = 0;
    while i < jobs.len()
        invariant
            i <= jobs.len(),
            pred == (|j: QueueJobRecord| owns_turn(j, thread@, turn@)),
            count == jobs@.subrange(0, i as int).filter(pred).len(),
            count <= i,
            count == 0 <==> first is None,
            first matches Some(f) ==> f < i && jobs@.subrange(0, i as int).filter(pred)[0] == jobs@[f as int],
        decreases jobs.len() - i,
    {
        let job = &jobs[i];
        let owns = same_text(job.target_thread_id.as_str(), thread) && match &job.turn_id {
            Some(t) => same_text(t.as_str(), turn),
            None => false,
        };
        proof {
            let before = jobs@.subrange(0, i as int);
            assert(jobs@.subrange(0, i + 1) =~= before.push(jobs@[i as int]));
            before.lemma_filter_push(jobs@[i as int], pred);
            assert(owns == pred(jobs@[i as int]));
        }
        if owns {
            if first.is_none() {
                first = Some(i);
            }
            count = count + 1;
        }
        i = i + 1;
    }
    assert(jobs@.subrange(0, jobs.len() as int) =~= jobs@);
    let f = match first {
        None => {
            return Err(PromptAuthorityError::Invalid(OWNER_UNKNOWN));
        },
        Some(f) => f,
    };
    let job = &jobs[f];
    if count > 1 || job.state != QueueJobState::Running || job.goal_waiting || job.app_server_generation < 0
        || job.app_server_generation as u64 != generation {
        return Err(PromptAuthorityError::Invalid(OWNERSHIP_UNCERTAIN));
    }
    if job.channel_id <= 0 {
        return Err(PromptAuthorityError::Invalid(INVALID_CHANNEL));
    }
    match job.owner_user_id {
        Some(u) => {
            if u > 0 {
                Ok((job.channel_id as u64, u as u64))
            } else {
                Err(PromptAuthorityError::Invalid(USER_UNKNOWN))
            }
        },
        None => Err(PromptAuthorityError::Invalid(USER_UNKNOWN)),
    }
}

/// The channel is mirrored to no thread or to the original one.
pub fn mapping_unchanged(mapped: Option<&str>, thread: &str) -> (r: Result<(), PromptAuthorityError>)
    ensures
        mapped_elsewhere(mapped, thread@) ==> refused(r, MAPPING_CHANGED),
        !mapped_elsewhere(mapped, thread@) ==> r is Ok,
{
    match mapped {
        Some(m) => if same_text(m, thread) { Ok(()) } else { Err(PromptAuthorityError::Invalid(MAPPING_CHANGED)) },
        None => Ok(()),
    }
}

/// The app-server is still in the original generation and still has the
/// request pending exactly as it was.
pub fn request_current(server_generation: u64, generation: u64, still_pending: bool) -> (r: Result<
    (),
    PromptAuthorityError,
>)
    ensures
        (server_generation == generation && still_pending) ==> r is Ok,
        !(server_generation == generation && still_pending) ==> refused(r, REQUEST_CHANGED),
{
    if server_generation != generation || !still_pending {
        return Err(PromptAuthorityError::Invalid(REQUEST_CHANGED));
    }
    Ok(())
}

/// Refusal: the delivery's channel is no longer the original one.
pub const DELIVERY_CHANNEL_CHANGED: &'static str = "original delivery channel changed";

/// Each chunk of a prompt goes to the channel the original request came from.
pub fn same_delivery_channel(authority_channel: u64, channel: u64) -> (r: Result<(), PromptAuthorityError>)
    ensures
        authority_channel == channel ==> r is Ok,
        authority_channel != channel ==> refused(r, DELIVERY_CHANNEL_CHANGED),
{
    if authority_channel != channel {
        return Err(PromptAuthorityError::Invalid(DELIVERY_CHANNEL_CHANGED));
    }
    Ok(())
}

/// Where a verification of the original request stands.
#[derive(Debug)]
pub enum AuthorityStage {
    /// Waiting for the resident app-server's lifecycle.
    Lifecycle,
    /// Waiting for the thread's active turn.
    ActiveTurn,
    /// Waiting to learn whether the turn's completion was observed.
    Completion,
    /// Waiting for the durable queue jobs.
    Jobs,
    /// Waiting for the thread the owner's channel is mirrored to.
    Mapping { channel: u64, user: u64 },
    /// Waiting for the server's generation and pending requests.
    Pending { channel: u64, user: u64 },
    /// The verification is over.
    Finished,
}

/// What the app-server or the store answered.
#[derive(Debug)]
pub enum AuthorityEvent {
    Lifecycle { generation: u64, healthy: bool, quarantined: bool, restart_pending: bool },
    ActiveTurn(Option<String>),
    CompletionObserved(bool),
    Jobs(Vec<QueueJobRecord>),
    Mapped(Option<String>),
    /// The server's generation, and whether the request is pending exactly
    /// as it was.
    Pending { generation: u64, still_pending: bool },
}

/// What to do next.
#[derive(Debug)]
pub enum AuthorityAction {
    ReadActiveTurn,
    ReadCompletion,
    ListJobs,
    /// Read the thread this channel is mirrored to.
    ReadMapping { channel: u64 },
    ReadPending,
    Finish(Result<PromptAuthority, PromptAuthorityError>),
}

/// One verification of a pending request's authority.
pub struct AuthorityRun {
    pub generation: u64,
    pub thread_id: String,
    pub turn_id: String,
    pub stage: AuthorityStage,
}

/// The authority of the original request.
pub open spec fn authority_is(a: PromptAuthority, thread: Seq<char>, turn: Seq<char>, channel: u64, user: u64, generation: u64) -> bool {
    a.thread_id@ == thread && a.turn_id@ == turn && a.channel_id == channel && a.user_id == user && a.generation
        == generation
}

/// The verification ends refused with `reason`.
pub open spec fn authority_refused(next: AuthorityStage, a: AuthorityAction, reason: &'static str) -> bool {
    next is Finished && a == AuthorityAction::Finish(Err(PromptAuthorityError::Invalid(reason)))
}

/// The event that answers the action a stage waits for.
pub open spec fn authority_expects(stage: AuthorityStage, event: AuthorityEvent) -> bool {
    match stage {
        AuthorityStage::Lifecycle => event is Lifecycle,
        AuthorityStage::ActiveTurn => event is ActiveTurn,
        AuthorityStage::Completion => event is CompletionObserved,
        AuthorityStage::Jobs => event is Jobs,
        AuthorityStage::Mapping { .. } => event is Mapped,
        AuthorityStage::Pending { .. } => event is Pending,
        AuthorityStage::Finished => false,
    }
}

/// The step of a verification from `run` on `event`.
pub open spec fn authority_step(run: AuthorityRun, event: AuthorityEvent, next: AuthorityRun, a: AuthorityAction) -> bool {
    &&& next.generation == run.generation
    &&& next.thread_id == run.thread_id
    &&& next.turn_id == run.turn_id
    &&& match (run.stage, event) {
        (
            AuthorityStage::Lifecycle,
            AuthorityEvent::Lifecycle { generation, healthy, quarantined, restart_pending },
        ) => if generation == run.generation && healthy && !quarantined && !restart_pending {
            next.stage is ActiveTurn && a is ReadActiveTurn
        } else {
            authority_refused(next.stage, a, CONNECTION_CHANGED)
        },
        (AuthorityStage::ActiveTurn, AuthorityEvent::ActiveTurn(active)) => if (active matches Some(t) && t@
            == run.turn_id@) {
            next.stage is Completion && a is ReadCompletion
        } else {
            authority_refused(next.stage, a, TURN_INACTIVE)
        },
        (AuthorityStage::Completion, AuthorityEvent::CompletionObserved(observed)) => if observed {
            authority_refused(next.stage, a, TURN_INACTIVE)
        } else {
            next.stage is Jobs && a is ListJobs
        },
        (AuthorityStage::Jobs, AuthorityEvent::Jobs(jobs)) => match owner_spec(
            jobs@,
            run.thread_id@,
            run.turn_id@,
            run.generation,
        ) {
            Ok((channel, user)) => next.stage == (AuthorityStage::Mapping { channel, user }) && a == (
            AuthorityAction::ReadMapping { channel }),
            Err(reason) => authority_refused(next.stage, a, reason),
        },
        (AuthorityStage::Mapping { channel, user }, AuthorityEvent::Mapped(mapped)) => if (mapped matches Some(
            m,
        ) && m@ != run.thread_id@) {
            authority_refused(next.stage, a, MAPPING_CHANGED)
        } else {
            next.stage == (AuthorityStage::Pending { channel, user }) && a is ReadPending
        },
        (AuthorityStage::Pending { channel, user }, AuthorityEvent::Pending { generation, still_pending }) => if
        generation == run.generation && still_pending {
            next.stage is Finished && (a matches AuthorityAction::Finish(Ok(auth)) && authority_is(
                auth,
                run.thread_id@,
                run.turn_id@,
                channel,
                user,
                run.generation,
            ))
        } else {
            authority_refused(next.stage, a, REQUEST_CHANGED)
        },
        _ => false,
    }
}

/// The checks made on the request alone, before anything is read: a
/// secret question, a missing thread and a missing or untrimmed turn.
pub open spec fn request_refusal(
    method: Seq<char>,
    secret_flags: Option<Vec<Option<bool>>>,
    thread: Option<String>,
    turn: Option<String>,
) -> Option<&'static str> {
    if asks_secret(method, secret_flags) {
        Some(SECRET_INPUT)
    } else if thread is None {
        Some(MISSING_THREAD)
    } else if !(turn matches Some(t) && t@.len() > 0 && crate::text::trim(t@) == t@) {
        Some(MISSING_TURN)
    } else {
        None
    }
}

impl AuthorityRun {
    /// Starts verifying a request of `generation` with these parts. A
    /// request that asks for a secret, or names no thread or no usable
    /// turn, is refused here, before any server or store read; otherwise
    /// the app-server's lifecycle is read first.
    pub fn begin(
        generation: u64,
        method: &str,
        secret_flags: &Option<Vec<Option<bool>>>,
        thread: Option<String>,
        turn: Option<String>,
    ) -> (r: Result<AuthorityRun, PromptAuthorityError>)
        ensures
            match request_refusal(method@, *secret_flags, thread, turn) {
                Some(reason) => r == Err::<AuthorityRun, PromptAuthorityError>(PromptAuthorityError::Invalid(reason)),
                None => r matches Ok(run) && run.generation == generation && Some(run.thread_id) == thread && Some(
                    run.turn_id,
                ) == turn && run.stage is Lifecycle,
            },
    {
        reject_secret_input(method, secret_flags)?;
        let thread_id = match thread {
            Some(t) => t,
            None => {
                return Err(PromptAuthorityError::Invalid(MISSING_THREAD));
            },
        };
        let turn_id = match turn {
            Some(t) => t,
            None => {
                return Err(PromptAuthorityError::Invalid(MISSING_TURN));
            },
        };
        original_turn(Some(turn_id.as_str()))?;
        Ok(AuthorityRun { generation, thread_id, turn_id, stage: AuthorityStage::Lifecycle })
    }

    /// Takes the answer to the last action and returns the next one.
    pub fn on(&mut self, event: AuthorityEvent) -> (a: AuthorityAction)
        requires
            authority_expects(old(self).stage, event),
        ensures
            authority_step(*old(self), event, *final(self), a),
    {
        let mut stage = AuthorityStage::Finished;
        std::mem::swap(&mut stage, &mut self.stage);
        let refuse = |e: PromptAuthorityError| -> (r: (AuthorityStage, AuthorityAction))
            ensures
                r == (AuthorityStage::Finished, AuthorityAction::Finish(Err(e))),
            { (AuthorityStage::Finished, AuthorityAction::Finish(Err(e))) };
        let (next, action) = match (stage, event) {
            (
                AuthorityStage::Lifecycle,
                AuthorityEvent::Lifecycle { generation, healthy, quarantined, restart_pending },
            ) => match connection_ready(generation, self.generation, healthy, quarantined, restart_pending) {
                Err(e) => refuse(e),
                Ok(()) => (AuthorityStage::ActiveTurn, AuthorityAction::ReadActiveTurn),
            },
            (AuthorityStage::ActiveTurn, AuthorityEvent::ActiveTurn(active)) => {
                let same = match &active {
                    Some(t) => same_text(t.as_str(), self.turn_id.as_str()),
                    None => false,
                };
                if same {
                    (AuthorityStage::Completion, AuthorityAction::ReadCompletion)
                } else {
                    refuse(PromptAuthorityError::Invalid(TURN_INACTIVE))
                }
            },
            (AuthorityStage::Completion, AuthorityEvent::CompletionObserved(observed)) => if observed {
                refuse(PromptAuthorityError::Invalid(TURN_INACTIVE))
            } else {
                (AuthorityStage::Jobs, AuthorityAction::ListJobs)
            },
            (AuthorityStage::Jobs, AuthorityEvent::Jobs(jobs)) => match original_owner(
                &jobs,
                self.thread_id.as_str(),
                self.turn_id.as_str(),
                self.generation,
            ) {
                Err(e) => refuse(e),
                Ok((channel, user)) => (
                    AuthorityStage::Mapping { channel, user },
                    AuthorityAction::ReadMapping { channel },
                ),
            },
            (AuthorityStage::Mapping { channel, user }, AuthorityEvent::Mapped(mapped)) => {
                let m = match &mapped {
                    Some(t) => Some(t.as_str()),
                    None => None,
                };
                match mapping_unchanged(m, self.thread_id.as_str()) {
                    Err(e) => refuse(e),
                    Ok(()) => (AuthorityStage::Pending { channel, user }, AuthorityAction::ReadPending),
                }
            },
            (AuthorityStage::Pending { channel, user }, AuthorityEvent::Pending { generation, still_pending }) => {
                match request_current(generation, self.generation, still_pending) {
                    Err(e) => refuse(e),
                    Ok(()) => {
                        let authority = PromptAuthority {
                            thread_id: self.thread_id.clone(),
                            turn_id: self.turn_id.clone(),
                            channel_id: channel,
                            user_id: user,
                            generation: self.generation,
                        };
                        (AuthorityStage::Finished, AuthorityAction::Finish(Ok(authority)))
                    },
                }
            },
            (_, _) => {
                proof {
                    assert(false);
                }
                refuse(PromptAuthorityError::Invalid(REQUEST_CHANGED))
            },
        };
        self.stage = next;
        action
    }
}

/// A verified authority names the original thread and turn, a Discord
/// channel and user (both positive) of the one running request that owns
/// the turn, and the generation it was asked in.
pub proof fn law_authority_names_the_original_request(
    jobs: Seq<QueueJobRecord>,
    thread: Seq<char>,
    turn: Seq<char>,
    generation: u64,
)
    ensures
        owner_spec(jobs, thread, turn, generation) matches Ok((channel, user)) ==> channel > 0 && user > 0,
{
}

} // verus!
