//! Rebuilding the display of requests that are already pending; this never
//! creates or answers a server request.

use vstd::prelude::*;

use crate::server_prompt::compose::ServerPromptError;
use crate::server_prompt_authority::PromptAuthorityError;
use crate::text::{chars_of, push_all, string_of};

verus! {

/// Why a pending request cannot be redisplayed.
#[derive(Clone, Debug, PartialEq, Eq)]
pub enum RedisplayError {
    Authority(PromptAuthorityError),
    Prompt(ServerPromptError),
    /// The pending request changed while its display was prepared.
    Changed,
}

/// The message of a prompt error, as the runtime reports it.
pub open spec fn prompt_error_message(e: ServerPromptError) -> Seq<char> {
    match e {
        ServerPromptError::MissingThread => "app-server request has no thread id"@,
        ServerPromptError::Unsupported(m) => "unsupported app-server request method: "@ + m@,
        ServerPromptError::InvalidQuestions => "app-server input request has no valid questions"@,
        ServerPromptError::SecretInput => "Secret input must be completed in the Codex app, not in Discord"@,
    }
}

/// The message of an authority refusal, as the runtime reports it.
pub open spec fn authority_message(e: PromptAuthorityError) -> Seq<char> {
    match e {
        PromptAuthorityError::Invalid(m) => "approval/input request authority is unavailable: "@ + m@
            + "; no response was submitted"@,
    }
}

impl ServerPromptError {
    /// The message of the error.
    pub fn message(&self) -> (r: String)
        ensures
            r@ == prompt_error_message(*self),
    {
        match self {
            ServerPromptError::MissingThread => "app-server request has no thread id".to_owned(),
            ServerPromptError::Unsupported(m) => {
                let mut out = chars_of("unsupported app-server request method: ");
                push_all(&mut out, &chars_of(m.as_str()));
                string_of(&out)
            },
            ServerPromptError::InvalidQuestions => "app-server input request has no valid questions".to_owned(),
            ServerPromptError::SecretInput => "Secret input must be completed in the Codex app, not in Discord".to_owned(),
        }
    }
}

impl PromptAuthorityError {
    /// The message of the refusal.
    pub fn message(&self) -> (r: String)
        ensures
            r@ == authority_message(*self),
    {
        match self {
            PromptAuthorityError::Invalid(m) => {
                let mut out = chars_of("approval/input request authority is unavailable: ");
                push_all(&mut out, &chars_of(m));
                push_all(&mut out, &chars_of("; no response was submitted"));
                string_of(&out)
            },
        }
    }
}

/// The resident app-server is still the ready generation the display began in.
pub fn require_ready(observed_generation: u64, generation: u64, healthy: bool, quarantined: bool, restart_pending: bool) -> (r: Result<
    (),
    RedisplayError,
>)
    ensures
        (observed_generation == generation && healthy && !quarantined && !restart_pending) ==> r is Ok,
        !(observed_generation == generation && healthy && !quarantined && !restart_pending) ==> r == Err::<
            (),
            RedisplayError,
        >(RedisplayError::Changed),
{
    if observed_generation != generation || !healthy || quarantined || restart_pending {
        return Err(RedisplayError::Changed);
    }
    Ok(())
}

/// The reason shown for a request that cannot be displayed: never the
/// request's own fields, so an unsupported method is not named.
pub open spec fn diagnostic_reason(e: RedisplayError) -> Option<Seq<char>> {
    match e {
        RedisplayError::Authority(a) => Some(authority_message(a)),
        RedisplayError::Prompt(ServerPromptError::Unsupported(_)) => Some("unsupported app-server request method"@),
        RedisplayError::Prompt(p) => Some(prompt_error_message(p)),
        RedisplayError::Changed => None,
    }
}

/// The diagnostic text shown in place of a request that cannot be
/// displayed, or `None` when the error must be returned instead.
pub fn diagnostic_text(error: &RedisplayError) -> (r: Option<String>)
    ensures
        match diagnostic_reason(*error) {
            Some(reason) => r matches Some(t) && t@ == "Cannot display this pending request: "@ + reason,
            None => r is None,
        },
{
    let reason = match error {
        RedisplayError::Authority(a) => a.message(),
        RedisplayError::Prompt(ServerPromptError::Unsupported(_)) => "unsupported app-server request method".to_owned(),
        RedisplayError::Prompt(p) => p.message(),
        RedisplayError::Changed => { return None; },
    };
    let mut out = chars_of("Cannot display this pending request: ");
    push_all(&mut out, &chars_of(reason.as_str()));
    Some(string_of(&out))
}

/// Domain under which redisplayed prompts are recorded.
pub const REDISPLAY_DOMAIN: &'static str = "server-request/redisplay/v1";

/// Only the last chunk of a redisplayed prompt carries its components.
pub fn attach_components(index: usize, total: usize) -> (r: bool)
    ensures
        r == (index + 1 == total),
{
    index < usize::MAX && index + 1 == total
}

/// The diagnostic of an unsupported request never shows its method: it is
/// the same for every method.
pub proof fn law_diagnostic_hides_method(a: String, b: String)
    ensures
        diagnostic_reason(RedisplayError::Prompt(ServerPromptError::Unsupported(a))) == diagnostic_reason(
            RedisplayError::Prompt(ServerPromptError::Unsupported(b)),
        ),
{
}

} // verus!
