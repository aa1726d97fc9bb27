use cdr_runtime_core::queue_runner::job::{QueueJobRecord, QueueJobState};
use cdr_runtime_core::server_prompt::compose::ServerPromptError;
use cdr_runtime_core::server_prompt_authority::{
    connection_ready, mapping_unchanged, original_owner, original_turn, reject_secret_input, request_current,
    turn_still_active, PromptAuthorityError, CONNECTION_CHANGED, INVALID_CHANNEL, MAPPING_CHANGED,
    MISSING_TURN, OWNERSHIP_UNCERTAIN, OWNER_UNKNOWN, REQUEST_CHANGED, SECRET_INPUT, TURN_INACTIVE,
    USER_UNKNOWN,
};
use cdr_runtime_core::server_prompt_redisplay::{
    attach_components, diagnostic_text, require_ready, RedisplayError,
};

fn invalid(reason: &'static str) -> Result<(), PromptAuthorityError> {
    Err(PromptAuthorityError::Invalid(reason))
}

fn running(thread: &str, turn: &str) -> QueueJobRecord {
    QueueJobRecord {
        job_id: "job".to_owned(),
        target_thread_id: thread.to_owned(),
        channel_id: 11,
        owner_user_id: Some(22),
        discord_message_id: None,
        state: QueueJobState::Running,
        last_error: String::new(),
        turn_id: Some(turn.to_owned()),
        app_server_generation: 5,
        attempt_count: 1,
        goal_waiting: false,
    }
}

#[test]
fn secret_input_is_refused() {
    let method = "item/tool/requestUserInput";
    assert_eq!(reject_secret_input(method, &Some(vec![None, Some(true)])), invalid(SECRET_INPUT));
    assert_eq!(reject_secret_input(method, &Some(vec![Some(false), None])), Ok(()));
    assert_eq!(reject_secret_input(method, &None), Ok(()));
    assert_eq!(reject_secret_input("item/fileChange/requestApproval", &Some(vec![Some(true)])), Ok(()));
}

#[test]
fn original_turn_must_be_exact() {
    assert_eq!(original_turn(Some("turn-1")), Ok(()));
    assert_eq!(original_turn(Some(" turn-1")), invalid(MISSING_TURN));
    assert_eq!(original_turn(Some("")), invalid(MISSING_TURN));
    assert_eq!(original_turn(None), invalid(MISSING_TURN));
}

#[test]
fn connection_turn_mapping_and_request_checks() {
    assert_eq!(connection_ready(3, 3, true, false, false), Ok(()));
    assert_eq!(connection_ready(4, 3, true, false, false), invalid(CONNECTION_CHANGED));
    assert_eq!(connection_ready(3, 3, true, true, false), invalid(CONNECTION_CHANGED));
    assert_eq!(turn_still_active(Some("t"), "t", false), Ok(()));
    assert_eq!(turn_still_active(Some("t"), "t", true), invalid(TURN_INACTIVE));
    assert_eq!(turn_still_active(Some("u"), "t", false), invalid(TURN_INACTIVE));
    assert_eq!(turn_still_active(None, "t", false), invalid(TURN_INACTIVE));
    assert_eq!(mapping_unchanged(None, "thr"), Ok(()));
    assert_eq!(mapping_unchanged(Some("thr"), "thr"), Ok(()));
    assert_eq!(mapping_unchanged(Some("other"), "thr"), invalid(MAPPING_CHANGED));
    assert_eq!(request_current(5, 5, true), Ok(()));
    assert_eq!(request_current(5, 6, true), invalid(REQUEST_CHANGED));
    assert_eq!(request_current(5, 5, false), invalid(REQUEST_CHANGED));
}

#[test]
fn original_owner_is_the_single_running_request() {
    let job = running("thr", "turn");
    assert_eq!(original_owner(&[job.clone()], "thr", "turn", 5), Ok((11, 22)));
    assert_eq!(original_owner(&[job.clone()], "thr", "other", 5), Err(PromptAuthorityError::Invalid(OWNER_UNKNOWN)));
    assert_eq!(
        original_owner(&[job.clone(), job.clone()], "thr", "turn", 5),
        Err(PromptAuthorityError::Invalid(OWNERSHIP_UNCERTAIN))
    );
    assert_eq!(original_owner(&[job.clone()], "thr", "turn", 6), Err(PromptAuthorityError::Invalid(OWNERSHIP_UNCERTAIN)));
    let mut waiting = job.clone();
    waiting.goal_waiting = true;
    assert_eq!(original_owner(&[waiting], "thr", "turn", 5), Err(PromptAuthorityError::Invalid(OWNERSHIP_UNCERTAIN)));
    let mut pending = job.clone();
    pending.state = QueueJobState::Pending;
    assert_eq!(original_owner(&[pending], "thr", "turn", 5), Err(PromptAuthorityError::Invalid(OWNERSHIP_UNCERTAIN)));
    let mut no_channel = job.clone();
    no_channel.channel_id = 0;
    assert_eq!(original_owner(&[no_channel], "thr", "turn", 5), Err(PromptAuthorityError::Invalid(INVALID_CHANNEL)));
    let mut no_user = job.clone();
    no_user.owner_user_id = None;
    assert_eq!(original_owner(&[no_user], "thr", "turn", 5), Err(PromptAuthorityError::Invalid(USER_UNKNOWN)));
    let mut other = job.clone();
    other.target_thread_id = "elsewhere".to_owned();
    assert_eq!(original_owner(&[other, job], "thr", "turn", 5), Ok((11, 22)));
}

#[test]
fn redisplay_diagnostics_hide_request_fields() {
    assert_eq!(require_ready(1, 1, true, false, false), Ok(()));
    assert_eq!(require_ready(2, 1, true, false, false), Err(RedisplayError::Changed));
    assert_eq!(
        diagnostic_text(&RedisplayError::Prompt(ServerPromptError::Unsupported("secret/method".to_owned()))).as_deref(),
        Some("Cannot display this pending request: unsupported app-server request method")
    );
    assert_eq!(
        diagnostic_text(&RedisplayError::Prompt(ServerPromptError::SecretInput)).as_deref(),
        Some("Cannot display this pending request: Secret input must be completed in the Codex app, not in Discord")
    );
    assert_eq!(
        diagnostic_text(&RedisplayError::Authority(PromptAuthorityError::Invalid(TURN_INACTIVE))).as_deref(),
        Some(
            "Cannot display this pending request: approval/input request authority is unavailable: original turn is no longer active; no response was submitted"
        )
    );
    assert_eq!(diagnostic_text(&RedisplayError::Changed), None);
    assert!(attach_components(2, 3));
    assert!(!attach_components(0, 3));
    assert_eq!(
        ServerPromptError::Unsupported("m".to_owned()).message(),
        "unsupported app-server request method: m"
    );
}
