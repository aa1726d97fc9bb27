use cdr_runtime_core::server_prompt::text_binding::{parse, TextBindingError};
use cdr_runtime_core::server_prompt_authority::{PromptAuthority, PromptAuthorityError, ACTOR_MISMATCH};
use cdr_runtime_core::session_mirror::{format_item, MirrorItem, MirrorKind};

const TOKEN: &str = "0123456789abcdef0123456789ABCDEF";

#[test]
fn unaddressed_answers_are_not_bound() {
    assert_eq!(parse("plain answer"), Ok(None));
    assert_eq!(parse("  [codex-reply"), Ok(None));
    assert_eq!(parse(""), Ok(None));
}

#[test]
fn addressed_answer_yields_token_and_trimmed_body() {
    let answer = format!("  [codex-reply:{TOKEN}]   yes, go ahead \n");
    assert_eq!(parse(&answer), Ok(Some((TOKEN.to_owned(), "yes, go ahead".to_owned()))));
    let tabbed = format!("[codex-reply:{TOKEN}]\tok");
    assert_eq!(parse(&tabbed), Ok(Some((TOKEN.to_owned(), "ok".to_owned()))));
}

#[test]
fn malformed_addressed_answers_are_refused() {
    let refused = Err(TextBindingError::NoPendingRequest);
    assert_eq!(parse("[codex-reply:abc"), refused);
    assert_eq!(parse("[codex-reply:abc] yes"), refused);
    assert_eq!(parse(&format!("[codex-reply:{TOKEN}]yes")), refused);
    assert_eq!(parse(&format!("[codex-reply:{TOKEN}]   ")), refused);
    assert_eq!(parse(&format!("[codex-reply:{TOKEN}]")), refused);
    let bad_digit = format!("[codex-reply:{}g] yes", &TOKEN[..31]);
    assert_eq!(parse(&bad_digit), refused);
}

#[test]
fn only_the_original_actor_may_answer() {
    let authority = PromptAuthority {
        thread_id: "thr".to_owned(),
        turn_id: "turn".to_owned(),
        channel_id: 10,
        user_id: 20,
        generation: 1,
    };
    assert_eq!(authority.require_actor(10, 20), Ok(()));
    assert_eq!(authority.require_actor(11, 20), Err(PromptAuthorityError::Invalid(ACTOR_MISMATCH)));
    assert_eq!(authority.require_actor(10, 21), Err(PromptAuthorityError::Invalid(ACTOR_MISMATCH)));
}

fn item(kind: MirrorKind, text: &str) -> MirrorItem {
    MirrorItem {
        digest: "d".to_owned(),
        kind,
        phase: "p".to_owned(),
        text: text.to_owned(),
        turn_id: None,
        dedupe_recent_text: false,
    }
}

#[test]
fn mirrored_items_carry_their_heading() {
    assert_eq!(format_item(&item(MirrorKind::User, "hi")), "Codex app user\n\nhi");
    assert_eq!(format_item(&item(MirrorKind::Commentary, "working")), "In progress\n\nworking");
    assert_eq!(format_item(&item(MirrorKind::Final, "done")), "Final\n\ndone");
    assert_eq!(format_item(&item(MirrorKind::Failed, "oops")), "Failed\n\noops");
    assert_eq!(format_item(&item(MirrorKind::Aborted, "stopped")), "stopped");
}
