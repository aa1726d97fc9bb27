use cdr_runtime_core::server_prompt::compose::{
    approval_text, input_buttons, input_text, is_approval, prompt_kind, safe_detail, DetailValue, InputQuestion,
    PromptKind, ServerPromptError,
};

fn question(id: &str, title: &str, labels: &[&str], descriptions: &[Option<&str>]) -> InputQuestion {
    InputQuestion {
        id: Some(id.to_owned()),
        question: Some(title.to_owned()),
        is_secret: None,
        option_labels: Some(labels.iter().map(|l| l.to_string()).collect()),
        option_descriptions: descriptions.iter().map(|d| d.map(str::to_owned)).collect(),
    }
}

#[test]
fn approvals_are_recognized() {
    assert!(is_approval("item/commandExecution/requestApproval", None));
    assert!(is_approval("applyPatchApproval", None));
    assert!(is_approval("mcpServer/elicitation/request", Some("url")));
    assert!(!is_approval("mcpServer/elicitation/request", Some("form")));
    assert!(!is_approval("item/tool/requestUserInput", None));
    assert_eq!(prompt_kind(None, "applyPatchApproval", None), Err(ServerPromptError::MissingThread));
    assert_eq!(prompt_kind(Some("t"), "applyPatchApproval", None), Ok(PromptKind::Approval));
    assert_eq!(prompt_kind(Some("t"), "item/tool/requestUserInput", None), Ok(PromptKind::Input));
    assert_eq!(
        prompt_kind(Some("t"), "other/method", None),
        Err(ServerPromptError::Unsupported("other/method".to_owned()))
    );
}

#[test]
fn details_are_trimmed_joined_and_bounded() {
    assert_eq!(safe_detail(&Some(DetailValue::Text("  run ls  ".to_owned()))).as_deref(), Some("run ls"));
    assert_eq!(
        safe_detail(&Some(DetailValue::List(vec![Some("git".to_owned()), None, Some("status".to_owned())]))).as_deref(),
        Some("git status")
    );
    assert_eq!(safe_detail(&Some(DetailValue::Text("   ".to_owned()))), None);
    assert_eq!(safe_detail(&Some(DetailValue::Other)), None);
    assert_eq!(safe_detail(&None), None);
    let long = "é".repeat(1500);
    assert_eq!(safe_detail(&Some(DetailValue::Text(long))).unwrap().chars().count(), 1000);
}

#[test]
fn approval_text_uses_first_detail_or_method() {
    let details = vec![None, Some(DetailValue::Text(" npm test ".to_owned())), Some(DetailValue::Text("msg".to_owned()))];
    assert_eq!(
        approval_text("thr", "item/commandExecution/requestApproval", &details),
        "Approval required\nthread: thr\nrequest: item/commandExecution/requestApproval\ndetail: npm test"
    );
    assert_eq!(
        approval_text("thr", "applyPatchApproval", &[None, None, None]),
        "Approval required\nthread: thr\nrequest: applyPatchApproval\ndetail: applyPatchApproval"
    );
}

#[test]
fn single_question_prompt() {
    let q = question(" color ", " Pick a color ", &["Red", "Blue"], &[Some(" warm "), None]);
    let text = input_text("thr", &[q.clone()], "abc123").unwrap();
    assert_eq!(
        text,
        "Codex needs input\nthread: thr\n1. Pick a color [color]\n   1. Red — warm\n   2. Blue\nReply in this channel with an option number, label, or free text.\nFor this exact request, copy the prefix and replace <answer>:\n[codex-reply:abc123] <answer>"
    );
    assert!(input_buttons(&[q]));
}

#[test]
fn several_questions_prompt() {
    let a = question("a", "First?", &[], &[]);
    let b = question("b", "Second?", &["Yes"], &[Some("  ")]);
    let text = input_text("thr", &[a.clone(), b.clone()], "fp").unwrap();
    assert_eq!(
        text,
        "Codex needs input\nthread: thr\n1. First? [a]\n2. Second? [b]\n   1. Yes\nReply as question_id=value pairs, for example: a=1; b=1. Use | for multiple selections.\nFor this exact request, copy the prefix and replace <answer>:\n[codex-reply:fp] <answer>"
    );
    assert!(!input_buttons(&[a.clone(), b]));
    assert!(!input_buttons(&[a]));
}

#[test]
fn invalid_questions_are_refused_in_order() {
    let mut secret = question("s", "Password?", &[], &[]);
    secret.is_secret = Some(true);
    let mut blank = question("  ", "Title", &[], &[]);
    assert_eq!(input_text("thr", &[blank.clone(), secret.clone()], "fp"), Err(ServerPromptError::InvalidQuestions));
    assert_eq!(input_text("thr", &[secret], "fp"), Err(ServerPromptError::SecretInput));
    blank.id = Some("x".to_owned());
    blank.option_labels = None;
    assert_eq!(input_text("thr", &[blank], "fp"), Err(ServerPromptError::InvalidQuestions));
}
