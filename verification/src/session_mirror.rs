//! Mirroring of Codex app session items into Discord.

use vstd::prelude::*;

use crate::text::{chars_of, push_all, string_of};

verus! {

/// How much of a session is mirrored.
#[derive(Clone, Copy, Debug, Eq, PartialEq)]
pub enum MirrorDetail {
    Send,
    All,
}

/// What a mirrored item is.
#[derive(Clone, Copy, Debug, Eq, PartialEq, Structural)]
pub enum MirrorKind {
    User,
    Commentary,
    Final,
    Aborted,
    Failed,
}

/// One session item to mirror.
#[derive(Clone, Debug, Eq, PartialEq)]
pub struct MirrorItem {
    pub digest: String,
    pub kind: MirrorKind,
    pub phase: String,
    pub text: String,
    pub turn_id: Option<String>,
    pub dedupe_recent_text: bool,
}

/// The heading that introduces an item of this kind, if any.
pub open spec fn heading(kind: MirrorKind) -> Option<Seq<char>> {
    match kind {
        MirrorKind::User => Some("Codex app user"@),
        MirrorKind::Commentary => Some("In progress"@),
        MirrorKind::Final => Some("Final"@),
        MirrorKind::Failed => Some("Failed"@),
        MirrorKind::Aborted => None,
    }
}

/// The Discord text of an item: its heading, a blank line and its text; an
/// aborted item is its text alone.
pub fn format_item(item: &MirrorItem) -> (r: String)
    ensures
        r@ == match heading(item.kind) {
            Some(h) => h + "\n\n"@ + item.text@,
            None => item.text@,
        },
{
    let head = match item.kind {
        MirrorKind::User => "Codex app user",
        MirrorKind::Commentary => "In progress",
        MirrorKind::Final => "Final",
        MirrorKind::Failed => "Failed",
        MirrorKind::Aborted => {
            return item.text.clone();
        },
    };
    let mut out = chars_of(head);
    push_all(&mut out, &chars_of("\n\n"));
    push_all(&mut out, &chars_of(item.text.as_str()));
    string_of(&out)
}

} // verus!
