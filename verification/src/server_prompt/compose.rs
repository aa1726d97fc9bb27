//! The Discord text of an approval or input prompt.

use vstd::prelude::*;

use super::text_binding::PREFIX;
use crate::text::{chars_of, decimal, push_all, push_decimal, same_text, string_of, trim, trim_chars};

verus! {

/// Why a prompt cannot be built.
#[derive(Clone, Debug, PartialEq, Eq)]
pub enum ServerPromptError {
    /// The request names no thread.
    MissingThread,
    /// The request's method is not one Discord can answer.
    Unsupported(String),
    /// The input request's questions are not valid.
    InvalidQuestions,
    /// A question is secret and must be answered in the Codex app.
    SecretInput,
}

/// `parts` joined by `sep`.
pub open spec fn joined(parts: Seq<Seq<char>>, sep: Seq<char>) -> Seq<char>
    decreases parts.len(),
{
    if parts.len() == 0 {
        seq![]
    } else if parts.len() == 1 {
        parts[0]
    } else {
        joined(parts.drop_last(), sep) + sep + parts.last()
    }
}

/// Appends `part` to `out`, which holds `parts` joined by `sep`.
fn push_joined(out: &mut Vec<char>, parts: Ghost<Seq<Seq<char>>>, first: bool, sep: &str, part: &[char])
    requires
        old(out)@ == joined(parts@, sep@),
        first <==> parts@.len() == 0,
    ensures
        final(out)@ == joined(parts@.push(part@), sep@),
{
    let ghost all = parts@.push(part@);
    assert(all.drop_last() =~= parts@);
    if !first {
        push_all(out, &chars_of(sep));
    } else {
        assert(out@ =~= Seq::<char>::empty());
    }
    push_all(out, part);
    assert(out@ =~= joined(all, sep@));
}

/// A detail field of an approval request, as far as the prompt reads it.
#[derive(Clone, Debug, PartialEq, Eq)]
pub enum DetailValue {
    /// The field is text.
    Text(String),
    /// The field is an array: each element, when it is text.
    List(Vec<Option<String>>),
    /// The field is of another JSON type.
    Other,
}

/// The text elements of a list, in order.
pub open spec fn list_texts(vs: Seq<Option<String>>) -> Seq<Seq<char>>
    decreases vs.len(),
{
    if vs.len() == 0 {
        seq![]
    } else {
        let rest = list_texts(vs.drop_last());
        match vs.last() {
            Some(t) => rest.push(t@),
            None => rest,
        }
    }
}

/// The text of a detail field: text as it is, or the text elements of an
/// array joined by spaces.
pub open spec fn detail_text(v: DetailValue) -> Option<Seq<char>> {
    match v {
        DetailValue::Text(t) => Some(t@),
        DetailValue::List(vs) => Some(joined(list_texts(vs@), " "@)),
        DetailValue::Other => None,
    }
}

/// Longest detail shown, in characters.
pub const MAX_DETAIL_CHARS: usize = 1000;

/// The detail shown for a field: its text trimmed and cut to 1000
/// characters, when anything is left.
pub open spec fn safe_detail_spec(v: Option<DetailValue>) -> Option<Seq<char>> {
    match v {
        None => None,
        Some(d) => match detail_text(d) {
            None => None,
            Some(t) => {
                let b = trim(t).take(if trim(t).len() > 1000 { 1000 } else { trim(t).len() as int });
                if b.len() > 0 {
                    Some(b)
                } else {
                    None
                }
            },
        },
    }
}

/// The detail shown for a field, if it has one.
pub fn safe_detail(value: &Option<DetailValue>) -> (r: Option<String>)
    ensures
        match r {
            Some(s) => safe_detail_spec(*value) == Some(s@),
            None => safe_detail_spec(*value) is None,
        },
{
    let v = match value {
        None => { return None; },
        Some(v) => v,
    };
    let text: Vec<char> = match v {
        DetailValue::Text(t) => chars_of(t.as_str()),
        DetailValue::List(vs) => {
            let mut out: Vec<char> = Vec::new();
            let ghost mut parts: Seq<Seq<char>> = seq![];
            let mut first = true;
            let mut i: usize = 0;
            assert(out@ =~= joined(parts, " "@));
            while i < vs.len()
                invariant
                    i <= vs.len(),
                    parts == list_texts(vs@.subrange(0, i as int)),
                    out@ == joined(parts, " "@),
                    first <==> parts.len() == 0,
                decreases vs.len() - i,
            {
                assert(vs@.subrange(0, i + 1).drop_last() =~= vs@.subrange(0, i as int));
                match &vs[i] {
                    Some(t) => {
                        let piece = chars_of(t.as_str());
                        push_joined(&mut out, Ghost(parts), first, " ", &piece);
                        first = false;
                        proof {
                            parts = parts.push(t@);
                        }
                    },
                    None => {},
                }
                i = i + 1;
            }
            assert(vs@.subrange(0, vs.len() as int) =~= vs@);
            out
        },
        DetailValue::Other => { return None; },
    };
    let t = trim_chars(&text);
    let n = if t.len() > MAX_DETAIL_CHARS { MAX_DETAIL_CHARS } else { t.len() };
    let bounded = crate::text::slice_chars(&t, 0, n);
    assert(bounded@ =~= t@.take(n as int));
    if bounded.len() > 0 {
        Some(string_of(&bounded))
    } else {
        None
    }
}

/// Methods of approval requests.
pub open spec fn approval_method(method: Seq<char>, mode: Option<Seq<char>>) -> bool {
    method == "item/commandExecution/requestApproval"@ || method == "item/fileChange/requestApproval"@
        || method == "item/permissions/requestApproval"@ || method == "execCommandApproval"@ || method
        == "applyPatchApproval"@ || (method == "mcpServer/elicitation/request"@ && mode == Some("url"@))
}

/// Whether the request asks for an approval; `mode` is its `mode`
/// parameter when that is text.
pub fn is_approval(method: &str, mode: Option<&str>) -> (r: bool)
    ensures
        r == approval_method(
            method@,
            match mode {
                Some(m) => Some(m@),
                None => None,
            },
        ),
{
    same_text(method, "item/commandExecution/requestApproval") || same_text(method, "item/fileChange/requestApproval")
        || same_text(method, "item/permissions/requestApproval") || same_text(method, "execCommandApproval")
        || same_text(method, "applyPatchApproval") || (same_text(method, "mcpServer/elicitation/request")
        && match mode {
        Some(m) => same_text(m, "url"),
        None => false,
    })
}

/// What kind of prompt a request gets.
#[derive(Clone, Copy, Debug, PartialEq, Eq)]
pub enum PromptKind {
    Approval,
    Input,
}

/// The kind of prompt for a request of `method` in `thread`, if any.
pub fn prompt_kind(thread: Option<&str>, method: &str, mode: Option<&str>) -> (r: Result<PromptKind, ServerPromptError>)
    ensures
        thread is None ==> r == Err::<PromptKind, ServerPromptError>(ServerPromptError::MissingThread),
        thread is Some && approval_method(
            method@,
            match mode {
                Some(m) => Some(m@),
                None => None,
            },
        ) ==> r == Ok::<PromptKind, ServerPromptError>(PromptKind::Approval),
        thread is Some && !approval_method(
            method@,
            match mode {
                Some(m) => Some(m@),
                None => None,
            },
        ) && method@ == "item/tool/requestUserInput"@ ==> r == Ok::<PromptKind, ServerPromptError>(PromptKind::Input),
        thread is Some && !approval_method(
            method@,
            match mode {
                Some(m) => Some(m@),
                None => None,
            },
        ) && method@ != "item/tool/requestUserInput"@ ==> (r matches Err(ServerPromptError::Unsupported(m)) && m@
            == method@),
{
    if thread.is_none() {
        return Err(ServerPromptError::MissingThread);
    }
    if is_approval(method, mode) {
        return Ok(PromptKind::Approval);
    }
    if same_text(method, "item/tool/requestUserInput") {
        return Ok(PromptKind::Input);
    }
    Err(ServerPromptError::Unsupported(method.to_owned()))
}

/// The detail of an approval: the first of its `reason`, `command` and
/// `message` fields with a detail, else the method.
pub open spec fn approval_detail(method: Seq<char>, details: Seq<Option<DetailValue>>) -> Seq<char>
    decreases details.len(),
{
    if details.len() == 0 {
        method
    } else {
        match safe_detail_spec(details[0]) {
            Some(d) => d,
            None => approval_detail(method, details.drop_first()),
        }
    }
}

/// The text of an approval prompt.
pub open spec fn approval_text_spec(thread: Seq<char>, method: Seq<char>, details: Seq<Option<DetailValue>>) -> Seq<char> {
    "Approval required\nthread: "@ + thread + "\nrequest: "@ + method + "\ndetail: "@ + approval_detail(method, details)
}

/// The text of an approval prompt; `details` are the request's `reason`,
/// `command` and `message` fields, in that order.
pub fn approval_text(thread: &str, method: &str, details: &[Option<DetailValue>]) -> (r: String)
    ensures
        r@ == approval_text_spec(thread@, method@, details@),
{
    let mut detail: Option<String> = None;
    let mut i: usize = 0;
    assert(details@.subrange(0, details.len() as int) =~= details@);
    while i < details.len() && detail.is_none()
        invariant
            i <= details.len(),
            match detail {
                None => approval_detail(method@, details@) == approval_detail(
                    method@,
                    details@.subrange(i as int, details.len() as int),
                ),
                Some(d) => approval_detail(method@, details@) == d@,
            },
        decreases details.len() - i,
    {
        let ghost rest = details@.subrange(i as int, details.len() as int);
        assert(rest[0] == details@[i as int]);
        assert(rest.drop_first() =~= details@.subrange(i + 1, details.len() as int));
        detail = safe_detail(&details[i]);
        i = i + 1;
    }
    let mut out = chars_of("Approval required\nthread: ");
    push_all(&mut out, &chars_of(thread));
    push_all(&mut out, &chars_of("\nrequest: "));
    push_all(&mut out, &chars_of(method));
    push_all(&mut out, &chars_of("\ndetail: "));
    match &detail {
        Some(d) => push_all(&mut out, &chars_of(d.as_str())),
        None => {
            assert(details@.subrange(details.len() as int, details.len() as int) =~= Seq::<Option<DetailValue>>::empty());
            push_all(&mut out, &chars_of(method));
        },
    }
    string_of(&out)
}

/// An input question, as far as the prompt reads it.
#[derive(Clone, Debug, PartialEq, Eq)]
pub struct InputQuestion {
    /// `id`, when it is text.
    pub id: Option<String>,
    /// `question`, when it is text.
    pub question: Option<String>,
    /// `isSecret`, when it is a boolean.
    pub is_secret: Option<bool>,
    /// The labels of its options, or `None` when they are not valid.
    pub option_labels: Option<Vec<String>>,
    /// Each element of `options`: its `description`, when that is text.
    pub option_descriptions: Vec<Option<String>>,
}

/// The trimmed text, when something is left.
pub open spec fn trimmed_text(o: Option<String>) -> Option<Seq<char>> {
    match o {
        Some(s) => if trim(s@).len() > 0 {
            Some(trim(s@))
        } else {
            None
        },
        None => None,
    }
}

/// The description shown after option `k`.
pub open spec fn description_suffix(q: InputQuestion, k: int) -> Seq<char> {
    if 0 <= k < q.option_descriptions.len() {
        match trimmed_text(q.option_descriptions@[k]) {
            Some(d) => " — "@ + d,
            None => seq![],
        }
    } else {
        seq![]
    }
}

/// The line of option `k`, numbered from one.
pub open spec fn option_line(q: InputQuestion, labels: Seq<String>, k: int) -> Seq<char> {
    "   "@ + decimal((k + 1) as nat) + ". "@ + labels[k]@ + description_suffix(q, k)
}

/// The lines of question `index`, numbered from one: its title and id,
/// then its options.
pub open spec fn question_lines(q: InputQuestion, index: nat, id: Seq<char>, title: Seq<char>, labels: Seq<String>) -> Seq<Seq<char>> {
    seq![decimal(index + 1) + ". "@ + title + " ["@ + id + "]"@] + Seq::new(
        labels.len(),
        |k: int| option_line(q, labels, k),
    )
}

/// The section of question `index`, or why the questions are refused.
pub open spec fn section_spec(q: InputQuestion, index: nat) -> Result<Seq<char>, ServerPromptError> {
    if q.is_secret == Some(true) {
        Err(ServerPromptError::SecretInput)
    } else {
        match trimmed_text(q.id) {
            None => Err(ServerPromptError::InvalidQuestions),
            Some(id) => match trimmed_text(q.question) {
                None => Err(ServerPromptError::InvalidQuestions),
                Some(title) => match q.option_labels {
                    None => Err(ServerPromptError::InvalidQuestions),
                    Some(labels) => Ok(joined(question_lines(q, index, id, title, labels@), "\n"@)),
                },
            },
        }
    }
}

/// The sections of the questions, or the refusal of the first question
/// that is refused.
pub open spec fn sections_spec(qs: Seq<InputQuestion>) -> Result<Seq<Seq<char>>, ServerPromptError>
    decreases qs.len(),
{
    if qs.len() == 0 {
        Ok(seq![])
    } else {
        match sections_spec(qs.drop_last()) {
            Err(e) => Err(e),
            Ok(ss) => match section_spec(qs.last(), (qs.len() - 1) as nat) {
                Err(e) => Err(e),
                Ok(s) => Ok(ss.push(s)),
            },
        }
    }
}

/// The example answers `id=1` of the questions whose id is text.
pub open spec fn example_pairs(qs: Seq<InputQuestion>) -> Seq<Seq<char>>
    decreases qs.len(),
{
    if qs.len() == 0 {
        seq![]
    } else {
        let rest = example_pairs(qs.drop_last());
        match qs.last().id {
            Some(id) => rest.push(id@ + "=1"@),
            None => rest,
        }
    }
}

/// How to answer: one question takes a number, label or free text;
/// several take `question_id=value` pairs.
pub open spec fn reply_help_spec(qs: Seq<InputQuestion>) -> Seq<char> {
    if qs.len() == 1 {
        "Reply in this channel with an option number, label, or free text."@
    } else {
        "Reply as question_id=value pairs, for example: "@ + joined(example_pairs(qs), "; "@)
            + ". Use | for multiple selections."@
    }
}

/// The copyable addressing of one request occurrence.
pub open spec fn binding_example_spec(fingerprint: Seq<char>) -> Seq<char> {
    "For this exact request, copy the prefix and replace <answer>:\n"@ + PREFIX@ + fingerprint + "] <answer>"@
}

/// The text of an input prompt, or why it cannot be built.
pub open spec fn input_text_spec(thread: Seq<char>, qs: Seq<InputQuestion>, fingerprint: Seq<char>) -> Result<
    Seq<char>,
    ServerPromptError,
> {
    match sections_spec(qs) {
        Err(e) => Err(e),
        Ok(ss) => Ok("Codex needs input\nthread: "@ + thread + "\n"@ + joined(ss, "\n"@) + "\n"@
            + reply_help_spec(qs) + "\n"@ + binding_example_spec(fingerprint)),
    }
}

proof fn lemma_sections_keep_error(qs: Seq<InputQuestion>, i: int)
    requires
        0 <= i <= qs.len(),
        sections_spec(qs.subrange(0, i)) is Err,
    ensures
        sections_spec(qs) == sections_spec(qs.subrange(0, i)),
    decreases qs.len() - i,
{
    if i < qs.len() {
        let longer = qs.subrange(0, i + 1);
        assert(longer.drop_last() =~= qs.subrange(0, i));
        lemma_sections_keep_error(qs, i + 1);
    } else {
        assert(qs.subrange(0, i) =~= qs);
    }
}

fn trimmed(o: &Option<String>) -> (r: Option<Vec<char>>)
    ensures
        match r {
            Some(v) => trimmed_text(*o) == Some(v@),
            None => trimmed_text(*o) is None,
        },
{
    match o {
        Some(s) => {
            let t = trim_chars(&chars_of(s.as_str()));
            if t.len() > 0 {
                Some(t)
            } else {
                None
            }
        },
        None => None,
    }
}

fn push_description(out: &mut Vec<char>, q: &InputQuestion, k: usize)
    ensures
        final(out)@ == old(out)@ + description_suffix(*q, k as int),
{
    if k < q.option_descriptions.len() {
        match trimmed(&q.option_descriptions[k]) {
            Some(d) => {
                push_all(out, &chars_of(" — "));
                push_all(out, &d);
                assert(final(out)@ =~= old(out)@ + description_suffix(*q, k as int));
            },
            None => {
                assert(description_suffix(*q, k as int) =~= Seq::<char>::empty());
                assert(final(out)@ =~= old(out)@ + description_suffix(*q, k as int));
            },
        }
    } else {
        assert(final(out)@ =~= old(out)@ + description_suffix(*q, k as int));
    }
}

fn section(q: &InputQuestion, index: usize) -> (r: Result<Vec<char>, ServerPromptError>)
    ensures
        match r {
            Ok(v) => section_spec(*q, index as nat) == Ok::<Seq<char>, ServerPromptError>(v@),
            Err(e) => section_spec(*q, index as nat) == Err::<Seq<char>, ServerPromptError>(e),
        },
{
    if let Some(true) = q.is_secret {
        return Err(ServerPromptError::SecretInput);
    }
    let id = match trimmed(&q.id) {
        None => { return Err(ServerPromptError::InvalidQuestions); },
        Some(v) => v,
    };
    let title = match trimmed(&q.question) {
        None => { return Err(ServerPromptError::InvalidQuestions); },
        Some(v) => v,
    };
    let labels = match &q.option_labels {
        None => { return Err(ServerPromptError::InvalidQuestions); },
        Some(l) => l,
    };
    let mut out: Vec<char> = Vec::new();
    push_decimal(&mut out, index as u128 + 1);
    push_all(&mut out, &chars_of(". "));
    push_all(&mut out, &title);
    push_all(&mut out, &chars_of(" ["));
    push_all(&mut out, &id);
    push_all(&mut out, &chars_of("]"));
    let ghost head = out@;
    let ghost mut parts: Seq<Seq<char>> = seq![head];
    assert(out@ =~= joined(parts, "\n"@));
    let mut k: usize = 0;
    while k < labels.len()
        invariant
            k <= labels.len(),
            parts == seq![head] + Seq::new(k as nat, |j: int| option_line(*q, labels@, j)),
            out@ == joined(parts, "\n"@),
        decreases labels.len() - k,
    {
        let mut line = chars_of("   ");
        push_decimal(&mut line, k as u128 + 1);
        push_all(&mut line, &chars_of(". "));
        push_all(&mut line, &chars_of(labels[k].as_str()));
        push_description(&mut line, q, k);
        assert(line@ =~= option_line(*q, labels@, k as int));
        push_joined(&mut out, Ghost(parts), false, "\n", &line);
        proof {
            parts = parts.push(line@);
            assert(parts =~= seq![head] + Seq::new((k + 1) as nat, |j: int| option_line(*q, labels@, j)));
        }
        k = k + 1;
    }
    assert(head =~= decimal((index + 1) as nat) + ". "@ + title@ + " ["@ + id@ + "]"@);
    assert(parts =~= question_lines(*q, index as nat, id@, title@, labels@));
    Ok(out)
}

/// The text of an input prompt for the questions `qs` of a request in
/// `thread`, `fingerprint` addressing the request occurrence.
pub fn input_text(thread: &str, qs: &[InputQuestion], fingerprint: &str) -> (r: Result<String, ServerPromptError>)
    ensures
        match r {
            Ok(s) => input_text_spec(thread@, qs@, fingerprint@) == Ok::<Seq<char>, ServerPromptError>(s@),
            Err(e) => input_text_spec(thread@, qs@, fingerprint@) == Err::<Seq<char>, ServerPromptError>(e),
        },
{
    let mut sections: Vec<char> = Vec::new();
    let ghost mut ss: Seq<Seq<char>> = seq![];
    let mut i: usize = 0;
    assert(qs@.subrange(0, 0) =~= Seq::<InputQuestion>::empty());
    assert(sections@ =~= joined(ss, "\n"@));
    while i < qs.len()
        invariant
            i <= qs.len(),
            sections_spec(qs@.subrange(0, i as int)) == Ok::<Seq<Seq<char>>, ServerPromptError>(ss),
            sections@ == joined(ss, "\n"@),
            ss.len() == i,
        decreases qs.len() - i,
    {
        assert(qs@.subrange(0, i + 1).drop_last() =~= qs@.subrange(0, i as int));
        assert(qs@.subrange(0, i + 1).last() == qs@[i as int]);
        let s = match section(&qs[i], i) {
            Ok(s) => s,
            Err(e) => {
                proof {
                    lemma_sections_keep_error(qs@, i + 1);
                }
                return Err(e);
            },
        };
        push_joined(&mut sections, Ghost(ss), i == 0, "\n", &s);
        proof {
            ss = ss.push(s@);
        }
        i = i + 1;
    }
    assert(qs@.subrange(0, qs.len() as int) =~= qs@);
    let mut help: Vec<char>;
    if qs.len() == 1 {
        help = chars_of("Reply in this channel with an option number, label, or free text.");
    } else {
        let mut pairs: Vec<char> = Vec::new();
        let ghost mut ps: Seq<Seq<char>> = seq![];
        let mut first = true;
        let mut j: usize = 0;
        assert(pairs@ =~= joined(ps, "; "@));
        while j < qs.len()
            invariant
                j <= qs.len(),
                ps == example_pairs(qs@.subrange(0, j as int)),
                pairs@ == joined(ps, "; "@),
                first <==> ps.len() == 0,
            decreases qs.len() - j,
        {
            assert(qs@.subrange(0, j + 1).drop_last() =~= qs@.subrange(0, j as int));
            assert(qs@.subrange(0, j + 1).last() == qs@[j as int]);
            match &qs[j].id {
                Some(id) => {
                    let mut pair = chars_of(id.as_str());
                    push_all(&mut pair, &chars_of("=1"));
                    push_joined(&mut pairs, Ghost(ps), first, "; ", &pair);
                    first = false;
                    proof {
                        ps = ps.push(pair@);
                    }
                },
                None => {},
            }
            j = j + 1;
        }
        help = chars_of("Reply as question_id=value pairs, for example: ");
        push_all(&mut help, &pairs);
        push_all(&mut help, &chars_of(". Use | for multiple selections."));
        assert(qs@.subrange(0, qs.len() as int) =~= qs@);
    }
    assert(help@ =~= reply_help_spec(qs@));
    let mut out = chars_of("Codex needs input\nthread: ");
    push_all(&mut out, &chars_of(thread));
    push_all(&mut out, &chars_of("\n"));
    push_all(&mut out, &sections);
    push_all(&mut out, &chars_of("\n"));
    push_all(&mut out, &help);
    push_all(&mut out, &chars_of("\n"));
    push_all(&mut out, &chars_of("For this exact request, copy the prefix and replace <answer>:\n"));
    push_all(&mut out, &chars_of(PREFIX));
    push_all(&mut out, &chars_of(fingerprint));
    push_all(&mut out, &chars_of("] <answer>"));
    assert(out@ =~= "Codex needs input\nthread: "@ + thread@ + "\n"@ + joined(ss, "\n"@) + "\n"@
        + reply_help_spec(qs@) + "\n"@ + binding_example_spec(fingerprint@));
    Ok(string_of(&out))
}

/// A single question with options gets a row of option buttons.
pub fn input_buttons(qs: &[InputQuestion]) -> (r: bool)
    ensures
        r == (qs.len() == 1 && match qs@[0].option_labels {
            Some(l) => l.len() > 0,
            None => false,
        }),
{
    qs.len() == 1 && match &qs[0].option_labels {
        Some(l) => l.len() > 0,
        None => false,
    }
}

} // verus!
