//! Text of the restart drain marker files: what the runtime writes and how
//! a marker read back from disk is judged.

use vstd::prelude::*;

use super::drain::{DrainFenceKey, DrainFenceKeyView, DrainGateError};
use vstd::utf8::encode_utf8;
use crate::text::{chars_of, parse_u32, parse_u32_chars, push_all, push_decimal, decimal, string_of};
use crate::text::{is_digit, lacks, lemma_decimal_digits, lemma_parse_decimal};
use crate::text_lines::{
    FieldFault, field_line, field_views, fields_of, fields_of_lines, find_field,
    lemma_add_field_line, lemma_fields_of_push, lemma_lines_of_line_text, line_text, lines,
    lookup, parse_fields, plain_line, push_field_line,
};
use super::drain::key::{is_token_char, valid_process_identity, valid_token};

verus! {

/// File name of the runtime identity marker.
pub const IDENTITY_NAME: &'static str = ".codex_discord_rust.drain.identity";

/// File name of the drain prepare marker.
pub const PREPARE_NAME: &'static str = ".codex_discord_rust.drain.prepare";

/// File name of the drain acknowledgement marker.
pub const ACK_NAME: &'static str = ".codex_discord_rust.drain.ack";

/// File name of the restart marker.
pub const RESTART_NAME: &'static str = ".codex_discord_rust.restart";

/// Largest marker text accepted, in bytes.
pub const MAX_MARKER_BYTES: usize = 4096;

/// The identity a running runtime publishes.
#[derive(Clone, Debug, PartialEq, Eq)]
pub struct RuntimeMarker {
    pub runtime_id: String,
    pub process_id: u32,
}

/// The abstract value of a runtime marker.
pub struct RuntimeMarkerView {
    pub runtime_id: Seq<char>,
    pub process_id: u32,
}

impl View for RuntimeMarker {
    type V = RuntimeMarkerView;

    open spec fn view(&self) -> RuntimeMarkerView {
        RuntimeMarkerView { runtime_id: self.runtime_id@, process_id: self.process_id }
    }
}

/// Why a drain marker could not be used.
#[derive(Debug)]
pub enum DrainMarkerError {
    /// The marker file could not be accessed.
    Io { path: String, detail: String },
    /// The marker text is malformed.
    Malformed { path: String, reason: String },
    /// The marker names a malformed drain key.
    InvalidKey(DrainGateError),
}

/// What is wrong with a marker text.
pub enum MarkerFault {
    Malformed(Seq<char>),
    InvalidKey,
}

/// The characters of an optional text.
pub open spec fn opt_chars(o: Option<&str>) -> Option<Seq<char>> {
    match o {
        Some(s) => Some(s@),
        None => None,
    }
}

/// The reason text for a field fault.
pub open spec fn field_fault_reason(f: FieldFault) -> Seq<char> {
    match f {
        FieldFault::NoSeparator => "line does not contain '='"@,
        FieldFault::EmptyOrDuplicate => "field is empty or duplicated"@,
    }
}

/// The fault of a missing field `name`.
pub open spec fn missing(name: Seq<char>) -> MarkerFault {
    MarkerFault::Malformed("missing "@ + name)
}

/// The fault, if any, of requiring field `name` to hold `expected`.
pub open spec fn require_fault(fs: Seq<(Seq<char>, Seq<char>)>, name: Seq<char>, expected: Seq<char>) -> Option<MarkerFault> {
    match lookup(fs, name) {
        None => Some(missing(name)),
        Some(v) => if v == expected {
            None
        } else {
            Some(MarkerFault::Malformed("invalid "@ + name))
        },
    }
}

/// The fields of a marker text whose size is acceptable.
pub open spec fn marker_fields(text: Seq<char>) -> Result<Seq<(Seq<char>, Seq<char>)>, MarkerFault> {
    if (encode_utf8(text).len() as usize) > MAX_MARKER_BYTES {
        Err(MarkerFault::Malformed("marker exceeds 4096 bytes"@))
    } else {
        match fields_of(text) {
            Err(f) => Err(MarkerFault::Malformed(field_fault_reason(f))),
            Ok(fs) => Ok(fs),
        }
    }
}

/// The drain key a fence marker text records, `expected_state` naming the
/// `state` field it must carry, if any.
pub open spec fn marker_fence(text: Seq<char>, expected_state: Option<Seq<char>>) -> Result<DrainFenceKeyView, MarkerFault> {
    match marker_fields(text) {
        Err(f) => Err(f),
        Ok(fs) => match require_fault(fs, "version"@, "1"@) {
            Some(f) => Err(f),
            None => match (match expected_state {
                Some(st) => require_fault(fs, "state"@, st),
                None => None,
            }) {
                Some(f) => Err(f),
                None => match lookup(fs, "runtime_id"@) {
                    None => Err(missing("runtime_id"@)),
                    Some(r) => match lookup(fs, "process_identity"@) {
                        None => Err(missing("process_identity"@)),
                        Some(p) => match lookup(fs, "nonce"@) {
                            None => Err(missing("nonce"@)),
                            Some(n) => {
                                let k = DrainFenceKeyView { runtime_id: r, process_identity: p, nonce: n };
                                if k.valid() {
                                    Ok(k)
                                } else {
                                    Err(MarkerFault::InvalidKey)
                                }
                            },
                        },
                    },
                },
            },
        },
    }
}

/// The runtime identity an identity marker text records.
pub open spec fn marker_identity(text: Seq<char>) -> Result<RuntimeMarkerView, MarkerFault> {
    match marker_fields(text) {
        Err(f) => Err(f),
        Ok(fs) => match require_fault(fs, "version"@, "1"@) {
            Some(f) => Err(f),
            None => match require_fault(fs, "state"@, "open"@) {
                Some(f) => Err(f),
                None => match lookup(fs, "runtime_id"@) {
                    None => Err(missing("runtime_id"@)),
                    Some(r) => match lookup(fs, "pid"@) {
                        None => Err(missing("pid"@)),
                        Some(p) => match parse_u32(p) {
                            None => Err(MarkerFault::Malformed("pid must be an unsigned integer"@)),
                            Some(pid) => Ok(RuntimeMarkerView { runtime_id: r, process_id: pid }),
                        },
                    },
                },
            },
        },
    }
}

/// `e` is the error for `fault` at `path`.
pub open spec fn reports(e: DrainMarkerError, path: Seq<char>, fault: MarkerFault) -> bool {
    match (e, fault) {
        (DrainMarkerError::Malformed { path: p, reason }, MarkerFault::Malformed(why)) => p@ == path
            && reason@ == why,
        (DrainMarkerError::InvalidKey(g), MarkerFault::InvalidKey) => g == DrainGateError::InvalidKey,
        _ => false,
    }
}

/// The lines of the identity marker for `m`.
pub open spec fn identity_lines(m: RuntimeMarkerView) -> Seq<Seq<char>> {
    seq![
        field_line("version"@, "1"@),
        field_line("runtime_id"@, m.runtime_id),
        field_line("pid"@, decimal(m.process_id as nat)),
        field_line("state"@, "open"@),
    ]
}

/// The text of the identity marker for `m`.
pub open spec fn identity_text(m: RuntimeMarkerView) -> Seq<char> {
    line_text(identity_lines(m))
}

/// The lines of the acknowledgement marker for `k`.
pub open spec fn ack_lines(k: DrainFenceKeyView) -> Seq<Seq<char>> {
    seq![
        field_line("version"@, "1"@),
        field_line("runtime_id"@, k.runtime_id),
        field_line("process_identity"@, k.process_identity),
        field_line("nonce"@, k.nonce),
        field_line("state"@, "sealed"@),
    ]
}

/// The text of the acknowledgement marker for `k`.
pub open spec fn ack_text(k: DrainFenceKeyView) -> Seq<char> {
    line_text(ack_lines(k))
}

fn malformed(path: &str, reason: String) -> (e: DrainMarkerError)
    ensures
        reports(e, path@, MarkerFault::Malformed(reason@)),
{
    DrainMarkerError::Malformed { path: path.to_owned(), reason }
}

fn text_of(s: &str) -> (r: String)
    ensures
        r@ == s@,
{
    s.to_owned()
}

fn missing_error(path: &str, name: &str) -> (e: DrainMarkerError)
    ensures
        reports(e, path@, missing(name@)),
{
    let mut reason = text_of("missing ");
    reason.append(name);
    malformed(path, reason)
}

fn fields_checked(path: &str, text: &str) -> (r: Result<Vec<(Vec<char>, Vec<char>)>, DrainMarkerError>)
    ensures
        match r {
            Ok(fs) => marker_fields(text@) == Ok::<Seq<(Seq<char>, Seq<char>)>, MarkerFault>(
                field_views(fs@),
            ),
            Err(e) => marker_fields(text@) is Err && reports(e, path@, marker_fields(text@)->Err_0),
        },
{
    if text.len() > MAX_MARKER_BYTES {
        return Err(malformed(path, text_of("marker exceeds 4096 bytes")));
    }
    let cs = chars_of(text);
    match parse_fields(&cs) {
        Ok(fs) => Ok(fs),
        Err(FieldFault::NoSeparator) => Err(malformed(path, text_of("line does not contain '='"))),
        Err(FieldFault::EmptyOrDuplicate) => Err(
            malformed(path, text_of("field is empty or duplicated")),
        ),
    }
}

fn field_value(
    path: &str,
    fs: &Vec<(Vec<char>, Vec<char>)>,
    name: &str,
) -> (r: Result<Vec<char>, DrainMarkerError>)
    ensures
        match r {
            Ok(v) => lookup(field_views(fs@), name@) == Some(v@),
            Err(e) => lookup(field_views(fs@), name@) is None && reports(e, path@, missing(name@)),
        },
{
    let key = chars_of(name);
    match find_field(fs, &key) {
        Some(k) => {
            let mut v: Vec<char> = Vec::new();
            push_all(&mut v, &fs[k].1);
            Ok(v)
        },
        None => Err(missing_error(path, name)),
    }
}

fn require(
    path: &str,
    fs: &Vec<(Vec<char>, Vec<char>)>,
    name: &str,
    expected: &str,
) -> (r: Result<(), DrainMarkerError>)
    ensures
        match r {
            Ok(()) => require_fault(field_views(fs@), name@, expected@) is None,
            Err(e) => require_fault(field_views(fs@), name@, expected@) is Some && reports(
                e,
                path@,
                require_fault(field_views(fs@), name@, expected@)->Some_0,
            ),
        },
{
    let v = field_value(path, fs, name)?;
    let want = chars_of(expected);
    if !crate::text_lines::chars_equal(&v, &want) {
        let mut reason = text_of("invalid ");
        reason.append(name);
        return Err(malformed(path, reason));
    }
    Ok(())
}

/// Judges a fence marker text read from `path`.
pub fn fence_from_text(path: &str, text: &str, expected_state: Option<&str>) -> (r: Result<
    DrainFenceKey,
    DrainMarkerError,
>)
    ensures
        match r {
            Ok(k) => marker_fence(text@, opt_chars(expected_state)) == Ok::<
                DrainFenceKeyView,
                MarkerFault,
            >(k@),
            Err(e) => marker_fence(text@, opt_chars(expected_state)) is Err && reports(
                e,
                path@,
                marker_fence(text@, opt_chars(expected_state))->Err_0,
            ),
        },
{
    let fs = fields_checked(path, text)?;
    require(path, &fs, "version", "1")?;
    if let Some(state) = expected_state {
        require(path, &fs, "state", state)?;
    }
    let runtime_id = field_value(path, &fs, "runtime_id")?;
    let process_identity = field_value(path, &fs, "process_identity")?;
    let nonce = field_value(path, &fs, "nonce")?;
    match DrainFenceKey::new(string_of(&runtime_id), string_of(&process_identity), string_of(&nonce)) {
        Ok(k) => Ok(k),
        Err(g) => Err(DrainMarkerError::InvalidKey(g)),
    }
}

/// Judges a fence marker: `None` when the file is absent.
pub fn read_fence(path: &str, contents: Option<&str>, expected_state: Option<&str>) -> (r: Result<
    Option<DrainFenceKey>,
    DrainMarkerError,
>)
    ensures
        contents is None ==> r matches Ok(None),
        contents matches Some(text) ==> match r {
            Ok(Some(k)) => marker_fence(text@, opt_chars(expected_state)) == Ok::<
                DrainFenceKeyView,
                MarkerFault,
            >(k@),
            Ok(None) => false,
            Err(e) => marker_fence(text@, opt_chars(expected_state)) is Err && reports(
                e,
                path@,
                marker_fence(text@, opt_chars(expected_state))->Err_0,
            ),
        },
{
    match contents {
        None => Ok(None),
        Some(text) => match fence_from_text(path, text, expected_state) {
            Ok(k) => Ok(Some(k)),
            Err(e) => Err(e),
        },
    }
}

/// Judges a drain prepare marker.
pub fn read_prepare(path: &str, contents: Option<&str>) -> (r: Result<Option<DrainFenceKey>, DrainMarkerError>)
    ensures
        contents is None ==> r matches Ok(None),
        contents matches Some(text) ==> match r {
            Ok(Some(k)) => marker_fence(text@, None) == Ok::<DrainFenceKeyView, MarkerFault>(k@),
            Ok(None) => false,
            Err(e) => marker_fence(text@, None) is Err && reports(e, path@, marker_fence(text@, None)->Err_0),
        },
{
    read_fence(path, contents, None)
}

/// Judges a drain acknowledgement marker, which must be in state `sealed`.
pub fn read_ack(path: &str, contents: Option<&str>) -> (r: Result<Option<DrainFenceKey>, DrainMarkerError>)
    ensures
        contents is None ==> r matches Ok(None),
        contents matches Some(text) ==> match r {
            Ok(Some(k)) => marker_fence(text@, Some("sealed"@)) == Ok::<DrainFenceKeyView, MarkerFault>(k@),
            Ok(None) => false,
            Err(e) => marker_fence(text@, Some("sealed"@)) is Err && reports(
                e,
                path@,
                marker_fence(text@, Some("sealed"@))->Err_0,
            ),
        },
{
    read_fence(path, contents, Some("sealed"))
}

/// Judges a restart marker.
pub fn read_restart(path: &str, contents: Option<&str>) -> (r: Result<Option<DrainFenceKey>, DrainMarkerError>)
    ensures
        contents is None ==> r matches Ok(None),
        contents matches Some(text) ==> match r {
            Ok(Some(k)) => marker_fence(text@, None) == Ok::<DrainFenceKeyView, MarkerFault>(k@),
            Ok(None) => false,
            Err(e) => marker_fence(text@, None) is Err && reports(e, path@, marker_fence(text@, None)->Err_0),
        },
{
    read_fence(path, contents, None)
}

/// Judges an identity marker: `None` when the file is absent.
pub fn read_identity(path: &str, contents: Option<&str>) -> (r: Result<Option<RuntimeMarker>, DrainMarkerError>)
    ensures
        contents is None ==> r matches Ok(None),
        contents matches Some(text) ==> match r {
            Ok(Some(m)) => marker_identity(text@) == Ok::<RuntimeMarkerView, MarkerFault>(m@),
            Ok(None) => false,
            Err(e) => marker_identity(text@) is Err && reports(e, path@, marker_identity(text@)->Err_0),
        },
{
    let text = match contents {
        None => { return Ok(None); },
        Some(text) => text,
    };
    let fs = fields_checked(path, text)?;
    require(path, &fs, "version", "1")?;
    require(path, &fs, "state", "open")?;
    let runtime_id = field_value(path, &fs, "runtime_id")?;
    let pid = field_value(path, &fs, "pid")?;
    match parse_u32_chars(&pid) {
        None => Err(malformed(path, text_of("pid must be an unsigned integer"))),
        Some(process_id) => Ok(Some(RuntimeMarker { runtime_id: string_of(&runtime_id), process_id })),
    }
}

/// The text of the identity marker the runtime publishes.
pub fn identity_marker_text(marker: &RuntimeMarker) -> (r: String)
    ensures
        r@ == identity_text(marker@),
{
    let mut out: Vec<char> = Vec::new();
    let ghost ls: Seq<Seq<char>> = seq![];
    assert(out@ =~= line_text(ls));
    push_field_line(&mut out, "version", &chars_of("1"), Ghost(ls));
    let ghost ls = ls.push(field_line("version"@, "1"@));
    push_field_line(&mut out, "runtime_id", &chars_of(marker.runtime_id.as_str()), Ghost(ls));
    let ghost ls = ls.push(field_line("runtime_id"@, marker@.runtime_id));
    let mut pid: Vec<char> = Vec::new();
    push_decimal(&mut pid, marker.process_id as u128);
    assert(pid@ =~= decimal(marker.process_id as nat));
    push_field_line(&mut out, "pid", &pid, Ghost(ls));
    let ghost ls = ls.push(field_line("pid"@, pid@));
    push_field_line(&mut out, "state", &chars_of("open"), Ghost(ls));
    let ghost ls = ls.push(field_line("state"@, "open"@));
    assert(ls =~= identity_lines(marker@));
    string_of(&out)
}

/// The text of the acknowledgement marker for `key`.
pub fn ack_marker_text(key: &DrainFenceKey) -> (r: String)
    ensures
        r@ == ack_text(key@),
{
    let mut out: Vec<char> = Vec::new();
    let ghost ls: Seq<Seq<char>> = seq![];
    assert(out@ =~= line_text(ls));
    push_field_line(&mut out, "version", &chars_of("1"), Ghost(ls));
    let ghost ls = ls.push(field_line("version"@, "1"@));
    push_field_line(&mut out, "runtime_id", &chars_of(key.runtime_id()), Ghost(ls));
    let ghost ls = ls.push(field_line("runtime_id"@, key@.runtime_id));
    push_field_line(&mut out, "process_identity", &chars_of(key.process_identity()), Ghost(ls));
    let ghost ls = ls.push(field_line("process_identity"@, key@.process_identity));
    push_field_line(&mut out, "nonce", &chars_of(key.nonce()), Ghost(ls));
    let ghost ls = ls.push(field_line("nonce"@, key@.nonce));
    push_field_line(&mut out, "state", &chars_of("sealed"), Ghost(ls));
    let ghost ls = ls.push(field_line("state"@, "sealed"@));
    assert(ls =~= ack_lines(key@));
    string_of(&out)
}

proof fn lemma_token_line(name: Seq<char>, value: Seq<char>)
    requires
        lacks(name, '\n'),
        value.len() > 0,
        forall|i: int| 0 <= i < value.len() ==> (#[trigger] value[i] != '\n' && value[i] != '\r'),
    ensures
        plain_line(field_line(name, value)),
{
    let l = field_line(name, value);
    assert forall|j: int| 0 <= j < l.len() implies l[j] != '\n' by {
        if j < name.len() {
            assert(l[j] == name[j]);
        } else if j > name.len() {
            assert(l[j] == value[j - name.len() - 1]);
        }
    }
    assert(l.last() == value[value.len() - 1]);
}

proof fn lemma_token_chars(s: Seq<char>)
    requires
        valid_token(s),
    ensures
        forall|i: int| 0 <= i < s.len() ==> (#[trigger] s[i] != '\n' && s[i] != '\r'),
{
    assert forall|i: int| 0 <= i < s.len() implies (#[trigger] s[i] != '\n' && s[i] != '\r') by {
        assert(is_token_char(s[i]));
    }
}

proof fn lemma_identity_chars(s: Seq<char>)
    requires
        valid_process_identity(s),
    ensures
        s.len() > 0,
        forall|i: int| 0 <= i < s.len() ==> (#[trigger] s[i] != '\n' && s[i] != '\r'),
{
    let i = choose|i: int|
        crate::text::is_first_index(s, '|', i) && super::drain::key::nonempty_digits(s.subrange(0, i))
            && super::drain::key::nonempty_digits(#[trigger] s.subrange(i + 1, s.len() as int));
    assert forall|j: int| 0 <= j < s.len() implies (#[trigger] s[j] != '\n' && s[j] != '\r') by {
        if j < i {
            assert(s.subrange(0, i)[j] == s[j]);
            assert(is_digit(s.subrange(0, i)[j]));
        } else if j > i {
            assert(s.subrange(i + 1, s.len() as int)[j - i - 1] == s[j]);
            assert(is_digit(s.subrange(i + 1, s.len() as int)[j - i - 1]));
        }
    }
}

/// Reading back the acknowledgement marker written for a well-formed key,
/// in state `sealed`, gives that key, whenever the text is within the size
/// limit.
pub proof fn law_ack_marker_round_trip(k: DrainFenceKeyView)
    requires
        k.valid(),
        (encode_utf8(ack_text(k)).len() as usize) <= MAX_MARKER_BYTES,
    ensures
        marker_fence(ack_text(k), Some("sealed"@)) == Ok::<DrainFenceKeyView, MarkerFault>(k),
{
    reveal_strlit("version");
    reveal_strlit("1");
    reveal_strlit("runtime_id");
    reveal_strlit("process_identity");
    reveal_strlit("nonce");
    reveal_strlit("state");
    reveal_strlit("sealed");
    let ls = ack_lines(k);
    lemma_token_chars(k.runtime_id);
    lemma_token_chars(k.nonce);
    lemma_identity_chars(k.process_identity);
    lemma_token_line("version"@, "1"@);
    lemma_token_line("runtime_id"@, k.runtime_id);
    lemma_token_line("process_identity"@, k.process_identity);
    lemma_token_line("nonce"@, k.nonce);
    lemma_token_line("state"@, "sealed"@);
    lemma_lines_of_line_text(ls);
    let e: Seq<Seq<char>> = seq![];
    let l1 = field_line("version"@, "1"@);
    let l2 = field_line("runtime_id"@, k.runtime_id);
    let l3 = field_line("process_identity"@, k.process_identity);
    let l4 = field_line("nonce"@, k.nonce);
    let l5 = field_line("state"@, "sealed"@);
    assert(ls =~= e.push(l1).push(l2).push(l3).push(l4).push(l5));
    let f0: Seq<(Seq<char>, Seq<char>)> = seq![];
    assert(fields_of_lines(e) == Ok::<Seq<(Seq<char>, Seq<char>)>, FieldFault>(f0));
    lemma_fields_of_push(e, l1);
    lemma_add_field_line(f0, "version"@, "1"@);
    let f1 = f0.push(("version"@, "1"@));
    lemma_fields_of_push(e.push(l1), l2);
    assert(lookup(f1, "runtime_id"@) is None) by {
        reveal_with_fuel(lookup, 3);
    }
    lemma_add_field_line(f1, "runtime_id"@, k.runtime_id);
    let f2 = f1.push(("runtime_id"@, k.runtime_id));
    lemma_fields_of_push(e.push(l1).push(l2), l3);
    assert(lookup(f2, "process_identity"@) is None) by {
        reveal_with_fuel(lookup, 4);
    }
    lemma_add_field_line(f2, "process_identity"@, k.process_identity);
    let f3 = f2.push(("process_identity"@, k.process_identity));
    lemma_fields_of_push(e.push(l1).push(l2).push(l3), l4);
    assert(lookup(f3, "nonce"@) is None) by {
        reveal_with_fuel(lookup, 5);
    }
    lemma_add_field_line(f3, "nonce"@, k.nonce);
    let f4 = f3.push(("nonce"@, k.nonce));
    lemma_fields_of_push(e.push(l1).push(l2).push(l3).push(l4), l5);
    assert(lookup(f4, "state"@) is None) by {
        reveal_with_fuel(lookup, 6);
    }
    lemma_add_field_line(f4, "state"@, "sealed"@);
    let f5 = f4.push(("state"@, "sealed"@));
    assert(fields_of(ack_text(k)) == Ok::<Seq<(Seq<char>, Seq<char>)>, FieldFault>(f5));
    assert(lookup(f5, "version"@) == Some("1"@)) by {
        reveal_with_fuel(lookup, 2);
    }
    assert(lookup(f5, "state"@) == Some("sealed"@)) by {
        reveal_with_fuel(lookup, 6);
    }
    assert(lookup(f5, "runtime_id"@) == Some(k.runtime_id)) by {
        reveal_with_fuel(lookup, 3);
    }
    assert(lookup(f5, "process_identity"@) == Some(k.process_identity)) by {
        reveal_with_fuel(lookup, 4);
    }
    assert(lookup(f5, "nonce"@) == Some(k.nonce)) by {
        reveal_with_fuel(lookup, 5);
    }
}

/// Reading back the identity marker written for a runtime gives that
/// identity, whenever its runtime id is a nonempty single line and the text
/// is within the size limit.
pub proof fn law_identity_marker_round_trip(m: RuntimeMarkerView)
    requires
        m.runtime_id.len() > 0,
        forall|i: int| 0 <= i < m.runtime_id.len() ==> (#[trigger] m.runtime_id[i] != '\n'
            && m.runtime_id[i] != '\r'),
        (encode_utf8(identity_text(m)).len() as usize) <= MAX_MARKER_BYTES,
    ensures
        marker_identity(identity_text(m)) == Ok::<RuntimeMarkerView, MarkerFault>(m),
{
    reveal_strlit("version");
    reveal_strlit("1");
    reveal_strlit("runtime_id");
    reveal_strlit("pid");
    reveal_strlit("state");
    reveal_strlit("open");
    let ls = identity_lines(m);
    let pid = decimal(m.process_id as nat);
    lemma_decimal_digits(m.process_id as nat);
    assert forall|i: int| 0 <= i < pid.len() implies (#[trigger] pid[i] != '\n' && pid[i] != '\r') by {
        assert(is_digit(pid[i]));
    }
    lemma_parse_decimal(m.process_id);
    lemma_token_line("version"@, "1"@);
    lemma_token_line("runtime_id"@, m.runtime_id);
    lemma_token_line("pid"@, pid);
    lemma_token_line("state"@, "open"@);
    lemma_lines_of_line_text(ls);
    let e: Seq<Seq<char>> = seq![];
    let l1 = field_line("version"@, "1"@);
    let l2 = field_line("runtime_id"@, m.runtime_id);
    let l3 = field_line("pid"@, pid);
    let l4 = field_line("state"@, "open"@);
    assert(ls =~= e.push(l1).push(l2).push(l3).push(l4));
    let f0: Seq<(Seq<char>, Seq<char>)> = seq![];
    assert(fields_of_lines(e) == Ok::<Seq<(Seq<char>, Seq<char>)>, FieldFault>(f0));
    lemma_fields_of_push(e, l1);
    lemma_add_field_line(f0, "version"@, "1"@);
    let f1 = f0.push(("version"@, "1"@));
    lemma_fields_of_push(e.push(l1), l2);
    assert(lookup(f1, "runtime_id"@) is None) by {
        reveal_with_fuel(lookup, 3);
    }
    lemma_add_field_line(f1, "runtime_id"@, m.runtime_id);
    let f2 = f1.push(("runtime_id"@, m.runtime_id));
    lemma_fields_of_push(e.push(l1).push(l2), l3);
    assert(lookup(f2, "pid"@) is None) by {
        reveal_with_fuel(lookup, 4);
    }
    lemma_add_field_line(f2, "pid"@, pid);
    let f3 = f2.push(("pid"@, pid));
    lemma_fields_of_push(e.push(l1).push(l2).push(l3), l4);
    assert(lookup(f3, "state"@) is None) by {
        reveal_with_fuel(lookup, 5);
    }
    lemma_add_field_line(f3, "state"@, "open"@);
    let f4 = f3.push(("state"@, "open"@));
    assert(fields_of(identity_text(m)) == Ok::<Seq<(Seq<char>, Seq<char>)>, FieldFault>(f4));
    assert(lookup(f4, "version"@) == Some("1"@)) by {
        reveal_with_fuel(lookup, 2);
    }
    assert(lookup(f4, "state"@) == Some("open"@)) by {
        reveal_with_fuel(lookup, 5);
    }
    assert(lookup(f4, "runtime_id"@) == Some(m.runtime_id)) by {
        reveal_with_fuel(lookup, 3);
    }
    assert(lookup(f4, "pid"@) == Some(pid)) by {
        reveal_with_fuel(lookup, 4);
    }
}

} // verus!
