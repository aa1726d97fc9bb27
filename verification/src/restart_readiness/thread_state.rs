//! Classification of one app-server `thread/read` result for restart
//! readiness.

use vstd::prelude::*;

use super::{RestartReadinessError, RestartReadinessState};
use crate::text::{chars_of, decimal, push_all, push_decimal, same_text, string_of};

verus! {

/// The `thread/read` result as far as readiness reads it. Each field is
/// `None` when it is absent or of the wrong JSON type.
#[derive(Clone, Debug, PartialEq, Eq)]
pub struct ThreadReadResult {
    /// `thread`, when it is an object.
    pub thread: Option<ThreadObservation>,
}

/// The `thread` object.
#[derive(Clone, Debug, PartialEq, Eq)]
pub struct ThreadObservation {
    /// `thread.id`, when it is text.
    pub id: Option<String>,
    /// `thread.updatedAt`, when it is an unsigned integer.
    pub updated_at: Option<u64>,
    /// `thread.status`, when it is an object.
    pub status: Option<ThreadStatusObservation>,
}

/// The `thread.status` object.
#[derive(Clone, Debug, PartialEq, Eq)]
pub struct ThreadStatusObservation {
    /// `status.type`, when it is text.
    pub status_type: Option<String>,
    /// `status.activeFlags`, when it is an array: each element, when text.
    pub active_flags: Option<Vec<Option<String>>>,
}

/// Rust's `Debug` rendering of a text: quoted and escaped.
pub uninterp spec fn debug_text(s: Seq<char>) -> Seq<char>;

/// The `Debug` rendering of `s`, as `format!("{s:?}")` writes it.
#[verifier::external_body]
fn debug_quoted(s: &str) -> (r: String)
    ensures
        r@ == debug_text(s@),
{
    format!("{s:?}")
}

/// The outcome of classifying: `Ok(None)` ready, `Ok(Some(reason))` blocked,
/// `Err(reason)` an invalid thread state.
pub type Verdict = Result<Option<Seq<char>>, Seq<char>>;

/// A known active flag.
pub open spec fn known_flag(name: Seq<char>) -> bool {
    name == "waitingOnApproval"@ || name == "waitingOnUserInput"@
}

/// The first problem among the active flags, read in order.
pub open spec fn flags_fault(flags: Seq<Option<Seq<char>>>) -> Option<Seq<char>>
    decreases flags.len(),
{
    if flags.len() == 0 {
        None
    } else {
        match flags[0] {
            None => Some("active flag is not text"@),
            Some(name) => if !known_flag(name) {
                Some("unknown active flag "@ + debug_text(name))
            } else {
                flags_fault(flags.drop_first())
            },
        }
    }
}

/// The flag names joined by commas.
pub open spec fn join_names(names: Seq<Seq<char>>) -> Seq<char>
    decreases names.len(),
{
    if names.len() == 0 {
        seq![]
    } else if names.len() == 1 {
        names[0]
    } else {
        join_names(names.drop_last()) + seq![','] + names.last()
    }
}

/// The names of flags that are all text.
pub open spec fn flag_names(flags: Seq<Option<Seq<char>>>) -> Seq<Seq<char>> {
    flags.map_values(|f: Option<Seq<char>>| match f {
        Some(n) => n,
        None => seq![],
    })
}

/// The verdict on an active thread.
pub open spec fn active_verdict(thread_id: Seq<char>, flags: Option<Seq<Option<Seq<char>>>>) -> Verdict {
    match flags {
        None => Err("active status has no activeFlags array"@),
        Some(fs) => match flags_fault(fs) {
            Some(why) => Err(why),
            None => Ok(Some("thread "@ + thread_id + " is active"@ + if fs.len() == 0 {
                seq![]
            } else {
                " flags="@ + join_names(flag_names(fs))
            })),
        },
    }
}

/// The characters of an optional string.
pub open spec fn opt_chars(o: Option<String>) -> Option<Seq<char>> {
    match o {
        Some(s) => Some(s@),
        None => None,
    }
}

/// The flags of an optional flag array, abstractly.
pub open spec fn flags_view(o: Option<Vec<Option<String>>>) -> Option<Seq<Option<Seq<char>>>> {
    match o {
        Some(v) => Some(v@.map_values(|f: Option<String>| opt_chars(f))),
        None => None,
    }
}

/// The readiness verdict on a `thread/read` result for `expected` at `now`,
/// requiring `quiet` seconds without updates.
pub open spec fn classify_spec(result: ThreadReadResult, expected: Seq<char>, quiet: u64, now: u64) -> Verdict {
    match result.thread {
        None => Err("missing thread object"@),
        Some(t) => match t.id {
            None => Err("missing thread id"@),
            Some(id) => if id@ != expected {
                Err("thread id mismatch"@)
            } else {
                match t.updated_at {
                    None => Err("missing or invalid updatedAt"@),
                    Some(updated_at) => match t.status {
                        None => Err("missing status object"@),
                        Some(st) => match st.status_type {
                            None => Err("missing status type"@),
                            Some(ty) => if ty@ == "active"@ {
                                active_verdict(expected, flags_view(st.active_flags))
                            } else if ty@ == "systemError"@ {
                                Ok(Some("thread "@ + expected + " has systemError status"@))
                            } else if ty@ == "idle"@ || ty@ == "notLoaded"@ {
                                if updated_at > now || now - updated_at < quiet {
                                    Ok(Some("thread "@ + expected + " is recent: updated_at="@
                                        + decimal(updated_at as nat) + " quiet_seconds="@ + decimal(
                                        quiet as nat,
                                    )))
                                } else {
                                    Ok(None)
                                }
                            } else {
                                Err("unknown status type "@ + debug_text(ty@))
                            },
                        },
                    },
                }
            },
        },
    }
}

/// `r` is the outcome `v` for the thread `expected`.
pub open spec fn matches_verdict(r: Result<RestartReadinessState, RestartReadinessError>, v: Verdict, expected: Seq<char>) -> bool {
    match (r, v) {
        (Ok(RestartReadinessState::Ready), Ok(None)) => true,
        (Ok(RestartReadinessState::Blocked { reason }), Ok(Some(why))) => reason@ == why,
        (Err(RestartReadinessError::InvalidThreadState { thread_id, reason }), Err(why)) => thread_id@
            == expected && reason@ == why,
        _ => false,
    }
}

fn invalid(thread_id: &str, reason: &str) -> (e: RestartReadinessError)
    ensures
        e matches RestartReadinessError::InvalidThreadState { thread_id: t, reason: r } && t@ == thread_id@
            && r@ == reason@,
{
    RestartReadinessError::InvalidThreadState { thread_id: thread_id.to_owned(), reason: reason.to_owned() }
}

fn invalid_chars(thread_id: &str, reason: &Vec<char>) -> (e: RestartReadinessError)
    ensures
        e matches RestartReadinessError::InvalidThreadState { thread_id: t, reason: r } && t@ == thread_id@
            && r@ == reason@,
{
    RestartReadinessError::InvalidThreadState { thread_id: thread_id.to_owned(), reason: string_of(reason) }
}

fn blocked(reason: &Vec<char>) -> (s: RestartReadinessState)
    ensures
        s matches RestartReadinessState::Blocked { reason: r } && r@ == reason@,
{
    RestartReadinessState::Blocked { reason: string_of(reason) }
}

fn active(thread_id: &str, flags: &Option<Vec<Option<String>>>) -> (r: Result<RestartReadinessState, RestartReadinessError>)
    ensures
        matches_verdict(r, active_verdict(thread_id@, flags_view(*flags)), thread_id@),
{
    let list = match flags {
        None => {
            return Err(invalid(thread_id, "active status has no activeFlags array"));
        },
        Some(f) => f,
    };
    let ghost fs = list@.map_values(|f: Option<String>| opt_chars(f));
    assert(flags_view(*flags) == Some(fs));
    let mut names: Vec<char> = Vec::new();
    let mut i: usize = 0;
    assert(fs.subrange(0, fs.len() as int) =~= fs);
    assert(fs.subrange(0, 0) =~= Seq::<Option<Seq<char>>>::empty());
    assert(flag_names(fs.subrange(0, 0)) =~= Seq::<Seq<char>>::empty());
    while i < list.len()
        invariant
            i <= list.len(),
            fs == list@.map_values(|f: Option<String>| opt_chars(f)),
            flags_view(*flags) == Some(fs),
            flags_fault(fs) == flags_fault(fs.subrange(i as int, fs.len() as int)),
            names@ == join_names(flag_names(fs.subrange(0, i as int))),
        decreases list.len() - i,
    {
        let ghost rest = fs.subrange(i as int, fs.len() as int);
        assert(rest[0] == fs[i as int]);
        assert(fs[i as int] == opt_chars(list@[i as int]));
        let name = match &list[i] {
            None => {
                return Err(invalid(thread_id, "active flag is not text"));
            },
            Some(n) => n,
        };
        let known = same_text(name.as_str(), "waitingOnApproval") || same_text(
            name.as_str(),
            "waitingOnUserInput",
        );
        if !known {
            let mut why = chars_of("unknown active flag ");
            push_all(&mut why, &chars_of(debug_quoted(name.as_str()).as_str()));
            return Err(invalid_chars(thread_id, &why));
        }
        let ghost before = flag_names(fs.subrange(0, i as int));
        let ghost after = flag_names(fs.subrange(0, i + 1));
        proof {
            assert(rest.drop_first() =~= fs.subrange(i + 1, fs.len() as int));
            assert(after.drop_last() =~= before);
            assert(after.last() == name@);
        }
        if i > 0 {
            names.push(',');
        }
        push_all(&mut names, &chars_of(name.as_str()));
        proof {
            if i == 0 {
                assert(names@ =~= name@);
                assert(after.len() == 1);
                assert(join_names(after) == after[0]);
            } else {
                assert(names@ =~= join_names(before) + seq![','] + name@);
            }
        }
        i = i + 1;
    }
    assert(fs.subrange(fs.len() as int, fs.len() as int) =~= Seq::<Option<Seq<char>>>::empty());
    assert(fs.subrange(0, fs.len() as int) =~= fs);
    let mut reason = chars_of("thread ");
    push_all(&mut reason, &chars_of(thread_id));
    push_all(&mut reason, &chars_of(" is active"));
    assert(flags_fault(fs) is None);
    assert(names@ == join_names(flag_names(fs)));
    if list.len() > 0 {
        push_all(&mut reason, &chars_of(" flags="));
        push_all(&mut reason, &names);
        assert(reason@ =~= "thread "@ + thread_id@ + " is active"@ + (" flags="@ + join_names(flag_names(fs))));
    } else {
        assert(reason@ =~= "thread "@ + thread_id@ + " is active"@ + Seq::<char>::empty());
    }
    Ok(blocked(&reason))
}

/// Classifies a `thread/read` result: blocked while the thread is active,
/// in system error, or updated less than `quiet_seconds` before `now`;
/// ready when idle and quiet; an error when the result is malformed or
/// names another thread.
pub fn classify(result: &ThreadReadResult, expected_thread_id: &str, quiet_seconds: u64, now: u64) -> (r: Result<RestartReadinessState, RestartReadinessError>)
    ensures
        matches_verdict(r, classify_spec(*result, expected_thread_id@, quiet_seconds, now), expected_thread_id@),
{
    let thread = match &result.thread {
        None => { return Err(invalid(expected_thread_id, "missing thread object")); },
        Some(t) => t,
    };
    let id = match &thread.id {
        None => { return Err(invalid(expected_thread_id, "missing thread id")); },
        Some(id) => id,
    };
    if !same_text(id.as_str(), expected_thread_id) {
        return Err(invalid(expected_thread_id, "thread id mismatch"));
    }
    let updated_at = match thread.updated_at {
        None => { return Err(invalid(expected_thread_id, "missing or invalid updatedAt")); },
        Some(u) => u,
    };
    let status = match &thread.status {
        None => { return Err(invalid(expected_thread_id, "missing status object")); },
        Some(s) => s,
    };
    let status_type = match &status.status_type {
        None => { return Err(invalid(expected_thread_id, "missing status type")); },
        Some(t) => t,
    };
    if same_text(status_type.as_str(), "active") {
        return active(expected_thread_id, &status.active_flags);
    }
    if same_text(status_type.as_str(), "systemError") {
        let mut reason = chars_of("thread ");
        push_all(&mut reason, &chars_of(expected_thread_id));
        push_all(&mut reason, &chars_of(" has systemError status"));
        return Ok(blocked(&reason));
    }
    if same_text(status_type.as_str(), "idle") || same_text(status_type.as_str(), "notLoaded") {
        if updated_at > now || now - updated_at < quiet_seconds {
            let mut reason = chars_of("thread ");
            push_all(&mut reason, &chars_of(expected_thread_id));
            push_all(&mut reason, &chars_of(" is recent: updated_at="));
            push_decimal(&mut reason, updated_at as u128);
            push_all(&mut reason, &chars_of(" quiet_seconds="));
            push_decimal(&mut reason, quiet_seconds as u128);
            return Ok(blocked(&reason));
        }
        return Ok(RestartReadinessState::Ready);
    }
    let mut why = chars_of("unknown status type ");
    push_all(&mut why, &chars_of(debug_quoted(status_type.as_str()).as_str()));
    Err(invalid_chars(expected_thread_id, &why))
}

/// Readiness fails closed: a thread is ready only when it is the expected
/// thread, idle or not loaded, and has not been updated for `quiet`
/// seconds before `now`.
pub proof fn law_ready_only_when_idle_and_quiet(result: ThreadReadResult, expected: Seq<char>, quiet: u64, now: u64)
    requires
        classify_spec(result, expected, quiet, now) == Ok::<Option<Seq<char>>, Seq<char>>(None),
    ensures
        result.thread matches Some(t) && (t.id matches Some(id) && id@ == expected) && (t.status matches Some(
            st,
        ) && (st.status_type matches Some(ty) && (ty@ == "idle"@ || ty@ == "notLoaded"@))) && (t.updated_at matches Some(
            u,
        ) && u <= now && now - u >= quiet),
{
}

} // verus!
