//! Copyable text addressing for a single immutable request occurrence: an
//! answer typed as `[codex-reply:<token>] <answer>`.

use vstd::prelude::*;

use crate::text::{
    char_is_hex_digit, char_is_space, chars_of, find_char, has_prefix, is_first_index, is_hex_digit,
    is_space, lacks, slice_chars, starts_with, string_of, trim, trim_chars, trim_start,
    trim_start_index,
};

verus! {

/// The prefix that opens an addressed answer.
pub const PREFIX: &'static str = "[codex-reply:";

/// Why an addressed answer cannot be used.
#[derive(Clone, Debug, PartialEq, Eq)]
pub enum TextBindingError {
    /// The answer is addressed but malformed, so it matches no pending request.
    NoPendingRequest,
}

/// A request token: 32 hexadecimal digits. Each hexadecimal digit is one
/// byte long in UTF-8, so the token is also 32 bytes long.
pub open spec fn valid_token(t: Seq<char>) -> bool {
    t.len() == 32 && forall|i: int| 0 <= i < t.len() ==> is_hex_digit(#[trigger] t[i])
}

/// How an answer text is read: `None` when it is not addressed; otherwise
/// the token and the trimmed body, or an error when malformed.
pub open spec fn parse_spec(answer: Seq<char>) -> Result<Option<(Seq<char>, Seq<char>)>, TextBindingError> {
    let t = trim_start(answer);
    if !has_prefix(t, PREFIX@) {
        Ok(None)
    } else {
        let rest = t.subrange(PREFIX@.len() as int, t.len() as int);
        if lacks(rest, ']') {
            Err(TextBindingError::NoPendingRequest)
        } else {
            let i = choose|i: int| is_first_index(rest, ']', i);
            let token = rest.subrange(0, i);
            let body = rest.subrange(i + 1, rest.len() as int);
            if !valid_token(token) || !(body.len() > 0 && is_space(body[0])) || trim(body).len() == 0 {
                Err(TextBindingError::NoPendingRequest)
            } else {
                Ok(Some((token, trim(body))))
            }
        }
    }
}

fn token_ok(cs: &[char], from: usize, to: usize) -> (r: bool)
    requires
        from <= to <= cs.len(),
    ensures
        r == valid_token(cs@.subrange(from as int, to as int)),
{
    if to - from != 32 {
        return false;
    }
    let mut i: usize = from;
    while i < to
        invariant
            from <= i <= to <= cs.len(),
            forall|j: int| from <= j < i ==> is_hex_digit(#[trigger] cs@[j]),
        decreases to - i,
    {
        if !char_is_hex_digit(cs[i]) {
            assert(!is_hex_digit(cs@.subrange(from as int, to as int)[i - from]));
            return false;
        }
        i = i + 1;
    }
    assert forall|k: int| 0 <= k < to - from implies is_hex_digit(
        #[trigger] cs@.subrange(from as int, to as int)[k],
    ) by {
        assert(cs@.subrange(from as int, to as int)[k] == cs@[from + k]);
    }
    true
}

/// Reads an addressed answer.
pub fn parse(answer: &str) -> (r: Result<Option<(String, String)>, TextBindingError>)
    ensures
        match r {
            Ok(None) => parse_spec(answer@) == Ok::<Option<(Seq<char>, Seq<char>)>, TextBindingError>(None),
            Ok(Some((token, body))) => parse_spec(answer@) == Ok::<Option<(Seq<char>, Seq<char>)>, TextBindingError>(
                Some((token@, body@)),
            ),
            Err(e) => parse_spec(answer@) == Err::<Option<(Seq<char>, Seq<char>)>, TextBindingError>(e),
        },
{
    let all = chars_of(answer);
    let start = trim_start_index(&all);
    let t = slice_chars(&all, start, all.len());
    let prefix = chars_of(PREFIX);
    if !starts_with(&t, &prefix) {
        return Ok(None);
    }
    let rest = slice_chars(&t, prefix.len(), t.len());
    let close = match find_char(&rest, ']') {
        None => {
            return Err(TextBindingError::NoPendingRequest);
        },
        Some(i) => i,
    };
    assert forall|i: int| is_first_index(rest@, ']', i) implies i == close by {
        if i < close {
        } else if i > close {
        }
    }
    let body = slice_chars(&rest, close + 1, rest.len());
    let token_valid = token_ok(&rest, 0, close);
    let starts_blank = body.len() > 0 && char_is_space(body[0]);
    let trimmed = trim_chars(&body);
    if !token_valid || !starts_blank || trimmed.len() == 0 {
        return Err(TextBindingError::NoPendingRequest);
    }
    let token = slice_chars(&rest, 0, close);
    Ok(Some((string_of(&token), string_of(&trimmed))))
}

/// A reply written as the prompt's example shows, the prefix, a request
/// token, `]`, a space and an answer with some text, binds to that token
/// with the answer trimmed.
pub proof fn law_example_reply_binds(token: Seq<char>, answer: Seq<char>)
    requires
        valid_token(token),
        trim(answer).len() > 0,
    ensures
        parse_spec(PREFIX@ + token + "] "@ + answer) == Ok::<Option<(Seq<char>, Seq<char>)>, TextBindingError>(
            Some((token, trim(answer))),
        ),
{
    reveal_strlit("[codex-reply:");
    reveal_strlit("] ");
    let s = PREFIX@ + token + "] "@ + answer;
    assert(s[0] == '[');
    assert(trim_start(s) == s);
    assert(s.subrange(0, PREFIX@.len() as int) =~= PREFIX@);
    let rest = s.subrange(PREFIX@.len() as int, s.len() as int);
    assert(rest =~= token + "] "@ + answer);
    assert(rest[32] == ']');
    assert(!lacks(rest, ']'));
    assert(is_first_index(rest, ']', 32)) by {
        assert forall|j: int| 0 <= j < 32 implies rest[j] != ']' by {
            assert(rest[j] == token[j]);
            assert(is_hex_digit(token[j]));
        }
    }
    let i = choose|i: int| is_first_index(rest, ']', i);
    assert(i == 32) by {
        if i < 32 {
            assert(rest[i] == token[i]);
            assert(is_hex_digit(token[i]));
        }
    }
    assert(rest.subrange(0, 32) =~= token);
    let body = rest.subrange(33, rest.len() as int);
    assert(body =~= seq![' '] + answer);
    assert(is_space(body[0]));
    assert(body.drop_first() =~= answer);
    assert(trim_start(body) == trim_start(answer));
}

} // verus!
