//! The identity that binds one restart drain to one runtime process.

use vstd::prelude::*;

use super::DrainGateError;
use crate::text::{
    char_is_alnum, char_is_digit, chars_of, find_char, is_alnum, is_digit, is_first_index, };

verus! {

/// A character that may stand in a drain token.
pub open spec fn is_token_char(c: char) -> bool {
    is_alnum(c) || c == '-' || c == '_'
}

/// A runtime id or nonce: 1 to 128 ASCII letters, digits, `-` or `_`.
///
/// The original measures the length in bytes; every accepted character is
/// one byte long and any other character is refused, so counting characters
/// accepts the same values.
pub open spec fn valid_token(s: Seq<char>) -> bool {
    &&& 0 < s.len() <= 128
    &&& forall|i: int| 0 <= i < s.len() ==> is_token_char(#[trigger] s[i])
}

/// `s` is nonempty and made of ASCII digits.
pub open spec fn nonempty_digits(s: Seq<char>) -> bool {
    s.len() > 0 && forall|i: int| 0 <= i < s.len() ==> is_digit(#[trigger] s[i])
}

/// A process identity `pid|ticks`: digits, a `|` (its first occurrence),
/// and digits.
pub open spec fn valid_process_identity(s: Seq<char>) -> bool {
    exists|i: int|
        is_first_index(s, '|', i) && nonempty_digits(s.subrange(0, i))
            && nonempty_digits(#[trigger] s.subrange(i + 1, s.len() as int))
}

/// The abstract value of a drain fence key.
pub struct DrainFenceKeyView {
    pub runtime_id: Seq<char>,
    pub process_identity: Seq<char>,
    pub nonce: Seq<char>,
}

impl DrainFenceKeyView {
    /// Every part of the key is well formed.
    pub open spec fn valid(self) -> bool {
        valid_token(self.runtime_id) && valid_process_identity(self.process_identity)
            && valid_token(self.nonce)
    }
}

/// Runtime id, process identity and nonce of one restart drain.
#[derive(Clone, Debug, PartialEq, Eq)]
pub struct DrainFenceKey {
    runtime_id: String,
    process_identity: String,
    nonce: String,
}

impl View for DrainFenceKey {
    type V = DrainFenceKeyView;

    closed spec fn view(&self) -> DrainFenceKeyView {
        DrainFenceKeyView {
            runtime_id: self.runtime_id@,
            process_identity: self.process_identity@,
            nonce: self.nonce@,
        }
    }
}

fn token_ok(value: &str) -> (r: bool)
    ensures
        r == valid_token(value@),
{
    let cs = chars_of(value);
    if cs.len() == 0 || cs.len() > 128 {
        return false;
    }
    let mut i: usize = 0;
    while i < cs.len()
        invariant
            i <= cs.len(),
            cs@ == value@,
            forall|j: int| 0 <= j < i ==> is_token_char(#[trigger] cs@[j]),
        decreases cs.len() - i,
    {
        let c = cs[i];
        if !(char_is_alnum(c) || c == '-' || c == '_') {
            return false;
        }
        i = i + 1;
    }
    true
}

fn digits_ok(cs: &[char], from: usize, to: usize) -> (r: bool)
    requires
        from <= to <= cs.len(),
    ensures
        r == nonempty_digits(cs@.subrange(from as int, to as int)),
{
    if from == to {
        return false;
    }
    let mut i: usize = from;
    while i < to
        invariant
            from <= i <= to <= cs.len(),
            forall|j: int| from <= j < i ==> is_digit(#[trigger] cs@[j]),
        decreases to - i,
    {
        if !char_is_digit(cs[i]) {
            assert(!is_digit(cs@.subrange(from as int, to as int)[i - from]));
            return false;
        }
        i = i + 1;
    }
    assert forall|k: int| 0 <= k < to - from implies is_digit(
        #[trigger] cs@.subrange(from as int, to as int)[k],
    ) by {
        assert(cs@.subrange(from as int, to as int)[k] == cs@[from + k]);
    }
    true
}

fn process_identity_ok(value: &str) -> (r: bool)
    ensures
        r == valid_process_identity(value@),
{
    let cs = chars_of(value);
    match find_char(&cs, '|') {
        None => {
            assert forall|i: int| !is_first_index(value@, '|', i) by {}
            false
        },
        Some(bar) => {
            assert(bar < cs@.len());
            let n: usize = cs.len();
            let after: usize = bar + 1;
            let left = digits_ok(&cs, 0, bar);
            let right = digits_ok(&cs, after, n);
            let r = left && right;
            assert forall|i: int| is_first_index(value@, '|', i) implies i == bar by {
                if i < bar {
                } else if i > bar {
                }
            }
            if r {
                assert(is_first_index(value@, '|', bar as int));
            }
            r
        },
    }
}

impl DrainFenceKey {
    /// Builds a key, refusing one whose parts are malformed.
    pub fn new(runtime_id: String, process_identity: String, nonce: String) -> (r: Result<
        Self,
        DrainGateError,
    >)
        ensures
            match r {
                Ok(key) => key@ == (DrainFenceKeyView {
                    runtime_id: runtime_id@,
                    process_identity: process_identity@,
                    nonce: nonce@,
                }),
                Err(e) => e == DrainGateError::InvalidKey,
            },
            r is Ok <==> (DrainFenceKeyView {
                runtime_id: runtime_id@,
                process_identity: process_identity@,
                nonce: nonce@,
            }).valid(),
    {
        if !token_ok(runtime_id.as_str()) || !process_identity_ok(process_identity.as_str())
            || !token_ok(nonce.as_str()) {
            return Err(DrainGateError::InvalidKey);
        }
        Ok(DrainFenceKey { runtime_id, process_identity, nonce })
    }

    /// The runtime id this drain is bound to.
    pub fn runtime_id(&self) -> (r: &str)
        ensures
            r@ == self@.runtime_id,
    {
        self.runtime_id.as_str()
    }

    /// The `pid|ticks` identity of the bound process.
    pub fn process_identity(&self) -> (r: &str)
        ensures
            r@ == self@.process_identity,
    {
        self.process_identity.as_str()
    }

    /// The nonce of this drain.
    pub fn nonce(&self) -> (r: &str)
        ensures
            r@ == self@.nonce,
    {
        self.nonce.as_str()
    }

    /// The two keys have the same parts.
    pub fn same_as(&self, other: &Self) -> (r: bool)
        ensures
            r == (self@ == other@),
    {
        self.runtime_id == other.runtime_id && self.process_identity == other.process_identity
            && self.nonce == other.nonce
    }

    /// An independent copy of the key.
    pub fn duplicate(&self) -> (r: Self)
        ensures
            r@ == self@,
    {
        DrainFenceKey {
            runtime_id: self.runtime_id.clone(),
            process_identity: self.process_identity.clone(),
            nonce: self.nonce.clone(),
        }
    }
}

} // verus!
