//! The Codex home and state database, resolved the same way for offline
//! readers and for the running bot.

use vstd::prelude::*;

use super::RuntimePathError;
use super::helpers::{env_path, env_path_spec, join_path, join_spec, EnvEntries};
use super::store_paths::{expand_spec, expand_path, opt_str};
use crate::text::{has_prefix, chars_of, starts_with};
use crate::text_order::{text_before, text_less};

verus! {

/// The Codex home and the configured state database; a state database of
/// `None` is the newest one found in the home.
pub open spec fn state_spec(env: Seq<(String, String)>, home: Option<Seq<char>>, sep: char) -> Result<
    (Seq<char>, Option<Seq<char>>),
    RuntimePathError,
> {
    let codex = match env_path_spec(env, "CODEX_HOME"@) {
        Some(raw) => match expand_spec(raw, home, sep) {
            Ok(p) => Ok(Some(p)),
            Err(e) => Err(e),
        },
        None => Ok(
            match home {
                Some(h) => Some(join_spec(h, ".codex"@, sep)),
                None => None,
            },
        ),
    };
    match codex {
        Err(e) => Err(e),
        Ok(codex) => {
            let state = match env_path_spec(env, "CODEX_STATE_DB"@) {
                Some(raw) => match expand_spec(raw, home, sep) {
                    Ok(p) => Ok(Some(p)),
                    Err(e) => Err(e),
                },
                None => Ok(None),
            };
            match state {
                Err(e) => Err(e),
                Ok(state) => match (codex, state) {
                    (Some(c), s) => Ok((c, s)),
                    (None, Some(s)) => Ok((seq![], Some(s))),
                    (None, None) => Err(RuntimePathError::UserHomeMissing),
                },
            }
        },
    }
}

/// Resolves the Codex home and the configured state database.
pub fn resolve(env: &EnvEntries, user_home: Option<&str>, sep: char) -> (r: Result<(String, Option<String>), RuntimePathError>)
    ensures
        match (r, state_spec(env@, opt_str(user_home), sep)) {
            (Ok((a, b)), Ok((c, d))) => a@ == c && match (b, d) {
                (Some(x), Some(y)) => x@ == y,
                (None, None) => true,
                _ => false,
            },
            (Err(e), Err(f)) => e == f,
            _ => false,
        },
{
    let codex: Option<String> = match env_path(env, "CODEX_HOME") {
        Some(raw) => Some(expand_path(raw.as_str(), user_home, sep)?),
        None => match user_home {
            Some(h) => Some(join_path(h, ".codex", sep)),
            None => None,
        },
    };
    let state: Option<String> = match env_path(env, "CODEX_STATE_DB") {
        Some(raw) => Some(expand_path(raw.as_str(), user_home, sep)?),
        None => None,
    };
    match codex {
        Some(c) => Ok((c, state)),
        None => match state {
            Some(s) => Ok((String::new(), Some(s))),
            None => Err(RuntimePathError::UserHomeMissing),
        },
    }
}

/// The state database used when none is configured and none is found.
pub const DEFAULT_STATE_DB: &'static str = "state_5.sqlite";

/// A file name of a Codex state database: `state_….sqlite`.
pub open spec fn state_db_name(name: Seq<char>) -> bool {
    has_prefix(name, "state_"@) && name.len() >= 7 && name.subrange(name.len() - 7, name.len() as int)
        == ".sqlite"@
}

/// Whether `name` is the file name of a Codex state database.
pub fn is_state_db_name(name: &str) -> (r: bool)
    ensures
        r == state_db_name(name@),
{
    let cs = chars_of(name);
    let suffix = chars_of(".sqlite");
    proof {
        reveal_strlit(".sqlite");
    }
    if !starts_with(&cs, &chars_of("state_")) || cs.len() < 7 {
        return false;
    }
    let tail = crate::text::slice_chars(&cs, cs.len() - 7, cs.len());
    crate::text_lines::chars_equal(&tail, &suffix)
}

/// Candidate `a` sorts before `b`: by modification time, then by name.
pub open spec fn candidate_before(a: (u128, String), b: (u128, String)) -> bool {
    a.0 < b.0 || (a.0 == b.0 && text_before(a.1@, b.1@))
}

proof fn lemma_candidate_transitive(a: (u128, String), b: (u128, String), c: (u128, String))
    requires
        candidate_before(a, b),
        candidate_before(b, c),
    ensures
        candidate_before(a, c),
{
    if a.0 == b.0 && b.0 == c.0 {
        crate::text_order::lemma_text_transitive(a.1@, b.1@, c.1@);
    }
}

proof fn lemma_candidate_total(a: (u128, String), b: (u128, String))
    requires
        !candidate_before(a, b),
        !candidate_before(b, a),
    ensures
        a.0 == b.0 && a.1@ == b.1@,
{
    if a.0 == b.0 && a.1@ != b.1@ {
        crate::text_order::lemma_text_total(a.1@, b.1@);
    }
}

proof fn lemma_candidate_irreflexive(a: (u128, String))
    ensures
        !candidate_before(a, a),
{
    crate::text_order::lemma_text_irreflexive(a.1@);
}

/// Index of the newest candidate by modification time, then name; among
/// equal ones the last. This is what a stable sort followed by taking the
/// last element picks.
pub fn newest(candidates: &[(u128, String)]) -> (r: Option<usize>)
    ensures
        candidates.len() == 0 ==> r is None,
        candidates.len() > 0 ==> (r matches Some(i) && i < candidates.len() && (forall|k: int|
            0 <= k < candidates.len() ==> !candidate_before(candidates@[i as int], #[trigger] candidates@[k]))
            && (forall|k: int| i < k < candidates.len() ==> candidate_before(#[trigger] candidates@[k], candidates@[i as int]))),
{
    if candidates.len() == 0 {
        return None;
    }
    let mut best: usize = 0;
    let mut k: usize = 1;
    proof {
        lemma_candidate_irreflexive(candidates@[0]);
    }
    while k < candidates.len()
        invariant
            0 < k <= candidates.len(),
            best < k,
            forall|m: int| 0 <= m < k ==> !candidate_before(candidates@[best as int], #[trigger] candidates@[m]),
            forall|m: int| best < m < k ==> candidate_before(#[trigger] candidates@[m], candidates@[best as int]),
        decreases candidates.len() - k,
    {
        let bt = candidates[best].0;
        let ct = candidates[k].0;
        let c_before_b = ct < bt || (ct == bt && text_less(candidates[k].1.as_str(), candidates[best].1.as_str()));
        let ghost b = candidates@[best as int];
        let ghost c = candidates@[k as int];
        if !c_before_b {
            proof {
                assert forall|m: int| 0 <= m < k + 1 implies !candidate_before(c, #[trigger] candidates@[m]) by {
                    let x = candidates@[m];
                    if m == k {
                        lemma_candidate_irreflexive(c);
                    } else if candidate_before(c, x) {
                        if candidate_before(x, b) {
                            lemma_candidate_transitive(c, x, b);
                        } else {
                            lemma_candidate_total(x, b);
                        }
                    }
                }
            }
            best = k;
        } else {
            proof {
                if candidate_before(b, c) {
                    lemma_candidate_transitive(b, c, b);
                    lemma_candidate_irreflexive(b);
                }
            }
        }
        k = k + 1;
    }
    Some(best)
}

} // verus!
