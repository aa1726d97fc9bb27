//! The runtime root and mirror database, resolved the same way for offline
//! tools and for the running bot.

use vstd::prelude::*;

use super::RuntimePathError;
use super::helpers::{env_path, env_path_spec, expand_home, expand_home_spec, join_path, join_spec, EnvEntries};
use crate::text::{chars_of, has_prefix, starts_with};

verus! {

/// The path begins with the home marker `~`.
pub open spec fn needs_home(raw: Seq<char>) -> bool {
    raw == seq!['~'] || has_prefix(raw, seq!['~', '/']) || has_prefix(raw, seq!['~', '\\'])
}

/// `raw` expanded, which needs the user home when it begins with `~`.
pub open spec fn expand_spec(raw: Seq<char>, home: Option<Seq<char>>, sep: char) -> Result<Seq<char>, RuntimePathError> {
    if needs_home(raw) {
        match home {
            Some(h) => Ok(expand_home_spec(raw, h, sep)),
            None => Err(RuntimePathError::UserHomeMissing),
        }
    } else {
        Ok(raw)
    }
}

/// With the user home known, expanding never fails and expands `~` as
/// the running bot does.
pub proof fn lemma_expand_with_home(raw: Seq<char>, home: Seq<char>, sep: char)
    ensures
        expand_spec(raw, Some(home), sep) == Ok::<Seq<char>, RuntimePathError>(expand_home_spec(raw, home, sep)),
{
}

/// The runtime root and mirror database the environment gives.
pub open spec fn store_spec(env: Seq<(String, String)>, default_root: Seq<char>, home: Option<Seq<char>>, sep: char) -> Result<(Seq<char>, Seq<char>), RuntimePathError> {
    let root = match env_path_spec(env, "CODEX_DISCORD_ROOT"@) {
        Some(raw) => expand_spec(raw, home, sep),
        None => Ok(default_root),
    };
    match root {
        Err(e) => Err(e),
        Ok(root) => match env_path_spec(env, "CODEX_DISCORD_MIRROR_DB"@) {
            Some(raw) => match expand_spec(raw, home, sep) {
                Err(e) => Err(e),
                Ok(db) => Ok((root, db)),
            },
            None => Ok((root, join_spec(root, "discord_mirror.sqlite"@, sep))),
        },
    }
}

/// The characters of an optional text.
pub open spec fn opt_str(o: Option<&str>) -> Option<Seq<char>> {
    match o {
        Some(s) => Some(s@),
        None => None,
    }
}

pub(crate) fn expand_path(raw: &str, home: Option<&str>, sep: char) -> (r: Result<String, RuntimePathError>)
    ensures
        match (r, expand_spec(raw@, opt_str(home), sep)) {
            (Ok(p), Ok(q)) => p@ == q,
            (Err(e), Err(f)) => e == f,
            _ => false,
        },
{
    let cs = chars_of(raw);
    let tilde = cs.len() == 1 && cs[0] == '~';
    if tilde {
        assert(raw@ =~= seq!['~']);
    } else {
        assert(raw@ != seq!['~']);
    }
    assert(seq!['~', '/'] =~= ['~', '/']@);
    assert(seq!['~', '\\'] =~= ['~', '\\']@);
    if tilde || starts_with(&cs, &['~', '/']) || starts_with(&cs, &['~', '\\']) {
        match home {
            Some(h) => Ok(expand_home(raw, h, sep)),
            None => Err(RuntimePathError::UserHomeMissing),
        }
    } else {
        Ok(raw.to_owned())
    }
}

/// Resolves the runtime root and its mirror database.
pub fn resolve(env: &EnvEntries, default_root: &str, user_home: Option<&str>, sep: char) -> (r: Result<(String, String), RuntimePathError>)
    ensures
        match (r, store_spec(env@, default_root@, opt_str(user_home), sep)) {
            (Ok((a, b)), Ok((c, d))) => a@ == c && b@ == d,
            (Err(e), Err(f)) => e == f,
            _ => false,
        },
{
    let root = match env_path(env, "CODEX_DISCORD_ROOT") {
        Some(raw) => expand_path(raw.as_str(), user_home, sep)?,
        None => default_root.to_owned(),
    };
    let database = match env_path(env, "CODEX_DISCORD_MIRROR_DB") {
        Some(raw) => expand_path(raw.as_str(), user_home, sep)?,
        None => join_path(root.as_str(), "discord_mirror.sqlite", sep),
    };
    Ok((root, database))
}

} // verus!
