//! Discovery of the path inputs from the process environment.

use vstd::prelude::*;

use super::helpers::{ascii_lower, env_lookup, env_value, join_path, join_spec, EnvEntries};
use crate::text::{chars_of, string_of, trim, trim_chars};

verus! {

/// Why the inputs could not be discovered.
#[derive(Clone, Debug, Eq, PartialEq)]
pub enum PathDiscoveryError {
    /// Neither `USERPROFILE` nor `HOME` gives the user home.
    UserHomeMissing,
    /// Differently cased Windows variables of this name disagree.
    ConflictingEnvironmentValues(String),
}

/// The two names are equal ignoring ASCII letter case.
pub open spec fn same_ignoring_ascii_case(a: Seq<char>, b: Seq<char>) -> bool {
    a.len() == b.len() && forall|i: int| 0 <= i < a.len() ==> ascii_lower(#[trigger] a[i]) == ascii_lower(b[i])
}

/// The values of the variables whose names equal `name` ignoring ASCII
/// case, in order.
pub open spec fn case_insensitive_values(env: Seq<(String, String)>, name: Seq<char>) -> Seq<Seq<char>>
    decreases env.len(),
{
    if env.len() == 0 {
        seq![]
    } else {
        let rest = case_insensitive_values(env.drop_last(), name);
        if same_ignoring_ascii_case(env.last().0@, name) {
            rest.push(env.last().1@)
        } else {
            rest
        }
    }
}

/// The value of `name`: an exact match; else, on Windows, the value of the
/// differently cased variables, which must agree.
pub open spec fn environment_value_spec(env: Seq<(String, String)>, name: Seq<char>, windows: bool) -> Result<Option<Seq<char>>, ()> {
    match env_lookup(env, name) {
        Some(v) => Ok(Some(v)),
        None => if !windows {
            Ok(None)
        } else {
            let vs = case_insensitive_values(env, name);
            if vs.len() == 0 {
                Ok(None)
            } else if exists|j: int| 1 <= j < vs.len() && #[trigger] vs[j] != vs[0] {
                Err(())
            } else {
                Ok(Some(vs[0]))
            }
        },
    }
}

fn same_ignoring_case(a: &str, b: &str) -> (r: bool)
    ensures
        r == same_ignoring_ascii_case(a@, b@),
{
    let x = chars_of(a);
    let y = chars_of(b);
    if x.len() != y.len() {
        return false;
    }
    let mut i: usize = 0;
    while i < x.len()
        invariant
            x@ == a@,
            y@ == b@,
            x.len() == y.len(),
            i <= x.len(),
            forall|j: int| 0 <= j < i ==> ascii_lower(#[trigger] x@[j]) == ascii_lower(y@[j]),
        decreases x.len() - i,
    {
        let c = x[i];
        let d = y[i];
        let lc = if 'A' <= c && c <= 'Z' { ((c as u32) + 32) as u8 as char } else { c };
        let ld = if 'A' <= d && d <= 'Z' { ((d as u32) + 32) as u8 as char } else { d };
        if lc != ld {
            return false;
        }
        i = i + 1;
    }
    true
}

/// The value of `name`; on Windows, a differently cased name also counts,
/// and disagreeing values are an error.
pub fn environment_value(env: &EnvEntries, name: &str, windows: bool) -> (r: Result<Option<String>, PathDiscoveryError>)
    ensures
        match (r, environment_value_spec(env@, name@, windows)) {
            (Ok(Some(v)), Ok(Some(w))) => v@ == w,
            (Ok(None), Ok(None)) => true,
            (Err(PathDiscoveryError::ConflictingEnvironmentValues(n)), Err(())) => n@ == name@,
            _ => false,
        },
{
    if let Some(v) = env_value(env, name) {
        return Ok(Some(v));
    }
    if !windows {
        return Ok(None);
    }
    let mut first: Option<String> = None;
    let mut conflict = false;
    let mut i: usize = 0;
    while i < env.len()
        invariant
            i <= env.len(),
            ({
                let vs = case_insensitive_values(env@.subrange(0, i as int), name@);
                &&& (first is None <==> vs.len() == 0)
                &&& (first matches Some(f) ==> f@ == vs[0])
                &&& conflict == exists|j: int| 1 <= j < vs.len() && #[trigger] vs[j] != vs[0]
            }),
        decreases env.len() - i,
    {
        let ghost before = case_insensitive_values(env@.subrange(0, i as int), name@);
        assert(env@.subrange(0, i + 1).drop_last() =~= env@.subrange(0, i as int));
        assert(env@.subrange(0, i + 1).last() == env@[i as int]);
        if same_ignoring_case(env[i].0.as_str(), name) {
            let ghost after = before.push(env@[i as int].1@);
            match &first {
                None => {
                    first = Some(env[i].1.clone());
                    assert(after.len() == 1);
                },
                Some(f) => {
                    if !crate::text::same_text(f.as_str(), env[i].1.as_str()) {
                        conflict = true;
                    }
                    assert(after[0] == before[0]);
                    assert((exists|j: int| 1 <= j < after.len() && #[trigger] after[j] != after[0]) == (
                    (exists|j: int| 1 <= j < before.len() && #[trigger] before[j] != before[0]) || after.last()
                        != after[0])) by {
                        if exists|j: int| 1 <= j < after.len() && #[trigger] after[j] != after[0] {
                            let j = choose|j: int| 1 <= j < after.len() && #[trigger] after[j] != after[0];
                            if j < before.len() {
                                assert(before[j] == after[j]);
                            }
                        }
                        if exists|j: int| 1 <= j < before.len() && #[trigger] before[j] != before[0] {
                            let j = choose|j: int| 1 <= j < before.len() && #[trigger] before[j] != before[0];
                            assert(before[j] == after[j]);
                        }
                    }
                },
            }
        }
        i = i + 1;
    }
    assert(env@.subrange(0, env.len() as int) =~= env@);
    if conflict {
        return Err(PathDiscoveryError::ConflictingEnvironmentValues(name.to_owned()));
    }
    Ok(first)
}

/// The first of `names` with a nonblank value, trimmed.
pub open spec fn first_path_spec(env: Seq<(String, String)>, names: Seq<&str>, windows: bool) -> Result<Option<Seq<char>>, Seq<char>>
    decreases names.len(),
{
    if names.len() == 0 {
        Ok(None)
    } else {
        match environment_value_spec(env, names[0]@, windows) {
            Err(()) => Err(names[0]@),
            Ok(Some(v)) => if trim(v).len() > 0 {
                Ok(Some(trim(v)))
            } else {
                first_path_spec(env, names.drop_first(), windows)
            },
            Ok(None) => first_path_spec(env, names.drop_first(), windows),
        }
    }
}

/// The first of `names` whose value is not blank, trimmed.
pub fn first_path(env: &EnvEntries, names: &[&str], windows: bool) -> (r: Result<Option<String>, PathDiscoveryError>)
    ensures
        match (r, first_path_spec(env@, names@, windows)) {
            (Ok(Some(v)), Ok(Some(w))) => v@ == w,
            (Ok(None), Ok(None)) => true,
            (Err(PathDiscoveryError::ConflictingEnvironmentValues(n)), Err(m)) => n@ == m,
            _ => false,
        },
{
    let mut k: usize = 0;
    assert(names@.subrange(0, names.len() as int) =~= names@);
    while k < names.len()
        invariant
            k <= names.len(),
            first_path_spec(env@, names@, windows) == first_path_spec(env@, names@.subrange(k as int, names.len() as int), windows),
        decreases names.len() - k,
    {
        let ghost rest = names@.subrange(k as int, names.len() as int);
        assert(rest[0] == names@[k as int]);
        assert(rest.drop_first() =~= names@.subrange(k + 1, names.len() as int));
        match environment_value(env, names[k], windows) {
            Err(e) => { return Err(e); },
            Ok(Some(v)) => {
                let t = trim_chars(&chars_of(v.as_str()));
                if t.len() > 0 {
                    return Ok(Some(string_of(&t)));
                }
            },
            Ok(None) => {},
        }
        k = k + 1;
    }
    assert(names@.subrange(names.len() as int, names.len() as int) =~= Seq::<&str>::empty());
    Ok(None)
}

/// The user home: `USERPROFILE`, else `HOME`.
pub fn user_home(env: &EnvEntries, windows: bool) -> (r: Result<String, PathDiscoveryError>)
    ensures
        match (r, first_path_spec(env@, seq!["USERPROFILE", "HOME"], windows)) {
            (Ok(v), Ok(Some(w))) => v@ == w,
            (Err(PathDiscoveryError::UserHomeMissing), Ok(None)) => true,
            (Err(PathDiscoveryError::ConflictingEnvironmentValues(n)), Err(m)) => n@ == m,
            _ => false,
        },
{
    let names: [&str; 2] = ["USERPROFILE", "HOME"];
    assert(names@ =~= seq!["USERPROFILE", "HOME"]);
    match first_path(env, &names, windows) {
        Ok(Some(v)) => Ok(v),
        Ok(None) => Err(PathDiscoveryError::UserHomeMissing),
        Err(e) => Err(e),
    }
}

/// The directories searched for the Codex desktop app's executables:
/// under `LOCALAPPDATA` when it is set, under the user home's Windows and
/// macOS application folders, and on macOS the application bundle.
pub open spec fn local_roots_spec(local: Option<Seq<char>>, home: Seq<char>, sep: char, macos: bool) -> Seq<Seq<char>> {
    let first = match local {
        Some(l) => seq![join_spec(l, "OpenAI/Codex/bin"@, sep)],
        None => seq![],
    };
    let rest = seq![
        join_spec(home, "AppData/Local/OpenAI/Codex/bin"@, sep),
        join_spec(home, "Library/Application Support/OpenAI/Codex/bin"@, sep),
    ];
    let bundle = if macos {
        seq!["/Applications/Codex.app/Contents/Resources/bin"@]
    } else {
        seq![]
    };
    first + rest + bundle
}

/// The directories searched for the Codex desktop app's executables.
pub fn local_app_roots(env: &EnvEntries, user_home: &str, sep: char, windows: bool, macos: bool) -> (r: Result<
    Vec<String>,
    PathDiscoveryError,
>)
    ensures
        match (r, first_path_spec(env@, seq!["LOCALAPPDATA"], windows)) {
            (Ok(v), Ok(local)) => v@.map_values(|s: String| s@) == local_roots_spec(local, user_home@, sep, macos),
            (Err(PathDiscoveryError::ConflictingEnvironmentValues(n)), Err(m)) => n@ == m,
            _ => false,
        },
{
    let names: [&str; 1] = ["LOCALAPPDATA"];
    assert(names@ =~= seq!["LOCALAPPDATA"]);
    let local = first_path(env, &names, windows)?;
    let mut roots: Vec<String> = Vec::new();
    if let Some(l) = &local {
        roots.push(join_path(l.as_str(), "OpenAI/Codex/bin", sep));
    }
    roots.push(join_path(user_home, "AppData/Local/OpenAI/Codex/bin", sep));
    roots.push(join_path(user_home, "Library/Application Support/OpenAI/Codex/bin", sep));
    if macos {
        roots.push("/Applications/Codex.app/Contents/Resources/bin".to_owned());
    }
    let ghost lv = match local {
        Some(l) => Some(l@),
        None => None,
    };
    assert(roots@.map_values(|s: String| s@) =~= local_roots_spec(lv, user_home@, sep, macos));
    Ok(roots)
}

/// The name of the Codex executable on the platform.
pub fn executable_name(windows: bool) -> (r: &'static str)
    ensures
        windows ==> r@ == "codex.exe"@,
        !windows ==> r@ == "codex"@,
{
    if windows { "codex.exe" } else { "codex" }
}

} // verus!
