//! Environment lookups, home expansion and joins.

use vstd::prelude::*;

use crate::text::{
    chars_of, has_prefix, push_all, same_text, slice_chars, starts_with, string_of, trim,
    trim_chars,
};

verus! {

/// Environment variables as name and value pairs.
pub type EnvEntries = [(String, String)];

/// The value of the first variable called `name`.
pub open spec fn env_lookup(env: Seq<(String, String)>, name: Seq<char>) -> Option<Seq<char>>
    decreases env.len(),
{
    if env.len() == 0 {
        None
    } else if env[0].0@ == name {
        Some(env[0].1@)
    } else {
        env_lookup(env.drop_first(), name)
    }
}

/// The trimmed value of `name`, when set and not blank.
pub open spec fn env_path_spec(env: Seq<(String, String)>, name: Seq<char>) -> Option<Seq<char>> {
    match env_lookup(env, name) {
        None => None,
        Some(v) => if trim(v).len() > 0 {
            Some(trim(v))
        } else {
            None
        },
    }
}

/// `base` joined with `tail` by the separator `sep`.
pub open spec fn join_spec(base: Seq<char>, tail: Seq<char>, sep: char) -> Seq<char> {
    if tail.len() > 0 && tail[0] == '/' {
        tail
    } else if base.len() == 0 {
        tail
    } else if base.last() == '/' || base.last() == sep {
        base + tail
    } else {
        base.push(sep) + tail
    }
}

/// `path` with a leading `~` standing for the user home.
pub open spec fn expand_home_spec(path: Seq<char>, home: Seq<char>, sep: char) -> Seq<char> {
    if path == seq!['~'] {
        home
    } else if has_prefix(path, seq!['~', '/']) || has_prefix(path, seq!['~', '\\']) {
        join_spec(home, path.subrange(2, path.len() as int), sep)
    } else {
        path
    }
}

/// The path named by variable `name`, or `base` joined with `default_name`.
pub open spec fn resolved_spec(env: Seq<(String, String)>, name: Seq<char>, base: Seq<char>, default_name: Seq<char>, home: Seq<char>, sep: char) -> Seq<char> {
    match env_path_spec(env, name) {
        Some(p) => expand_home_spec(p, home, sep),
        None => join_spec(base, default_name, sep),
    }
}

/// A quote character that `CODEX_EXE` may be wrapped in.
pub open spec fn is_quote(c: char) -> bool {
    c == '"' || c == '\''
}

/// `s` without leading quote characters.
pub open spec fn trim_quotes_start(s: Seq<char>) -> Seq<char>
    decreases s.len(),
{
    if s.len() > 0 && is_quote(s[0]) {
        trim_quotes_start(s.drop_first())
    } else {
        s
    }
}

/// `s` without trailing quote characters.
pub open spec fn trim_quotes_end(s: Seq<char>) -> Seq<char>
    decreases s.len(),
{
    if s.len() > 0 && is_quote(s.last()) {
        trim_quotes_end(s.drop_last())
    } else {
        s
    }
}

/// A configured executable as written: trimmed, unquoted, and without a
/// trailing icon index `,0`.
pub open spec fn clean_spec(raw: Seq<char>) -> Seq<char> {
    let q = trim_quotes_end(trim_quotes_start(trim(raw)));
    if q.len() >= 2 && q.subrange(q.len() - 2, q.len() as int) == seq![',', '0'] {
        q.subrange(0, q.len() - 2)
    } else {
        q
    }
}

/// The lowercase of an ASCII letter; any other character is unchanged.
pub open spec fn ascii_lower(c: char) -> char {
    if 'A' <= c && c <= 'Z' {
        ((c as u32) + 32) as char
    } else {
        c
    }
}

/// `s` with `\\` as `/` and ASCII letters in lowercase.
pub open spec fn normalized(s: Seq<char>) -> Seq<char> {
    s.map_values(|c: char| if c == '\\' { '/' } else { ascii_lower(c) })
}

/// The path lies in a `WindowsApps` directory, in any letter case and with
/// either separator. Lowercasing a character other than an ASCII letter
/// never gives a letter of `windowsapps`, so ASCII lowercasing decides as
/// full lowercasing does.
pub open spec fn windowsapps_spec(path: Seq<char>) -> bool {
    crate::text::has_infix(normalized(path), "/windowsapps/"@)
}

proof fn lemma_trim_quotes_start_step(s: Seq<char>, i: int)
    requires
        0 <= i < s.len(),
        is_quote(s[i]),
    ensures
        trim_quotes_start(s.subrange(i, s.len() as int)) == trim_quotes_start(s.subrange(i + 1, s.len() as int)),
{
    assert(s.subrange(i, s.len() as int).drop_first() =~= s.subrange(i + 1, s.len() as int));
}

proof fn lemma_trim_quotes_end_step(s: Seq<char>, j: int)
    requires
        0 < j <= s.len(),
        is_quote(s[j - 1]),
    ensures
        trim_quotes_end(s.subrange(0, j)) == trim_quotes_end(s.subrange(0, j - 1)),
{
    assert(s.subrange(0, j).drop_last() =~= s.subrange(0, j - 1));
}

fn unquote(s: &Vec<char>) -> (r: Vec<char>)
    ensures
        r@ == trim_quotes_end(trim_quotes_start(s@)),
{
    let n = s.len();
    let mut i: usize = 0;
    assert(s@.subrange(0, n as int) =~= s@);
    while i < n && (s[i] == '"' || s[i] == '\'')
        invariant
            i <= n,
            n == s.len(),
            trim_quotes_start(s@) == trim_quotes_start(s@.subrange(i as int, n as int)),
        decreases n - i,
    {
        proof { lemma_trim_quotes_start_step(s@, i as int); }
        i = i + 1;
    }
    let ghost t = s@.subrange(i as int, n as int);
    let mut j: usize = n;
    assert(t.subrange(0, (j - i) as int) =~= t);
    while j > i && (s[j - 1] == '"' || s[j - 1] == '\'')
        invariant
            i <= j <= n,
            n == s.len(),
            t == s@.subrange(i as int, n as int),
            trim_quotes_end(t) == trim_quotes_end(t.subrange(0, (j - i) as int)),
        decreases j - i,
    {
        proof {
            assert(t[(j - i) - 1] == s@[j - 1]);
            lemma_trim_quotes_end_step(t, (j - i) as int);
        }
        j = j - 1;
    }
    assert(t.subrange(0, (j - i) as int) =~= s@.subrange(i as int, j as int));
    slice_chars(s, i, j)
}

/// A configured executable as written: trimmed, unquoted, and without a
/// trailing `,0`.
pub fn clean_executable(raw: &str) -> (r: String)
    ensures
        r@ == clean_spec(raw@),
{
    let q = unquote(&trim_chars(&chars_of(raw)));
    let n = q.len();
    if n >= 2 && q[n - 2] == ',' && q[n - 1] == '0' {
        assert(q@.subrange(n - 2, n as int) =~= seq![',', '0']);
        return string_of(&slice_chars(&q, 0, n - 2));
    }
    if n >= 2 {
        assert(q@.subrange(n - 2, n as int)[0] == q@[n - 2]);
        assert(q@.subrange(n - 2, n as int)[1] == q@[n - 1]);
    }
    string_of(&q)
}

/// Whether `path` lies in a `WindowsApps` directory.
pub fn is_windowsapps(path: &str) -> (r: bool)
    ensures
        r == windowsapps_spec(path@),
{
    let p = chars_of(path);
    let mut norm: Vec<char> = Vec::new();
    let mut i: usize = 0;
    while i < p.len()
        invariant
            i <= p.len(),
            norm@ == normalized(p@.subrange(0, i as int)),
        decreases p.len() - i,
    {
        let c = p[i];
        let d = if c == '\\' {
            '/'
        } else if 'A' <= c && c <= 'Z' {
            ((c as u32) + 32) as u8 as char
        } else {
            c
        };
        norm.push(d);
        i = i + 1;
        assert(norm@ =~= normalized(p@.subrange(0, i as int)));
    }
    assert(p@.subrange(0, p.len() as int) =~= p@);
    crate::text::contains(&norm, &chars_of("/windowsapps/"))
}

/// The value of the first variable called `name`.
pub fn env_value(env: &EnvEntries, name: &str) -> (r: Option<String>)
    ensures
        match r {
            Some(v) => env_lookup(env@, name@) == Some(v@),
            None => env_lookup(env@, name@) is None,
        },
{
    let mut i: usize = 0;
    assert(env@.subrange(0, env.len() as int) =~= env@);
    while i < env.len()
        invariant
            i <= env.len(),
            env_lookup(env@, name@) == env_lookup(env@.subrange(i as int, env.len() as int), name@),
        decreases env.len() - i,
    {
        let ghost rest = env@.subrange(i as int, env.len() as int);
        assert(rest[0] == env@[i as int]);
        if same_text(env[i].0.as_str(), name) {
            return Some(env[i].1.clone());
        }
        assert(rest.drop_first() =~= env@.subrange(i + 1, env.len() as int));
        i = i + 1;
    }
    None
}

/// The trimmed value of `name`, when set and not blank.
pub fn env_path(env: &EnvEntries, name: &str) -> (r: Option<String>)
    ensures
        match r {
            Some(v) => env_path_spec(env@, name@) == Some(v@),
            None => env_path_spec(env@, name@) is None,
        },
{
    match env_value(env, name) {
        None => None,
        Some(v) => {
            let t = trim_chars(&chars_of(v.as_str()));
            if t.len() > 0 {
                Some(string_of(&t))
            } else {
                None
            }
        },
    }
}

/// `base` joined with `tail` by `sep`.
pub fn join_path(base: &str, tail: &str, sep: char) -> (r: String)
    ensures
        r@ == join_spec(base@, tail@, sep),
{
    let b = chars_of(base);
    let t = chars_of(tail);
    if t.len() > 0 && t[0] == '/' {
        return tail.to_owned();
    }
    if b.len() == 0 {
        return tail.to_owned();
    }
    let mut out = b.clone();
    let last = b[b.len() - 1];
    if last != '/' && last != sep {
        out.push(sep);
    }
    push_all(&mut out, &t);
    proof {
        assert(b@ == base@);
        if last != '/' && last != sep {
            assert(out@ =~= base@.push(sep) + tail@);
        } else {
            assert(out@ =~= base@ + tail@);
        }
    }
    string_of(&out)
}

/// `path` with a leading `~` standing for `home`.
pub fn expand_home(path: &str, home: &str, sep: char) -> (r: String)
    ensures
        r@ == expand_home_spec(path@, home@, sep),
{
    let p = chars_of(path);
    if p.len() == 1 && p[0] == '~' {
        assert(path@ =~= seq!['~']);
        return home.to_owned();
    }
    assert(path@ != seq!['~']);
    let slash = starts_with(&p, &['~', '/']);
    let backslash = starts_with(&p, &['~', '\\']);
    assert(seq!['~', '/'] =~= ['~', '/']@);
    assert(seq!['~', '\\'] =~= ['~', '\\']@);
    if slash || backslash {
        let tail = string_of(&slice_chars(&p, 2, p.len()));
        return join_path(home, tail.as_str(), sep);
    }
    path.to_owned()
}

/// The path named by variable `name`, or `base` joined with `default_name`.
pub fn resolved_path(env: &EnvEntries, name: &str, base: &str, default_name: &str, home: &str, sep: char) -> (r: String)
    ensures
        r@ == resolved_spec(env@, name@, base@, default_name@, home@, sep),
{
    match env_path(env, name) {
        Some(p) => expand_home(p.as_str(), home, sep),
        None => join_path(base, default_name, sep),
    }
}

} // verus!
