//! Line splitting and `name=value` field parsing of small marker files.

use vstd::prelude::*;

use crate::text::{lacks, slice_chars};

verus! {

/// Offset of the first `c` in `s`, or the length of `s` when `c` is absent.
pub open spec fn pos_of(s: Seq<char>, c: char) -> nat
    decreases s.len(),
{
    if s.len() == 0 {
        0
    } else if s[0] == c {
        0
    } else {
        1 + pos_of(s.drop_first(), c)
    }
}

/// `l` without one trailing carriage return.
pub open spec fn strip_cr(l: Seq<char>) -> Seq<char> {
    if l.len() > 0 && l.last() == '\r' {
        l.drop_last()
    } else {
        l
    }
}

/// The lines of `s` as `str::lines` yields them: split at `\n`, a `\r`
/// before the `\n` dropped, and no empty line after a final `\n`.
pub open spec fn lines(s: Seq<char>) -> Seq<Seq<char>>
    decreases s.len(),
{
    if s.len() == 0 {
        seq![]
    } else {
        let e = pos_of(s, '\n');
        if e >= s.len() {
            seq![s]
        } else {
            seq![strip_cr(s.subrange(0, e as int))] + lines(s.subrange(e as int + 1, s.len() as int))
        }
    }
}

/// Why a marker's fields could not be read.
pub enum FieldFault {
    /// A line has no `=`.
    NoSeparator,
    /// A name or value is empty, or a name occurs twice.
    EmptyOrDuplicate,
}

/// The value recorded for `name`, if any.
pub open spec fn lookup(fs: Seq<(Seq<char>, Seq<char>)>, name: Seq<char>) -> Option<Seq<char>>
    decreases fs.len(),
{
    if fs.len() == 0 {
        None
    } else if fs[0].0 == name {
        Some(fs[0].1)
    } else {
        lookup(fs.drop_first(), name)
    }
}

/// Adds the field of one line to the fields read so far.
pub open spec fn add_line(fs: Seq<(Seq<char>, Seq<char>)>, line: Seq<char>) -> Result<
    Seq<(Seq<char>, Seq<char>)>,
    FieldFault,
> {
    let i = pos_of(line, '=');
    if i >= line.len() {
        Err(FieldFault::NoSeparator)
    } else {
        let name = line.subrange(0, i as int);
        let value = line.subrange(i as int + 1, line.len() as int);
        if name.len() == 0 || value.len() == 0 || lookup(fs, name) is Some {
            Err(FieldFault::EmptyOrDuplicate)
        } else {
            Ok(fs.push((name, value)))
        }
    }
}

/// The fields of a sequence of lines, read in order; the first bad line
/// decides the fault.
pub open spec fn fields_of_lines(ls: Seq<Seq<char>>) -> Result<Seq<(Seq<char>, Seq<char>)>, FieldFault>
    decreases ls.len(),
{
    if ls.len() == 0 {
        Ok(seq![])
    } else {
        match fields_of_lines(ls.drop_last()) {
            Err(f) => Err(f),
            Ok(fs) => add_line(fs, ls.last()),
        }
    }
}

/// The fields of a marker text.
pub open spec fn fields_of(s: Seq<char>) -> Result<Seq<(Seq<char>, Seq<char>)>, FieldFault> {
    fields_of_lines(lines(s))
}

/// The text holding each of `ls` followed by `\n`.
pub open spec fn line_text(ls: Seq<Seq<char>>) -> Seq<char>
    decreases ls.len(),
{
    if ls.len() == 0 {
        seq![]
    } else {
        ls[0] + seq!['\n'] + line_text(ls.drop_first())
    }
}

/// Appending a line to the lines appends its text.
pub proof fn lemma_line_text_push(ls: Seq<Seq<char>>, l: Seq<char>)
    ensures
        line_text(ls.push(l)) == line_text(ls) + l + seq!['\n'],
    decreases ls.len(),
{
    if ls.len() == 0 {
        assert(line_text(ls.push(l).drop_first()) =~= Seq::<char>::empty());
        assert(line_text(ls.push(l)) =~= line_text(ls) + l + seq!['\n']);
    } else {
        assert(ls.push(l).drop_first() =~= ls.drop_first().push(l));
        lemma_line_text_push(ls.drop_first(), l);
        assert(line_text(ls.push(l)) =~= line_text(ls) + l + seq!['\n']);
    }
}

/// Appends the line `name=value` and its `\n` to `out`, whose text is the
/// lines `ls`.
pub(crate) fn push_field_line(out: &mut Vec<char>, name: &str, value: &[char], Ghost(ls): Ghost<Seq<Seq<char>>>)
    requires
        old(out)@ == line_text(ls),
    ensures
        final(out)@ == line_text(ls.push(field_line(name@, value@))),
{
    crate::text::push_all(out, &crate::text::chars_of(name));
    out.push('=');
    crate::text::push_all(out, value);
    out.push('\n');
    proof {
        lemma_line_text_push(ls, field_line(name@, value@));
        assert(final(out)@ =~= line_text(ls) + field_line(name@, value@) + seq!['\n']);
    }
}

/// `l` can stand as one line: no `\n` in it and no `\r` at its end.
pub open spec fn plain_line(l: Seq<char>) -> bool {
    lacks(l, '\n') && !(l.len() > 0 && l.last() == '\r')
}

/// The line `name=value`.
pub open spec fn field_line(name: Seq<char>, value: Seq<char>) -> Seq<char> {
    name + seq!['='] + value
}

pub proof fn lemma_pos_of_concat(a: Seq<char>, b: Seq<char>, c: char)
    requires
        lacks(a, c),
    ensures
        pos_of(a + b, c) == a.len() + pos_of(b, c),
    decreases a.len(),
{
    if a.len() > 0 {
        assert((a + b).drop_first() =~= a.drop_first() + b);
        lemma_pos_of_concat(a.drop_first(), b, c);
    } else {
        assert(a + b =~= b);
    }
}

/// Splitting the text of plain lines gives the lines back.
pub proof fn lemma_lines_of_line_text(ls: Seq<Seq<char>>)
    requires
        forall|i: int| 0 <= i < ls.len() ==> plain_line(#[trigger] ls[i]),
    ensures
        lines(line_text(ls)) == ls,
    decreases ls.len(),
{
    if ls.len() > 0 {
        let l = ls[0];
        let rest = line_text(ls.drop_first());
        let s = line_text(ls);
        assert(s == l + (seq!['\n'] + rest));
        assert(plain_line(l));
        lemma_pos_of_concat(l, seq!['\n'] + rest, '\n');
        assert(pos_of(seq!['\n'] + rest, '\n') == 0);
        assert(s.subrange(0, l.len() as int) =~= l);
        assert(s.subrange(l.len() as int + 1, s.len() as int) =~= rest);
        assert(strip_cr(l) == l);
        lemma_lines_of_line_text(ls.drop_first());
        assert(lines(s) =~= seq![l] + ls.drop_first());
        assert(seq![l] + ls.drop_first() =~= ls);
    } else {
        assert(line_text(ls) =~= Seq::<char>::empty());
    }
}

/// A `name=value` line with a name free of `=` and a nonempty value adds that
/// field, when the name is new.
pub proof fn lemma_add_field_line(fs: Seq<(Seq<char>, Seq<char>)>, name: Seq<char>, value: Seq<char>)
    requires
        name.len() > 0,
        value.len() > 0,
        lacks(name, '='),
        lookup(fs, name) is None,
    ensures
        add_line(fs, field_line(name, value)) == Ok::<Seq<(Seq<char>, Seq<char>)>, FieldFault>(
            fs.push((name, value)),
        ),
{
    let line = field_line(name, value);
    assert(line == name + (seq!['='] + value));
    lemma_pos_of_concat(name, seq!['='] + value, '=');
    assert(pos_of(seq!['='] + value, '=') == 0);
    assert(line.subrange(0, name.len() as int) =~= name);
    assert(line.subrange(name.len() as int + 1, line.len() as int) =~= value);
}

/// The fields of lines in order, the last one pushed on the others.
pub proof fn lemma_fields_of_push(ls: Seq<Seq<char>>, l: Seq<char>)
    ensures
        fields_of_lines(ls.push(l)) == (match fields_of_lines(ls) {
            Err(f) => Err(f),
            Ok(fs) => add_line(fs, l),
        }),
{
    assert(ls.push(l).drop_last() =~= ls);
}

proof fn lemma_pos_of_step(s: Seq<char>, c: char, i: int)
    requires
        0 <= i < s.len(),
        s[i] != c,
    ensures
        pos_of(s.subrange(i, s.len() as int), c) == 1 + pos_of(s.subrange(i + 1, s.len() as int), c),
{
    assert(s.subrange(i, s.len() as int).drop_first() =~= s.subrange(i + 1, s.len() as int));
}

/// Offset of the first `c` in `s[from..]`, counted from `from`, or the
/// remaining length when absent.
pub fn position_from(s: &[char], from: usize, c: char) -> (r: usize)
    requires
        from <= s.len(),
    ensures
        r == pos_of(s@.subrange(from as int, s.len() as int), c),
        from + r <= s.len(),
{
    let n = s.len();
    let mut i: usize = from;
    while i < n && s[i] != c
        invariant
            from <= i <= n,
            n == s.len(),
            pos_of(s@.subrange(from as int, n as int), c) == (i - from) + pos_of(
                s@.subrange(i as int, n as int),
                c,
            ),
        decreases n - i,
    {
        proof { lemma_pos_of_step(s@, c, i as int); }
        i = i + 1;
    }
    i - from
}

fn lookup_exec(fs: &Vec<(Vec<char>, Vec<char>)>, name: &[char]) -> (r: Option<usize>)
    ensures
        match r {
            Some(k) => k < fs.len() && lookup(field_views(fs@), name@) == Some(fs@[k as int].1@),
            None => lookup(field_views(fs@), name@) is None,
        },
{
    let mut k: usize = 0;
    assert(field_views(fs@).subrange(0, fs.len() as int) =~= field_views(fs@));
    while k < fs.len()
        invariant
            k <= fs.len(),
            lookup(field_views(fs@), name@) == lookup(field_views(fs@).subrange(k as int, fs.len() as int), name@),
        decreases fs.len() - k,
    {
        let ghost rest = field_views(fs@).subrange(k as int, fs.len() as int);
        assert(rest[0] == (fs@[k as int].0@, fs@[k as int].1@));
        if chars_equal(&fs[k].0, name) {
            return Some(k);
        }
        assert(rest.drop_first() =~= field_views(fs@).subrange(k + 1, fs.len() as int));
        k = k + 1;
    }
    None
}

/// The two character sequences are equal.
pub fn chars_equal(a: &[char], b: &[char]) -> (r: bool)
    ensures
        r == (a@ == b@),
{
    if a.len() != b.len() {
        return false;
    }
    let mut i: usize = 0;
    while i < a.len()
        invariant
            a.len() == b.len(),
            i <= a.len(),
            forall|j: int| 0 <= j < i ==> a@[j] == b@[j],
        decreases a.len() - i,
    {
        if a[i] != b[i] {
            return false;
        }
        i = i + 1;
    }
    assert(a@ =~= b@);
    true
}

/// The abstract pairs of a vector of fields.
pub open spec fn field_views(fs: Seq<(Vec<char>, Vec<char>)>) -> Seq<(Seq<char>, Seq<char>)> {
    fs.map_values(|p: (Vec<char>, Vec<char>)| (p.0@, p.1@))
}

/// Index of the value recorded for `name` in `fs`.
pub fn find_field(fs: &Vec<(Vec<char>, Vec<char>)>, name: &[char]) -> (r: Option<usize>)
    ensures
        match r {
            Some(k) => k < fs.len() && lookup(field_views(fs@), name@) == Some(fs@[k as int].1@),
            None => lookup(field_views(fs@), name@) is None,
        },
{
    lookup_exec(fs, name)
}

proof fn lemma_lines_step(s: Seq<char>, from: int, e: int)
    requires
        0 <= from < s.len(),
        e == pos_of(s.subrange(from, s.len() as int), '\n'),
        from + e < s.len(),
    ensures
        lines(s.subrange(from, s.len() as int)) == seq![strip_cr(s.subrange(from, from + e))] + lines(
            s.subrange(from + e + 1, s.len() as int),
        ),
{
    let t = s.subrange(from, s.len() as int);
    assert(t.subrange(0, e) =~= s.subrange(from, from + e));
    assert(t.subrange(e + 1, t.len() as int) =~= s.subrange(from + e + 1, s.len() as int));
}

proof fn lemma_fields_err_sticks(ls: Seq<Seq<char>>, rest: Seq<Seq<char>>)
    requires
        fields_of_lines(ls) is Err,
    ensures
        fields_of_lines(ls + rest) == fields_of_lines(ls),
    decreases rest.len(),
{
    if rest.len() > 0 {
        lemma_fields_err_sticks(ls, rest.drop_last());
        assert((ls + rest).drop_last() =~= ls + rest.drop_last());
    } else {
        assert(ls + rest =~= ls);
    }
}

/// Parses the `name=value` lines of a marker text.
pub fn parse_fields(s: &[char]) -> (r: Result<Vec<(Vec<char>, Vec<char>)>, FieldFault>)
    ensures
        match r {
            Ok(fs) => fields_of(s@) == Ok::<Seq<(Seq<char>, Seq<char>)>, FieldFault>(field_views(fs@)),
            Err(f) => fields_of(s@) == Err::<Seq<(Seq<char>, Seq<char>)>, FieldFault>(f),
        },
{
    let n = s.len();
    let mut fs: Vec<(Vec<char>, Vec<char>)> = Vec::new();
    let mut from: usize = 0;
    let ghost done: Seq<Seq<char>> = seq![];
    assert(s@.subrange(0, n as int) =~= s@);
    assert(field_views(fs@) =~= Seq::<(Seq<char>, Seq<char>)>::empty());
    assert(done + lines(s@) =~= lines(s@));
    while from < n
        invariant
            from <= n,
            n == s.len(),
            done + lines(s@.subrange(from as int, n as int)) == lines(s@),
            fields_of_lines(done) == Ok::<Seq<(Seq<char>, Seq<char>)>, FieldFault>(field_views(fs@)),
        decreases n - from,
    {
        let e = position_from(s, from, '\n');
        let line_end = from + e;
        let mut stop = line_end;
        if line_end < n && stop > from && s[stop - 1] == '\r' {
            stop = stop - 1;
        }
        let line = slice_chars(s, from, stop);
        let ghost rest_lines = lines(s@.subrange(from as int, n as int));
        proof {
            if line_end < n {
                lemma_lines_step(s@, from as int, e as int);
                assert(line@ == strip_cr(s@.subrange(from as int, from + e)));
            } else {
                assert(line@ =~= s@.subrange(from as int, n as int));
                assert(rest_lines == seq![line@]);
            }
            assert(rest_lines[0] == line@);
        }
        let eq = position_from(&line, 0, '=');
        proof {
            assert(line@.subrange(0, line@.len() as int) =~= line@);
        }
        let ghost prev = field_views(fs@);
        if eq >= line.len() {
            proof {
                lemma_fields_of_push(done, line@);
                lemma_fields_err_sticks(done.push(line@), rest_lines.drop_first());
                assert(done.push(line@) + rest_lines.drop_first() =~= done + rest_lines);
            }
            return Err(FieldFault::NoSeparator);
        }
        let name = slice_chars(&line, 0, eq);
        let value = slice_chars(&line, eq + 1, line.len());
        if name.len() == 0 || value.len() == 0 || find_field(&fs, &name).is_some() {
            proof {
                lemma_fields_of_push(done, line@);
                lemma_fields_err_sticks(done.push(line@), rest_lines.drop_first());
                assert(done.push(line@) + rest_lines.drop_first() =~= done + rest_lines);
            }
            return Err(FieldFault::EmptyOrDuplicate);
        }
        fs.push((name, value));
        proof {
            lemma_fields_of_push(done, line@);
            assert(field_views(fs@) =~= prev.push((name@, value@)));
            done = done.push(line@);
        }
        if line_end < n {
            from = line_end + 1;
            proof {
                assert(done + lines(s@.subrange(from as int, n as int)) =~= done.drop_last() + rest_lines);
            }
        } else {
            from = n;
            proof {
                assert(lines(s@.subrange(n as int, n as int)) =~= Seq::<Seq<char>>::empty());
                assert(done + lines(s@.subrange(from as int, n as int)) =~= done.drop_last() + rest_lines);
            }
        }
    }
    proof {
        assert(lines(s@.subrange(n as int, n as int)) =~= Seq::<Seq<char>>::empty());
        assert(done =~= lines(s@));
    }
    Ok(fs)
}

} // verus!
