//! The order of texts. Rust orders `str` and `String` lexicographically by
//! their UTF-8 bytes; sorted sets of texts are kept in that order.

use vstd::prelude::*;
use vstd::utf8::{encode_utf8, encode_utf8_decode_utf8};

use crate::text::same_text;

verus! {

/// `a` comes strictly before `b` in lexicographic byte order: a proper
/// prefix comes first, otherwise the first differing byte decides.
pub open spec fn bytes_before(a: Seq<u8>, b: Seq<u8>) -> bool
    decreases a.len(),
{
    if a.len() == 0 {
        b.len() > 0
    } else if b.len() == 0 {
        false
    } else if a[0] != b[0] {
        a[0] < b[0]
    } else {
        bytes_before(a.drop_first(), b.drop_first())
    }
}

/// Text `a` sorts strictly before text `b`, as the order of `str` does.
pub open spec fn text_before(a: Seq<char>, b: Seq<char>) -> bool {
    bytes_before(encode_utf8(a), encode_utf8(b))
}

/// The characters of each string.
pub open spec fn texts_of(v: Seq<String>) -> Seq<Seq<char>> {
    v.map_values(|s: String| s@)
}

/// Strictly increasing texts: sorted, and no text occurs twice.
pub open spec fn sorted_texts(s: Seq<Seq<char>>) -> bool {
    forall|i: int, j: int| 0 <= i < j < s.len() ==> text_before(#[trigger] s[i], #[trigger] s[j])
}

pub proof fn lemma_bytes_irreflexive(a: Seq<u8>)
    ensures
        !bytes_before(a, a),
    decreases a.len(),
{
    if a.len() > 0 {
        lemma_bytes_irreflexive(a.drop_first());
    }
}

pub proof fn lemma_bytes_transitive(a: Seq<u8>, b: Seq<u8>, c: Seq<u8>)
    requires
        bytes_before(a, b),
        bytes_before(b, c),
    ensures
        bytes_before(a, c),
    decreases a.len(),
{
    if a.len() > 0 && a[0] == b[0] && b[0] == c[0] {
        lemma_bytes_transitive(a.drop_first(), b.drop_first(), c.drop_first());
    }
}

pub proof fn lemma_bytes_total(a: Seq<u8>, b: Seq<u8>)
    requires
        a != b,
    ensures
        bytes_before(a, b) || bytes_before(b, a),
    decreases a.len(),
{
    if a.len() == 0 {
        assert(b.len() > 0) by {
            if b.len() == 0 {
                assert(a =~= b);
            }
        }
    } else if b.len() > 0 && a[0] == b[0] {
        if a.drop_first() == b.drop_first() {
            assert(a =~= seq![a[0]] + a.drop_first());
            assert(b =~= seq![b[0]] + b.drop_first());
        }
        lemma_bytes_total(a.drop_first(), b.drop_first());
    }
}

/// Strict text order is irreflexive.
pub proof fn lemma_text_irreflexive(a: Seq<char>)
    ensures
        !text_before(a, a),
{
    lemma_bytes_irreflexive(encode_utf8(a));
}

/// Strict text order is transitive.
pub proof fn lemma_text_transitive(a: Seq<char>, b: Seq<char>, c: Seq<char>)
    requires
        text_before(a, b),
        text_before(b, c),
    ensures
        text_before(a, c),
{
    lemma_bytes_transitive(encode_utf8(a), encode_utf8(b), encode_utf8(c));
}

/// Distinct texts are ordered one way or the other.
pub proof fn lemma_text_total(a: Seq<char>, b: Seq<char>)
    requires
        a != b,
    ensures
        text_before(a, b) || text_before(b, a),
{
    encode_utf8_decode_utf8(a);
    encode_utf8_decode_utf8(b);
    lemma_bytes_total(encode_utf8(a), encode_utf8(b));
}

proof fn lemma_sorted_member_after_first(a: Seq<Seq<char>>, x: Seq<char>)
    requires
        sorted_texts(a),
        a.len() > 0,
        a.drop_first().contains(x),
    ensures
        text_before(a[0], x) && x != a[0],
{
    let k = choose|k: int| 0 <= k < a.drop_first().len() && a.drop_first()[k] == x;
    assert(a.drop_first()[k] == a[k + 1]);
    assert(a[k + 1] == x);
    assert(text_before(a[0], a[k + 1]));
    lemma_text_irreflexive(a[0]);
}

proof fn lemma_sorted_first_is_least(a: Seq<Seq<char>>, x: Seq<char>)
    requires
        sorted_texts(a),
        a.contains(x),
        x != a[0],
    ensures
        text_before(a[0], x),
{
    let k = choose|k: int| 0 <= k < a.len() && a[k] == x;
    assert(k != 0);
    assert(text_before(a[0], a[k]));
}

/// A strictly increasing list of texts is determined by its members: two
/// such lists with the same members are equal.
pub proof fn law_sorted_texts_unique(a: Seq<Seq<char>>, b: Seq<Seq<char>>)
    requires
        sorted_texts(a),
        sorted_texts(b),
        forall|x: Seq<char>| a.contains(x) <==> b.contains(x),
    ensures
        a == b,
    decreases a.len(),
{
    if a.len() == 0 {
        if b.len() > 0 {
            assert(b.contains(b[0]));
        }
        assert(a =~= b);
    } else {
        assert(a.contains(a[0]));
        assert(b.contains(a[0]));
        assert(b.len() > 0);
        assert(b.contains(b[0]));
        if a[0] != b[0] {
            lemma_sorted_first_is_least(a, b[0]);
            lemma_sorted_first_is_least(b, a[0]);
            lemma_text_transitive(a[0], b[0], a[0]);
            lemma_text_irreflexive(a[0]);
        }
        let a2 = a.drop_first();
        let b2 = b.drop_first();
        assert forall|i: int, j: int| 0 <= i < j < a2.len() implies text_before(#[trigger] a2[i], #[trigger] a2[j]) by {
            assert(a2[i] == a[i + 1] && a2[j] == a[j + 1]);
        }
        assert forall|i: int, j: int| 0 <= i < j < b2.len() implies text_before(#[trigger] b2[i], #[trigger] b2[j]) by {
            assert(b2[i] == b[i + 1] && b2[j] == b[j + 1]);
        }
        assert forall|x: Seq<char>| a2.contains(x) <==> b2.contains(x) by {
            if a2.contains(x) {
                lemma_sorted_member_after_first(a, x);
                let k = choose|k: int| 0 <= k < a2.len() && a2[k] == x;
                assert(a.contains(x)) by { assert(a[k + 1] == x); }
                let m = choose|m: int| 0 <= m < b.len() && b[m] == x;
                assert(m != 0);
                assert(b2[m - 1] == x);
            }
            if b2.contains(x) {
                lemma_sorted_member_after_first(b, x);
                let k = choose|k: int| 0 <= k < b2.len() && b2[k] == x;
                assert(b.contains(x)) by { assert(b[k + 1] == x); }
                let m = choose|m: int| 0 <= m < a.len() && a[m] == x;
                assert(m != 0);
                assert(a2[m - 1] == x);
            }
        }
        law_sorted_texts_unique(a2, b2);
        assert(a =~= seq![a[0]] + a2);
        assert(b =~= seq![b[0]] + b2);
    }
}

/// Whether text `a` sorts strictly before text `b`.
pub fn text_less(a: &str, b: &str) -> (r: bool)
    ensures
        r == text_before(a@, b@),
{
    let x = a.as_bytes();
    let y = b.as_bytes();
    let mut i: usize = 0;
    assert(x@.subrange(0, x@.len() as int) =~= x@);
    assert(y@.subrange(0, y@.len() as int) =~= y@);
    while i < x.len() && i < y.len() && x[i] == y[i]
        invariant
            i <= x.len(),
            i <= y.len(),
            x@ == encode_utf8(a@),
            y@ == encode_utf8(b@),
            bytes_before(x@, y@) == bytes_before(
                x@.subrange(i as int, x@.len() as int),
                y@.subrange(i as int, y@.len() as int),
            ),
        decreases x.len() - i,
    {
        proof {
            let xs = x@.subrange(i as int, x@.len() as int);
            let ys = y@.subrange(i as int, y@.len() as int);
            assert(xs.drop_first() =~= x@.subrange(i + 1, x@.len() as int));
            assert(ys.drop_first() =~= y@.subrange(i + 1, y@.len() as int));
        }
        i = i + 1;
    }
    proof {
        let xs = x@.subrange(i as int, x@.len() as int);
        let ys = y@.subrange(i as int, y@.len() as int);
        if i < x.len() && i < y.len() {
            assert(xs[0] == x@[i as int] && ys[0] == y@[i as int]);
        }
    }
    if i == x.len() {
        i < y.len()
    } else if i == y.len() {
        false
    } else {
        x[i] < y[i]
    }
}

/// Adds `s` to the strictly increasing texts `v`, where it is not already.
pub fn insert_sorted(v: &mut Vec<String>, s: String)
    requires
        sorted_texts(texts_of(old(v)@)),
    ensures
        sorted_texts(texts_of(final(v)@)),
        forall|x: Seq<char>| #[trigger] texts_of(final(v)@).contains(x) <==> (texts_of(old(v)@).contains(x)
            || x == s@),
{
    let ghost old_t = texts_of(v@);
    let mut i: usize = 0;
    while i < v.len() && text_less(v[i].as_str(), s.as_str())
        invariant
            i <= v.len(),
            v@ == old(v)@,
            old_t == texts_of(v@),
            sorted_texts(old_t),
            forall|k: int| 0 <= k < i ==> text_before(#[trigger] old_t[k], s@),
        decreases v.len() - i,
    {
        i = i + 1;
    }
    if i < v.len() && same_text(v[i].as_str(), s.as_str()) {
        proof {
            assert(old_t[i as int] == s@);
        }
        return;
    }
    proof {
        if i < v.len() {
            assert(old_t[i as int] == v@[i as int]@);
            lemma_text_total(old_t[i as int], s@);
        }
    }
    v.insert(i, s);
    proof {
        let t = texts_of(v@);
        assert(t =~= old_t.insert(i as int, s@));
        assert forall|p: int, q: int| 0 <= p < q < t.len() implies text_before(#[trigger] t[p], #[trigger] t[q]) by {
            if q == i {
                assert(t[p] == old_t[p]);
            } else if p == i {
                assert(t[q] == old_t[q - 1]);
                if q - 1 > i {
                    assert(text_before(old_t[i as int], old_t[q - 1]));
                    lemma_text_transitive(s@, old_t[i as int], old_t[q - 1]);
                }
            } else if p < i && q < i {
                assert(t[p] == old_t[p] && t[q] == old_t[q]);
            } else if p < i {
                assert(t[p] == old_t[p] && t[q] == old_t[q - 1]);
                assert(text_before(old_t[p], old_t[q - 1]));
            } else {
                assert(t[p] == old_t[p - 1] && t[q] == old_t[q - 1]);
            }
        }
        assert forall|x: Seq<char>| #[trigger] t.contains(x) <==> (old_t.contains(x) || x == s@) by {
            if t.contains(x) {
                let k = choose|k: int| 0 <= k < t.len() && t[k] == x;
                if k < i {
                    assert(old_t[k] == x);
                } else if k > i {
                    assert(old_t[k - 1] == x);
                }
            }
            if old_t.contains(x) {
                let k = choose|k: int| 0 <= k < old_t.len() && old_t[k] == x;
                if k < i {
                    assert(t[k] == x);
                } else {
                    assert(t[k + 1] == x);
                }
            }
            if x == s@ {
                assert(t[i as int] == x);
            }
        }
    }
}

/// Texts in nondecreasing order: no text comes strictly before an earlier one.
pub open spec fn ordered_texts(s: Seq<Seq<char>>) -> bool {
    forall|i: int, j: int| 0 <= i < j < s.len() ==> !text_before(#[trigger] s[j], #[trigger] s[i])
}

fn insert_ordered(v: &mut Vec<String>, s: String)
    requires
        ordered_texts(texts_of(old(v)@)),
    ensures
        ordered_texts(texts_of(final(v)@)),
        final(v)@.to_multiset() == old(v)@.to_multiset().insert(s),
{
    let ghost old_t = texts_of(v@);
    let ghost old_v = v@;
    let mut i: usize = 0;
    while i < v.len() && !text_less(s.as_str(), v[i].as_str())
        invariant
            i <= v.len(),
            v@ == old_v,
            old_t == texts_of(v@),
            ordered_texts(old_t),
            forall|k: int| 0 <= k < i ==> !text_before(s@, #[trigger] old_t[k]),
        decreases v.len() - i,
    {
        i = i + 1;
    }
    proof {
        if i < v.len() {
            assert(old_t[i as int] == v@[i as int]@);
        }
    }
    v.insert(i, s);
    proof {
        broadcast use vstd::seq_lib::group_to_multiset_ensures;

        let t = texts_of(v@);
        assert(t =~= old_t.insert(i as int, s@));
        assert forall|p: int, q: int| 0 <= p < q < t.len() implies !text_before(#[trigger] t[q], #[trigger] t[p]) by {
            if q == i {
                assert(t[p] == old_t[p]);
            } else if p == i {
                assert(t[q] == old_t[q - 1]);
                if text_before(old_t[q - 1], s@) {
                    if q - 1 > i {
                        assert(!text_before(old_t[q - 1], old_t[i as int]));
                        lemma_text_transitive(old_t[q - 1], s@, old_t[i as int]);
                    } else {
                        lemma_text_transitive(old_t[q - 1], s@, old_t[q - 1]);
                        lemma_text_irreflexive(old_t[q - 1]);
                    }
                }
            } else if p < i && q < i {
                assert(t[p] == old_t[p] && t[q] == old_t[q]);
            } else if p < i {
                assert(t[p] == old_t[p] && t[q] == old_t[q - 1]);
                assert(!text_before(old_t[q - 1], old_t[p]));
            } else {
                assert(t[p] == old_t[p - 1] && t[q] == old_t[q - 1]);
            }
        }
    }
}

/// The texts sorted as `str` orders them, repeats kept.
pub fn sort_texts(items: Vec<String>) -> (r: Vec<String>)
    ensures
        ordered_texts(texts_of(r@)),
        r@.to_multiset() == items@.to_multiset(),
{
    let mut out: Vec<String> = Vec::new();
    let mut rest = items;
    proof {
        broadcast use vstd::seq_lib::group_to_multiset_ensures;
        broadcast use vstd::multiset::group_multiset_axioms;

        assert(out@.to_multiset() =~= vstd::multiset::Multiset::<String>::empty());
        assert(out@.to_multiset().add(rest@.to_multiset()) =~= rest@.to_multiset());
    }
    while rest.len() > 0
        invariant
            ordered_texts(texts_of(out@)),
            out@.to_multiset().add(rest@.to_multiset()) == items@.to_multiset(),
        decreases rest.len(),
    {
        let ghost before_rest = rest@;
        let ghost before_out = out@;
        let s = rest.pop().unwrap();
        proof {
            broadcast use vstd::seq_lib::group_to_multiset_ensures;

            assert(before_rest =~= rest@.push(s));
        }
        insert_ordered(&mut out, s);
        proof {
            broadcast use vstd::multiset::group_multiset_axioms;

            assert(out@.to_multiset().add(rest@.to_multiset()) =~= before_out.to_multiset().add(
                before_rest.to_multiset(),
            ));
        }
    }
    proof {
        broadcast use vstd::seq_lib::group_to_multiset_ensures;
        broadcast use vstd::multiset::group_multiset_axioms;

        assert(rest@.to_multiset() =~= vstd::multiset::Multiset::<String>::empty());
        assert(out@.to_multiset().add(rest@.to_multiset()) =~= out@.to_multiset());
    }
    out
}

} // verus!
