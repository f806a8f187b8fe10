//! Making arbitrary metadata text safe to use as one path segment.
use crate::text::{chars_of, strip_nul, without_nul};
use vstd::prelude::*;

verus! {

/// The characters that a path segment keeps as they are: ASCII letters and
/// digits, the full stop and the hyphen.
pub open spec fn is_kept(c: char) -> bool {
    ||| 'A' <= c <= 'Z'
    ||| 'a' <= c <= 'z'
    ||| '0' <= c <= '9'
    ||| c == '.'
    ||| c == '-'
}

/// The characters that can occur in a sanitized segment.
pub open spec fn is_segment_char(c: char) -> bool {
    is_kept(c) || c == '_'
}

/// `s` with every maximal run of characters that are not kept replaced by a
/// single underscore.
pub open spec fn collapsed(s: Seq<char>) -> Seq<char>
    decreases s.len(),
{
    if s.len() == 0 {
        Seq::empty()
    } else {
        let head = collapsed(s.drop_last());
        if is_kept(s.last()) {
            head.push(s.last())
        } else if s.len() >= 2 && !is_kept(s[s.len() - 2]) {
            head
        } else {
            head.push('_')
        }
    }
}

/// The path segment made from `s`: NUL characters are dropped, then every
/// maximal run of characters that are not kept becomes one underscore.
pub open spec fn sanitized(s: Seq<char>) -> Seq<char> {
    collapsed(without_nul(s))
}

/// Whether `c` is kept as it is in a path segment.
pub fn is_kept_char(c: char) -> (b: bool)
    ensures
        b == is_kept(c),
{
    ('A' <= c && c <= 'Z') || ('a' <= c && c <= 'z') || ('0' <= c && c <= '9') || c == '.' || c
        == '-'
}

/// A collapsed sequence holds segment characters only, and is empty only if
/// the sequence it was made from is.
pub proof fn lemma_collapsed_is_safe(s: Seq<char>)
    ensures
        forall|i: int| 0 <= i < collapsed(s).len() ==> is_segment_char(#[trigger] collapsed(s)[i]),
        collapsed(s).len() <= s.len(),
        collapsed(s).len() == 0 <==> s.len() == 0,
    decreases s.len(),
{
    if s.len() > 0 {
        lemma_collapsed_is_safe(s.drop_last());
    }
}

/// Sanitization safety: for every `s`, the segment made from it holds only
/// ASCII letters, digits, `.`, `-` and `_`; in particular no NUL and no path
/// separator. It is empty exactly when `s` holds nothing but NUL characters.
pub proof fn lemma_sanitized_is_safe(s: Seq<char>)
    ensures
        forall|i: int| 0 <= i < sanitized(s).len() ==> is_segment_char(#[trigger] sanitized(s)[i]),
        !sanitized(s).contains('\0'),
        !sanitized(s).contains('/'),
        !sanitized(s).contains('\\'),
        sanitized(s).len() == 0 <==> without_nul(s).len() == 0,
{
    lemma_collapsed_is_safe(without_nul(s));
    let r = sanitized(s);
    assert forall|c: char| r.contains(c) implies is_segment_char(c) by {
        let i = choose|i: int| 0 <= i < r.len() && r[i] == c;
        assert(is_segment_char(r[i]));
    }
}

/// What is left of a text without its NUL characters holds none.
pub proof fn lemma_without_nul_has_none(s: Seq<char>)
    ensures
        !without_nul(s).contains('\0'),
    decreases s.len(),
{
    if s.len() > 0 {
        lemma_without_nul_has_none(s.drop_last());
        let head = without_nul(s.drop_last());
        if s.last() != '\0' {
            assert forall|c: char| head.push(s.last()).contains(c) implies c != '\0' by {
                let i = choose|i: int| 0 <= i < head.push(s.last()).len() && head.push(s.last())[i] == c;
                if i < head.len() {
                    assert(head[i] == c);
                    assert(head.contains(c));
                }
            }
        }
    }
}

/// Removing NUL characters from two texts and joining them is the same as
/// joining them first.
pub proof fn lemma_without_nul_concat(a: Seq<char>, b: Seq<char>)
    ensures
        without_nul(a + b) == without_nul(a) + without_nul(b),
    decreases b.len(),
{
    if b.len() == 0 {
        assert(a + b == a);
        assert(without_nul(a) + without_nul(b) == without_nul(a));
    } else {
        lemma_without_nul_concat(a, b.drop_last());
        assert((a + b).drop_last() == a + b.drop_last());
        assert((a + b).last() == b.last());
        if b.last() != '\0' {
            assert((without_nul(a) + without_nul(b.drop_last())).push(b.last()) == without_nul(a)
                + without_nul(b.drop_last()).push(b.last()));
        }
    }
}

/// A text without NUL characters is left as it is.
pub proof fn lemma_without_nul_of_clean(s: Seq<char>)
    requires
        !s.contains('\0'),
    ensures
        without_nul(s) == s,
    decreases s.len(),
{
    if s.len() > 0 {
        assert(s.last() == s[s.len() - 1]);
        assert(s.contains(s[s.len() - 1]));
        assert forall|c: char| s.drop_last().contains(c) implies s.contains(c) by {
            let i = choose|i: int| 0 <= i < s.drop_last().len() && s.drop_last()[i] == c;
            assert(s[i] == c);
        }
        lemma_without_nul_of_clean(s.drop_last());
        assert(s.drop_last().push(s.last()) == s);
    }
}

/// Where two texts meet at a kept character, or one of them is empty, the
/// runs of the one do not reach into the other: they collapse apart.
pub proof fn lemma_collapsed_concat(a: Seq<char>, b: Seq<char>)
    requires
        a.len() == 0 || b.len() == 0 || is_kept(a.last()) || is_kept(b[0]),
    ensures
        collapsed(a + b) == collapsed(a) + collapsed(b),
    decreases b.len(),
{
    if b.len() == 0 {
        assert(a + b == a);
        assert(collapsed(a) + collapsed(b) == collapsed(a));
    } else {
        let s = a + b;
        assert(s.drop_last() == a + b.drop_last());
        assert(s.last() == b.last());
        if b.len() >= 2 {
            assert(b.drop_last()[0] == b[0]);
            assert(s[s.len() - 2] == b[b.len() - 2]);
        } else {
            assert(b.drop_last().len() == 0);
            if a.len() > 0 {
                assert(s[s.len() - 2] == a.last());
            }
        }
        lemma_collapsed_concat(a, b.drop_last());
        let head = collapsed(a) + collapsed(b.drop_last());
        if is_kept(b.last()) {
            assert(head.push(b.last()) == collapsed(a) + collapsed(b.drop_last()).push(b.last()));
        } else if b.len() >= 2 && !is_kept(b[b.len() - 2]) {
        } else {
            assert(head.push('_') == collapsed(a) + collapsed(b.drop_last()).push('_'));
            if b.len() == 1 {
                assert(b[0] == b.last());
            }
        }
    }
}

/// A text of kept characters is its own segment.
pub proof fn lemma_sanitized_of_kept(s: Seq<char>)
    requires
        forall|i: int| 0 <= i < s.len() ==> is_kept(#[trigger] s[i]),
    ensures
        sanitized(s) == s,
    decreases s.len(),
{
    assert(!s.contains('\0')) by {
        if s.contains('\0') {
            let i = choose|i: int| 0 <= i < s.len() && s[i] == '\0';
            assert(is_kept(s[i]));
        }
    }
    lemma_without_nul_of_clean(s);
    lemma_collapsed_of_kept(s);
}

/// A text of kept characters has no run to collapse.
proof fn lemma_collapsed_of_kept(s: Seq<char>)
    requires
        forall|i: int| 0 <= i < s.len() ==> is_kept(#[trigger] s[i]),
    ensures
        collapsed(s) == s,
    decreases s.len(),
{
    if s.len() > 0 {
        assert(is_kept(s[s.len() - 1]));
        lemma_collapsed_of_kept(s.drop_last());
        assert(s.drop_last().push(s.last()) == s);
    }
}

/// A kept character between two texts keeps them apart: the segment of the
/// whole is made of the segments of the two, with the character between them.
pub proof fn lemma_sanitized_around_kept(a: Seq<char>, c: char, b: Seq<char>)
    requires
        is_kept(c),
    ensures
        sanitized(a + seq![c] + b) == sanitized(a) + seq![c] + sanitized(b),
{
    let wa = without_nul(a);
    let wb = without_nul(b);
    lemma_without_nul_concat(a + seq![c], b);
    lemma_without_nul_concat(a, seq![c]);
    assert(without_nul(seq![c]) == seq![c]) by {
        assert(seq![c].drop_last() == Seq::<char>::empty());
        assert(without_nul(Seq::<char>::empty()) == Seq::<char>::empty());
        assert(Seq::<char>::empty().push(c) == seq![c]);
    }
    assert(without_nul(a + seq![c] + b) == wa + seq![c] + wb);
    assert((wa + seq![c]).last() == c);
    lemma_collapsed_concat(wa + seq![c], wb);
    assert(seq![c][0] == c);
    lemma_collapsed_concat(wa, seq![c]);
    assert(collapsed(seq![c]) == seq![c]) by {
        assert(seq![c].drop_last() == Seq::<char>::empty());
        assert(collapsed(Seq::<char>::empty()) == Seq::<char>::empty());
        assert(Seq::<char>::empty().push(c) == seq![c]);
    }
}

/// Whether no two characters that are not kept stand side by side in `s`.
pub open spec fn runs_are_single(s: Seq<char>) -> bool {
    forall|i: int| 0 <= i < s.len() - 1 ==> is_kept(#[trigger] s[i]) || is_kept(s[i + 1])
}

/// A collapsed text ends as the text ends that it was made from: with the
/// same kept character, or with the underscore of its last run. Its runs are
/// single characters.
proof fn lemma_collapsed_shape(s: Seq<char>)
    ensures
        runs_are_single(collapsed(s)),
        s.len() > 0 ==> collapsed(s).len() > 0 && collapsed(s).last() == (if is_kept(s.last()) {
            s.last()
        } else {
            '_'
        }),
    decreases s.len(),
{
    if s.len() > 0 {
        let head = collapsed(s.drop_last());
        lemma_collapsed_shape(s.drop_last());
        lemma_collapsed_is_safe(s.drop_last());
        if s.len() >= 2 {
            assert(s.drop_last().last() == s[s.len() - 2]);
        }
        let r = collapsed(s);
        assert forall|i: int| 0 <= i < r.len() - 1 implies is_kept(#[trigger] r[i]) || is_kept(
            r[i + 1],
        ) by {
            if i + 1 < head.len() {
                assert(r[i] == head[i]);
                assert(r[i + 1] == head[i + 1]);
                assert(is_kept(head[i]) || is_kept(head[i + 1]));
            } else {
                assert(r.len() == head.len() + 1);
                assert(r[i] == head.last());
            }
        }
    }
}

/// A text of segment characters whose runs are single characters is left as
/// it is.
proof fn lemma_collapsed_of_collapsed(t: Seq<char>)
    requires
        forall|i: int| 0 <= i < t.len() ==> is_segment_char(#[trigger] t[i]),
        runs_are_single(t),
    ensures
        collapsed(t) == t,
    decreases t.len(),
{
    if t.len() > 0 {
        let head = t.drop_last();
        assert forall|i: int| 0 <= i < head.len() - 1 implies is_kept(#[trigger] head[i])
            || is_kept(head[i + 1]) by {
            assert(head[i] == t[i]);
            assert(head[i + 1] == t[i + 1]);
        }
        assert forall|i: int| 0 <= i < head.len() implies is_segment_char(#[trigger] head[i]) by {
            assert(head[i] == t[i]);
        }
        lemma_collapsed_of_collapsed(head);
        assert(is_segment_char(t[t.len() - 1]));
        if t.len() >= 2 {
            assert(is_kept(t[t.len() - 2]) || is_kept(t[t.len() - 2 + 1]));
        }
        assert(head.push(t.last()) == t);
    }
}

/// Sanitizing is idempotent: a segment is its own segment.
pub proof fn lemma_sanitized_is_idempotent(s: Seq<char>)
    ensures
        sanitized(sanitized(s)) == sanitized(s),
{
    let r = sanitized(s);
    lemma_sanitized_is_safe(s);
    lemma_without_nul_of_clean(r);
    lemma_collapsed_shape(without_nul(s));
    lemma_collapsed_of_collapsed(r);
}

/// Replaces the characters that a path segment cannot hold: NUL characters are
/// dropped, and every maximal run of characters other than ASCII letters,
/// digits, `.` and `-` becomes a single `_`.
pub fn sanitize(s: &str) -> (r: String)
    ensures
        r@ == sanitized(s@),
        forall|i: int| 0 <= i < r@.len() ==> is_segment_char(#[trigger] r@[i]),
        !r@.contains('\0'),
        !r@.contains('/'),
        r@.len() == 0 <==> without_nul(s@).len() == 0,
{
    let clean = strip_nul(s);
    let cs = chars_of(clean.as_str());
    let mut r = String::new();
    let mut in_run = false;
    let mut i: usize = 0;
    while i < cs.len()
        invariant
            i <= cs.len(),
            r@ == collapsed(cs@.take(i as int)),
            in_run == (i > 0 && !is_kept(cs@[i - 1])),
        decreases cs.len() - i,
    {
        let c = cs[i];
        proof {
            let t = cs@.take(i + 1);
            assert(t.drop_last() == cs@.take(i as int));
            assert(t.last() == c);
            if i > 0 {
                assert(t[t.len() - 2] == cs@[i - 1]);
            }
        }
        if is_kept_char(c) {
            r.push(c);
            in_run = false;
        } else {
            if !in_run {
                r.push('_');
            }
            in_run = true;
        }
        i += 1;
    }
    proof {
        assert(cs@.take(cs.len() as int) == cs@);
        lemma_sanitized_is_safe(s@);
    }
    r
}

} // verus!
