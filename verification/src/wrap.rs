//! Line splitting and word wrapping.
//!
//! Splitting a payload into its newline-delimited segments is this
//! library's own logic and is verified against `spec_lines`.  Word
//! wrapping inside a segment is delegated to the `textwrap` crate, whose
//! result is named by `wrap_of`.

use vstd::prelude::*;

verus! {

/// A line with a trailing carriage return removed.
pub open spec fn strip_cr(l: Seq<char>) -> Seq<char> {
    if l.len() > 0 && l[l.len() - 1] == '\r' {
        l.drop_last()
    } else {
        l
    }
}

/// Position of the first newline in `s`, or `s.len()` if there is none.
pub open spec fn first_newline(s: Seq<char>) -> nat
    decreases s.len(),
{
    if s.len() == 0 {
        0
    } else if s[0] == '\n' {
        0
    } else {
        1 + first_newline(s.drop_first())
    }
}

/// The newline-delimited segments of `s`, each with a trailing carriage
/// return removed; an empty string has no segments, and a trailing newline
/// does not produce a final empty segment.
pub open spec fn spec_lines(s: Seq<char>) -> Seq<Seq<char>>
    decreases s.len(),
{
    if s.len() == 0 {
        Seq::empty()
    } else {
        let i = first_newline(s);
        if i >= s.len() {
            seq![strip_cr(s)]
        } else {
            seq![strip_cr(s.take(i as int))] + spec_lines(s.skip(i as int + 1))
        }
    }
}

/// In a string that starts with a newline-free segment followed by a
/// newline, the first newline sits exactly at the end of that segment.
proof fn lemma_first_newline_concat(l: Seq<char>, rest: Seq<char>)
    requires
        forall|j: int| 0 <= j < l.len() ==> l[j] != '\n',
    ensures
        first_newline(l + seq!['\n'] + rest) == l.len(),
    decreases l.len(),
{
    let s = l + seq!['\n'] + rest;
    if l.len() == 0 {
        assert(s[0] == '\n');
    } else {
        assert(s[0] == l[0]);
        assert(s.drop_first() =~= l.drop_first() + seq!['\n'] + rest);
        assert forall|j: int| 0 <= j < l.drop_first().len() implies l.drop_first()[j] != '\n' by {
            assert(l.drop_first()[j] == l[j + 1]);
        }
        lemma_first_newline_concat(l.drop_first(), rest);
    }
}

/// A string without newlines has exactly one segment.
proof fn lemma_lines_single(s: Seq<char>)
    requires
        s.len() > 0,
        forall|j: int| 0 <= j < s.len() ==> s[j] != '\n',
    ensures
        spec_lines(s) =~= seq![strip_cr(s)],
{
    lemma_no_newline_first(s);
}

/// Without a newline, `first_newline` reaches the end.
proof fn lemma_no_newline_first(s: Seq<char>)
    requires
        forall|j: int| 0 <= j < s.len() ==> s[j] != '\n',
    ensures
        first_newline(s) == s.len(),
    decreases s.len(),
{
    if s.len() > 0 {
        assert forall|j: int| 0 <= j < s.drop_first().len() implies s.drop_first()[j] != '\n' by {
            assert(s.drop_first()[j] == s[j + 1]);
        }
        lemma_no_newline_first(s.drop_first());
    }
}

/// Peeling the first segment and its newline off the front.
proof fn lemma_lines_step(l: Seq<char>, rest: Seq<char>)
    requires
        forall|j: int| 0 <= j < l.len() ==> l[j] != '\n',
    ensures
        spec_lines(l + seq!['\n'] + rest) =~= seq![strip_cr(l)] + spec_lines(rest),
{
    let s = l + seq!['\n'] + rest;
    lemma_first_newline_concat(l, rest);
    assert(s.len() > 0);
    assert(first_newline(s) == l.len() < s.len());
    assert(s.take(l.len() as int) =~= l);
    assert(s.skip(l.len() as int + 1) =~= rest);
}

/// Split a string into its newline-delimited segments, stripping one
/// trailing carriage return from each; the exact model of `str::lines`.
pub fn split_lines(s: &str) -> (r: Vec<String>)
    ensures
        r.deep_view() == spec_lines(s@),
{
    let n: usize = s.unicode_len();
    let mut r: Vec<String> = Vec::new();
    let mut start: usize = 0;
    let mut i: usize = 0;
    proof {
        assert(s@.skip(0) =~= s@);
        assert(r.deep_view() =~= Seq::<Seq<char>>::empty());
        assert(Seq::<Seq<char>>::empty() + spec_lines(s@) =~= spec_lines(s@));
    }
    while i < n
        invariant
            n == s@.len(),
            0 <= start <= i <= n,
            spec_lines(s@) =~= r.deep_view() + spec_lines(s@.skip(start as int)),
            forall|j: int| start <= j < i ==> s@[j] != '\n',
        decreases n - i,
    {
        let c = s.get_char(i);
        if c == '\n' {
            let seg = self::segment(s, start, i);
            let ghost l = s@.subrange(start as int, i as int);
            let ghost dv = r.deep_view();
            proof {
                assert(s@.skip(start as int) =~= l + seq!['\n'] + s@.skip(i + 1));
                lemma_lines_step(l, s@.skip(i + 1));
            }
            r.push(seg);
            proof {
                assert(r.deep_view() =~= dv.push(strip_cr(l)));
                assert(dv.push(strip_cr(l)) + spec_lines(s@.skip(i + 1)) =~= dv + spec_lines(
                    s@.skip(start as int),
                ));
            }
            start = i + 1;
        }
        i = i + 1;
    }
    if start < n {
        let seg = self::segment(s, start, n);
        let ghost l = s@.subrange(start as int, n as int);
        let ghost dv = r.deep_view();
        proof {
            assert(s@.skip(start as int) =~= l);
            lemma_lines_single(l);
        }
        r.push(seg);
        proof {
            assert(r.deep_view() =~= dv.push(strip_cr(l)));
            assert(dv.push(strip_cr(l)) =~= dv + spec_lines(s@.skip(start as int)));
        }
    } else {
        proof {
            assert(s@.skip(start as int) =~= Seq::<char>::empty());
            assert(r.deep_view() + Seq::<Seq<char>>::empty() =~= r.deep_view());
        }
    }
    r
}

/// Copy out the segment `[start, end)` of `s` with a trailing carriage
/// return removed.
fn segment(s: &str, start: usize, end: usize) -> (r: String)
    requires
        start <= end <= s@.len(),
    ensures
        r@ == strip_cr(s@.subrange(start as int, end as int)),
{
    let cut: usize = if end > start && s.get_char(end - 1) == '\r' {
        end - 1
    } else {
        end
    };
    proof {
        assert(s@.subrange(start as int, cut as int) =~= strip_cr(
            s@.subrange(start as int, end as int),
        ));
    }
    String::from_str(s.substring_char(start, cut))
}

/// What `textwrap::wrap` returns for a text and a width, with the default
/// options: the text split on newlines, each segment word-wrapped to at
/// most `width` display columns, over-long words broken at the width
/// boundary.
pub uninterp spec fn wrap_of(s: Seq<char>, width: usize) -> Seq<Seq<char>>;

/// Relies on `textwrap::wrap` with `Options::new(width)`: the wrapped
/// lines depend on the text and the width alone; for any positive width
/// at least one line comes back; and the text is split on newlines
/// first, each newline-delimited segment wrapped independently, so the
/// result at any newline is the results of the two sides laid end to
/// end.
#[verifier::external_body]
pub fn wrap_text(s: &str, width: usize) -> (r: Vec<String>)
    ensures
        r.deep_view() == wrap_of(s@, width),
        width >= 1 ==> r@.len() >= 1,
        forall|i: int|
            0 <= i < s@.len() && s@[i] == '\n' ==> r.deep_view() == wrap_of(s@.take(i), width)
                + wrap_of(s@.skip(i + 1), width),
{
    textwrap::wrap(s, textwrap::Options::new(width))
        .into_iter()
        .map(|line| line.into_owned())
        .collect()
}

} // verus!
