//! Display-width measurement for strings that may contain ANSI escape
//! sequences.
//!
//! A string destined for a terminal occupies a number of display columns
//! that differs from its character count: characters inside an
//! `ESC ... m` color sequence occupy no columns at all, and each
//! remaining character contributes its own display width (usually zero,
//! one or two columns).

use vstd::prelude::*;

verus! {

/// Number of display columns a single character occupies, as reported by
/// `unicode_width::UnicodeWidthChar::width`: `None` for control
/// characters, otherwise between zero and three columns (three occurs for
/// one Khmer sign; ordinary characters are narrow or double-wide).
pub uninterp spec fn char_width_of(c: char) -> Option<usize>;

/// Relies on `unicode_width::UnicodeWidthChar::width`: the width of a
/// character depends on the character alone, is `None` for control
/// characters, and never exceeds three columns (the table's maximum).
#[verifier::external_body]
fn char_width(c: char) -> (r: Option<usize>)
    ensures
        r == char_width_of(c),
        r matches Some(w) ==> w <= 3,
{
    unicode_width::UnicodeWidthChar::width(c)
}

/// Column contribution of one character outside an escape sequence.
pub open spec fn spec_char_cols(c: char) -> nat {
    match char_width_of(c) {
        Some(w) => w as nat,
        None => 0,
    }
}

/// Visible width of `s` when the scan starts with escape state `in_esc`,
/// mirroring the renderer's scanner: an escape character switches the scan
/// into the escape state, where every character up to and including the
/// terminating `m` contributes zero columns.
pub open spec fn spec_scan_width(s: Seq<char>, in_esc: bool) -> nat
    decreases s.len(),
{
    if s.len() == 0 {
        0
    } else {
        let c = s[0];
        if c == '\u{1b}' {
            spec_scan_width(s.drop_first(), true)
        } else if in_esc {
            spec_scan_width(s.drop_first(), c != 'm')
        } else {
            spec_char_cols(c) + spec_scan_width(s.drop_first(), false)
        }
    }
}

/// Escape state after scanning `s` starting from state `in_esc`.
pub open spec fn spec_scan_state(s: Seq<char>, in_esc: bool) -> bool
    decreases s.len(),
{
    if s.len() == 0 {
        in_esc
    } else {
        let c = s[0];
        if c == '\u{1b}' {
            spec_scan_state(s.drop_first(), true)
        } else if in_esc {
            spec_scan_state(s.drop_first(), c != 'm')
        } else {
            spec_scan_state(s.drop_first(), false)
        }
    }
}

/// Visible width of a whole string: the scan starts outside any escape
/// sequence.
pub open spec fn spec_visible_width(s: Seq<char>) -> nat {
    spec_scan_width(s, false)
}

/// Visible width as measured by the executable scanner, which saturates at
/// `usize::MAX` (unreachable for any realizable string).
pub open spec fn spec_visible_len(s: Seq<char>) -> nat {
    if spec_visible_width(s) <= usize::MAX as nat {
        spec_visible_width(s)
    } else {
        usize::MAX as nat
    }
}

/// The scan distributes over concatenation: the right half starts in the
/// state the left half ends in.
pub proof fn lemma_scan_concat(a: Seq<char>, b: Seq<char>, in_esc: bool)
    ensures
        spec_scan_width(a + b, in_esc) == spec_scan_width(a, in_esc) + spec_scan_width(
            b,
            spec_scan_state(a, in_esc),
        ),
        spec_scan_state(a + b, in_esc) == spec_scan_state(b, spec_scan_state(a, in_esc)),
    decreases a.len(),
{
    if a.len() == 0 {
        assert(a + b =~= b);
    } else {
        assert((a + b).drop_first() =~= a.drop_first() + b);
        let c = a[0];
        if c == '\u{1b}' {
            lemma_scan_concat(a.drop_first(), b, true);
        } else if in_esc {
            lemma_scan_concat(a.drop_first(), b, c != 'm');
        } else {
            lemma_scan_concat(a.drop_first(), b, false);
        }
    }
}

/// Scanning a single character from a given state.
pub proof fn lemma_scan_one(c: char, in_esc: bool)
    ensures
        spec_scan_width(seq![c], in_esc) == (if c == '\u{1b}' || in_esc {
            0nat
        } else {
            spec_char_cols(c)
        }),
        spec_scan_state(seq![c], in_esc) == (if c == '\u{1b}' {
            true
        } else if in_esc {
            c != 'm'
        } else {
            false
        }),
{
    let e = Seq::<char>::empty();
    assert(seq![c].drop_first() =~= e);
    assert(spec_scan_width(e, true) == 0);
    assert(spec_scan_width(e, false) == 0);
    assert(spec_scan_state(e, true) == true);
    assert(spec_scan_state(e, false) == false);
}

/// The characters the scanner counts: everything outside an `ESC ... m`
/// escape sequence, in order.
pub open spec fn spec_scan_text(s: Seq<char>, in_esc: bool) -> Seq<char>
    decreases s.len(),
{
    if s.len() == 0 {
        Seq::empty()
    } else {
        let c = s[0];
        if c == '\u{1b}' {
            spec_scan_text(s.drop_first(), true)
        } else if in_esc {
            spec_scan_text(s.drop_first(), c != 'm')
        } else {
            seq![c] + spec_scan_text(s.drop_first(), false)
        }
    }
}

/// The visible text of a string: its characters with every escape
/// sequence removed.
pub open spec fn spec_stripped(s: Seq<char>) -> Seq<char> {
    spec_scan_text(s, false)
}

/// The counted text distributes over concatenation the same way the
/// width does.
pub proof fn lemma_scan_text_concat(a: Seq<char>, b: Seq<char>, in_esc: bool)
    ensures
        spec_scan_text(a + b, in_esc) == spec_scan_text(a, in_esc) + spec_scan_text(
            b,
            spec_scan_state(a, in_esc),
        ),
    decreases a.len(),
{
    if a.len() == 0 {
        assert(a + b =~= b);
        assert(spec_scan_text(a, in_esc) + spec_scan_text(b, spec_scan_state(a, in_esc)) =~=
            spec_scan_text(b, in_esc));
    } else {
        assert((a + b).drop_first() =~= a.drop_first() + b);
        let c = a[0];
        if c == '\u{1b}' {
            lemma_scan_text_concat(a.drop_first(), b, true);
        } else if in_esc {
            lemma_scan_text_concat(a.drop_first(), b, c != 'm');
        } else {
            lemma_scan_text_concat(a.drop_first(), b, false);
            assert(seq![c] + (spec_scan_text(a.drop_first(), false) + spec_scan_text(
                b,
                spec_scan_state(a.drop_first(), false),
            )) =~= (seq![c] + spec_scan_text(a.drop_first(), false)) + spec_scan_text(
                b,
                spec_scan_state(a.drop_first(), false),
            ));
        }
    }
}

/// When the left part ends outside the escape state, visible text
/// concatenates part by part.
pub proof fn lemma_stripped_concat(a: Seq<char>, b: Seq<char>)
    requires
        spec_scan_state(a, false) == false,
    ensures
        spec_stripped(a + b) == spec_stripped(a) + spec_stripped(b),
        spec_scan_state(a + b, false) == spec_scan_state(b, false),
{
    lemma_scan_text_concat(a, b, false);
    lemma_scan_concat(a, b, false);
}

/// A string with no escape character at all.
pub open spec fn esc_free(s: Seq<char>) -> bool {
    forall|i: int| 0 <= i < s.len() ==> s[i] != '\u{1b}'
}

/// An escape-free string is its own visible text, and leaves the scan
/// outside the escape state.
pub proof fn lemma_esc_free_stripped(s: Seq<char>)
    requires
        esc_free(s),
    ensures
        spec_stripped(s) == s,
        spec_scan_state(s, false) == false,
    decreases s.len(),
{
    if s.len() == 0 {
        assert(spec_scan_text(s, false) =~= s);
    } else {
        assert forall|i: int| 0 <= i < s.drop_first().len() implies s.drop_first()[i]
            != '\u{1b}' by {
            assert(s.drop_first()[i] == s[i + 1]);
        }
        lemma_esc_free_stripped(s.drop_first());
        assert(seq![s[0]] + s.drop_first() =~= s);
    }
}

/// A complete color escape sequence: starts with the escape character, ends
/// at the first `m`.
pub open spec fn is_escape_seq(p: Seq<char>) -> bool {
    &&& p.len() >= 2
    &&& p[0] == '\u{1b}'
    &&& p[p.len() - 1] == 'm'
    &&& forall|i: int| 1 <= i < p.len() - 1 ==> p[i] != 'm'
}

/// A complete escape sequence contributes no columns and leaves the scan
/// outside the escape state, whatever state it starts in.
pub proof fn lemma_escape_seq_width(p: Seq<char>, in_esc: bool)
    requires
        is_escape_seq(p),
    ensures
        spec_scan_width(p, in_esc) == 0,
        spec_scan_state(p, in_esc) == false,
{
    lemma_in_escape_consumed(p.drop_first());
}

/// From inside an escape sequence, characters up to and including the first
/// `m` contribute nothing; with `m` as the final character, the scan exits
/// the escape state.
proof fn lemma_in_escape_consumed(p: Seq<char>)
    requires
        p.len() >= 1,
        p[p.len() - 1] == 'm',
        forall|i: int| 0 <= i < p.len() - 1 ==> p[i] != 'm',
    ensures
        spec_scan_width(p, true) == 0,
        spec_scan_state(p, true) == false,
    decreases p.len(),
{
    if p.len() > 1 {
        assert forall|i: int| 0 <= i < p.drop_first().len() - 1 implies p.drop_first()[i]
            != 'm' by {
            assert(p.drop_first()[i] == p[i + 1]);
        }
        assert(p.drop_first()[p.drop_first().len() - 1] == p[p.len() - 1]);
        lemma_in_escape_consumed(p.drop_first());
    } else {
        assert(p[0] == 'm');
        assert(spec_scan_width(p.drop_first(), false) == 0);
        assert(spec_scan_state(p.drop_first(), false) == false);
    }
}

/// Padding computed from visible width is blind to color codes: wrapping a
/// string in a leading and a trailing escape sequence leaves its visible
/// width unchanged, so two strings that show the same text are padded the
/// same however many color codes they carry.
pub proof fn lemma_visible_width_ignores_escapes(p: Seq<char>, s: Seq<char>, q: Seq<char>)
    requires
        is_escape_seq(p),
        is_escape_seq(q),
    ensures
        spec_visible_width(p + s + q) == spec_visible_width(s),
{
    lemma_escape_seq_width(p, false);
    lemma_scan_concat(p, s, false);
    lemma_escape_seq_width(q, spec_scan_state(s, false));
    lemma_scan_concat(p + s, q, false);
    assert(spec_scan_width(p + s, false) == spec_visible_width(s));
}

/// Visible column width of `s`: display width of every character outside an
/// `ESC ... m` escape sequence, with characters inside such a sequence
/// (including an unterminated one at the end of the string) contributing
/// zero columns.
pub fn visible_len(s: &str) -> (r: usize)
    ensures
        r == spec_visible_len(s@),
{
    let n: usize = s.unicode_len();
    let mut i: usize = 0;
    let mut acc: usize = 0;
    let mut in_esc: bool = false;
    while i < n
        invariant
            n == s@.len(),
            0 <= i <= n,
            in_esc == spec_scan_state(s@.take(i as int), false),
            acc == spec_min_usize(spec_scan_width(s@.take(i as int), false)),
        decreases n - i,
    {
        let c = s.get_char(i);
        proof {
            assert(s@.take(i + 1) =~= s@.take(i as int) + seq![c]);
            lemma_scan_concat(s@.take(i as int), seq![c], false);
            lemma_scan_one(c, in_esc);
        }
        if c == '\u{1b}' {
            in_esc = true;
        } else if in_esc {
            if c == 'm' {
                in_esc = false;
            }
        } else {
            match char_width(c) {
                Some(w) => {
                    acc = saturating_add_usize(acc, w);
                },
                None => {},
            }
        }
        i = i + 1;
    }
    proof {
        assert(s@.take(n as int) =~= s@);
    }
    acc
}

/// A natural number capped at `usize::MAX`.
pub open spec fn spec_min_usize(n: nat) -> nat {
    if n <= usize::MAX as nat {
        n
    } else {
        usize::MAX as nat
    }
}

/// Saturating addition on `usize`.
fn saturating_add_usize(a: usize, b: usize) -> (r: usize)
    ensures
        r == spec_min_usize((a + b) as nat),
{
    if a <= usize::MAX - b {
        a + b
    } else {
        usize::MAX
    }
}

} // verus!
