//! Terminal width detection and its fallback chain.
//!
//! The live terminal size is preferred; failing that, a caller-supplied
//! `COLUMNS` value parsed as a decimal integer; failing that, a default of
//! 100 columns.  A 2-column gutter is subtracted from whichever source
//! answered.

use vstd::prelude::*;

verus! {

/// Default width assumed when nothing reports a terminal size.
pub const DEFAULT_TERMINAL_WIDTH: usize = 100;

/// A decimal digit.
pub open spec fn is_digit(c: char) -> bool {
    '0' <= c && c <= '9'
}

/// Numeric value of a digit.
pub open spec fn digit_val(c: char) -> nat {
    ((c as int) - ('0' as int)) as nat
}

/// Value of a digit string, most significant digit first.
pub open spec fn spec_digits_val(s: Seq<char>) -> nat
    decreases s.len(),
{
    if s.len() == 0 {
        0
    } else {
        spec_digits_val(s.drop_last()) * 10 + digit_val(s.last())
    }
}

/// The digits of a decimal literal: everything after an optional leading
/// plus sign.
pub open spec fn spec_sign_stripped(s: Seq<char>) -> Seq<char> {
    if s.len() > 0 && s[0] == '+' {
        s.drop_first()
    } else {
        s
    }
}

/// What `str::parse::<usize>` accepts: an optional leading plus sign, then
/// one or more decimal digits whose value fits the machine word.
pub open spec fn spec_parse_usize(s: Seq<char>) -> Option<usize> {
    let t = spec_sign_stripped(s);
    if t.len() == 0 {
        None
    } else if exists|j: int| 0 <= j < t.len() && !is_digit(t[j]) {
        None
    } else if spec_digits_val(t) > usize::MAX as nat {
        None
    } else {
        Some(spec_digits_val(t) as usize)
    }
}

/// A digit string's value only grows as digits are appended.
proof fn lemma_digits_val_prefix(s: Seq<char>, k: int)
    requires
        0 <= k <= s.len(),
    ensures
        spec_digits_val(s.take(k)) <= spec_digits_val(s),
    decreases s.len(),
{
    if k < s.len() {
        assert(s.drop_last().take(k) =~= s.take(k));
        lemma_digits_val_prefix(s.drop_last(), k);
        assert(spec_digits_val(s.drop_last()) * 10 >= spec_digits_val(s.drop_last())) by (
        nonlinear_arith);
    } else {
        assert(s.take(k) =~= s);
    }
}

/// Parse a non-negative decimal integer exactly as `str::parse::<usize>`
/// does: `None` on an empty string, a non-digit, or overflow.
pub fn parse_usize(s: &str) -> (r: Option<usize>)
    ensures
        r == spec_parse_usize(s@),
{
    let n: usize = s.unicode_len();
    let start: usize = if n > 0 && s.get_char(0) == '+' {
        1
    } else {
        0
    };
    let ghost t = spec_sign_stripped(s@);
    proof {
        assert(t =~= s@.subrange(start as int, n as int));
    }
    if start == n {
        return None;
    }
    let mut acc: usize = 0;
    let mut i: usize = start;
    while i < n
        invariant
            n == s@.len(),
            start <= i <= n,
            t == spec_sign_stripped(s@),
            t == s@.subrange(start as int, n as int),
            forall|j: int| 0 <= j < i - start ==> is_digit(t[j]),
            acc == spec_digits_val(t.take(i - start)),
        decreases n - i,
    {
        let c = s.get_char(i);
        if !(c >= '0' && c <= '9') {
            proof {
                assert(t[i - start] == s@[i as int]);
                assert(!is_digit(t[i - start]));
                assert(exists|j: int| 0 <= j < t.len() && !is_digit(t[j]));
            }
            return None;
        }
        let d: usize = (c as u32 as usize) - 48;
        proof {
            assert(t.take(i - start + 1).drop_last() =~= t.take(i - start));
            assert(t.take(i - start + 1).last() == s@[i as int]);
        }
        if acc > (usize::MAX - d) / 10 {
            proof {
                assert(acc * 10 + d > usize::MAX) by (nonlinear_arith)
                    requires
                        acc > (usize::MAX - d) / 10,
                        d <= 9,
                ;
                lemma_digits_val_prefix(t, i - start + 1);
                assert(spec_digits_val(t) > usize::MAX as nat);
            }
            return None;
        }
        proof {
            assert(acc * 10 + d <= usize::MAX) by (nonlinear_arith)
                requires
                    acc <= (usize::MAX - d) / 10,
                    d <= 9,
            ;
        }
        acc = acc * 10 + d;
        i = i + 1;
    }
    proof {
        assert(t.take(n - start) =~= t);
    }
    Some(acc)
}

/// The terminal cap for content-width computation: the detected terminal
/// width when one is known, else a parsed `COLUMNS` value, else the
/// default; 2 gutter columns are subtracted from the first two sources.
pub open spec fn spec_terminal_cap(detected: Option<u16>, columns: Option<Seq<char>>) -> nat {
    match detected {
        Some(w) => if w >= 2 {
            (w - 2) as nat
        } else {
            0
        },
        None => match columns {
            Some(cs) => match spec_parse_usize(cs) {
                Some(v) => if v >= 2 {
                    (v - 2) as nat
                } else {
                    0
                },
                None => DEFAULT_TERMINAL_WIDTH as nat,
            },
            None => DEFAULT_TERMINAL_WIDTH as nat,
        },
    }
}

/// Resolve the terminal width limit from a live measurement and an
/// optional `COLUMNS` environment value handed in by the caller.
pub fn terminal_width_limit(detected: Option<u16>, columns: Option<&str>) -> (r: usize)
    ensures
        r == spec_terminal_cap(detected, crate::layout::view_opt(columns)),
{
    match detected {
        Some(w) => {
            let wu = w as usize;
            if wu >= 2 {
                wu - 2
            } else {
                0
            }
        },
        None => {
            match columns {
                Some(cs) => {
                    match parse_usize(cs) {
                        Some(v) => if v >= 2 {
                            v - 2
                        } else {
                            0
                        },
                        None => DEFAULT_TERMINAL_WIDTH,
                    }
                },
                None => DEFAULT_TERMINAL_WIDTH,
            }
        },
    }
}

/// Relies on `terminal_size::terminal_size`: the width column count of the
/// attached terminal, if any.  The answer depends on the environment, so
/// nothing is stated about it.
#[verifier::external_body]
pub fn detect_terminal_width() -> (r: Option<u16>)
{
    terminal_size::terminal_size().map(|(w, _h)| w.0)
}

} // verus!
