//! Content-width computation.
//!
//! One width, in display columns, is chosen for every row of a box: the
//! widest header or payload line plus a fixed margin, clamped to
//! `[MIN_CONTENT_WIDTH, MAX_CONTENT_WIDTH]` and capped by the terminal
//! width wherever the terminal is at least `MIN_CONTENT_WIDTH` wide.

use crate::frame::{Frame, FRAME_MARGIN, MAX_CONTENT_WIDTH, MIN_CONTENT_WIDTH};
use crate::style::{to_upper, upper_of};
use crate::width::{spec_min_usize, spec_visible_width, visible_len};
use crate::wrap::{spec_lines, split_lines};
use vstd::prelude::*;

verus! {

/// The view of an optional string.
pub open spec fn view_opt(o: Option<&str>) -> Option<Seq<char>> {
    match o {
        Some(s) => Some(s@),
        None => None,
    }
}

/// Maximum of two naturals.
pub open spec fn max_nat(a: nat, b: nat) -> nat {
    if a >= b {
        a
    } else {
        b
    }
}

/// Widest of a set of lines, each preceded by `indent` columns.
pub open spec fn spec_max_line_width(lines: Seq<Seq<char>>, indent: nat) -> nat
    decreases lines.len(),
{
    if lines.len() == 0 {
        0
    } else {
        max_nat(
            spec_max_line_width(lines.drop_last(), indent),
            indent + spec_visible_width(lines.last()),
        )
    }
}

/// Header left segment: `" {icon} {label} {TITLE}"`.
pub open spec fn spec_header_left(icon: Seq<char>, label: Seq<char>, title_up: Seq<char>) -> Seq<
    char,
> {
    " "@ + icon + " "@ + label + " "@ + title_up
}

/// Header right segment: `"[{code}] {time} "`.
pub open spec fn spec_header_right(code: Seq<char>, time: Seq<char>) -> Seq<char> {
    "["@ + code + "] "@ + time + " "@
}

/// Location row text: `"   ‣at {location}"`.
pub open spec fn spec_location_text(location: Seq<char>) -> Seq<char> {
    "   \u{2023}at "@ + location
}

/// The width, in columns, of the widest element of the box: both header
/// segments side by side, the location row, and every payload line under
/// its indent (message and context at 2 columns, hint at 5).
pub open spec fn spec_widest_element(
    icon: Seq<char>,
    label: Seq<char>,
    title_up: Seq<char>,
    code: Seq<char>,
    message: Seq<char>,
    context: Option<Seq<char>>,
    hint: Option<Seq<char>>,
    location: Option<Seq<char>>,
    time: Seq<char>,
) -> nat {
    let header = spec_visible_width(spec_header_left(icon, label, title_up))
        + spec_visible_width(spec_header_right(code, time));
    let with_loc = match location {
        Some(loc) => max_nat(header, spec_visible_width(spec_location_text(loc))),
        None => header,
    };
    let with_msg = max_nat(with_loc, spec_max_line_width(spec_lines(message), 2));
    let with_ctx = match context {
        Some(c) => max_nat(with_msg, spec_max_line_width(spec_lines(c), 2)),
        None => with_msg,
    };
    match hint {
        Some(h) => max_nat(with_ctx, spec_max_line_width(spec_lines(h), 5)),
        None => with_ctx,
    }
}

/// The chosen content width: the widest element plus the frame margin,
/// clamped to the fixed bounds, then capped by the terminal width unless
/// the terminal is narrower than the minimum, in which case the minimum
/// wins.
pub open spec fn spec_content_width(
    icon: Seq<char>,
    label: Seq<char>,
    title_up: Seq<char>,
    code: Seq<char>,
    message: Seq<char>,
    context: Option<Seq<char>>,
    hint: Option<Seq<char>>,
    location: Option<Seq<char>>,
    time: Seq<char>,
    term_cap: nat,
) -> nat {
    let desired = spec_widest_element(
        icon,
        label,
        title_up,
        code,
        message,
        context,
        hint,
        location,
        time,
    ) + FRAME_MARGIN as nat;
    let clamped = if desired < MIN_CONTENT_WIDTH {
        MIN_CONTENT_WIDTH as nat
    } else if desired > MAX_CONTENT_WIDTH {
        MAX_CONTENT_WIDTH as nat
    } else {
        desired
    };
    let cap = max_nat(term_cap, MIN_CONTENT_WIDTH as nat);
    if clamped <= cap {
        clamped
    } else {
        cap
    }
}

/// The chosen content width is bounded for every input: it lies within
/// `[MIN_CONTENT_WIDTH, MAX_CONTENT_WIDTH]`; it never exceeds the
/// terminal cap when the terminal offers at least the minimum width; and
/// when the terminal is narrower than the minimum, the minimum wins over
/// the terminal cap.
pub proof fn lemma_content_width_bounds(
    icon: Seq<char>,
    label: Seq<char>,
    title_up: Seq<char>,
    code: Seq<char>,
    message: Seq<char>,
    context: Option<Seq<char>>,
    hint: Option<Seq<char>>,
    location: Option<Seq<char>>,
    time: Seq<char>,
    term_cap: nat,
)
    ensures
        MIN_CONTENT_WIDTH as nat <= spec_content_width(
            icon,
            label,
            title_up,
            code,
            message,
            context,
            hint,
            location,
            time,
            term_cap,
        ) <= MAX_CONTENT_WIDTH as nat,
        term_cap >= MIN_CONTENT_WIDTH as nat ==> spec_content_width(
            icon,
            label,
            title_up,
            code,
            message,
            context,
            hint,
            location,
            time,
            term_cap,
        ) <= term_cap,
        term_cap < MIN_CONTENT_WIDTH as nat ==> spec_content_width(
            icon,
            label,
            title_up,
            code,
            message,
            context,
            hint,
            location,
            time,
            term_cap,
        ) == MIN_CONTENT_WIDTH as nat,
{
}

/// Maximum of two machine words.
fn max_usize(a: usize, b: usize) -> (r: usize)
    ensures
        r == max_nat(a as nat, b as nat),
{
    if a >= b {
        a
    } else {
        b
    }
}

/// Saturating addition on `usize`.
pub(crate) fn sat_add(a: usize, b: usize) -> (r: usize)
    ensures
        r == spec_min_usize((a + b) as nat),
{
    if a <= usize::MAX - b {
        a + b
    } else {
        usize::MAX
    }
}

/// Raise `*max_len` to the width of the widest line of `text`, measured
/// with `indent` leading columns (the result saturates at `usize::MAX`,
/// which no realizable string reaches).
pub fn measure_lines(max_len: &mut usize, indent: usize, text: &str)
    ensures
        *final(max_len) == max_nat(
            *old(max_len) as nat,
            spec_min_usize(spec_max_line_width(spec_lines(text@), indent as nat)),
        ),
{
    let lines = split_lines(text);
    let mut k: usize = 0;
    while k < lines.len()
        invariant
            lines.deep_view() == spec_lines(text@),
            0 <= k <= lines.len(),
            *max_len == max_nat(
                *old(max_len) as nat,
                spec_min_usize(
                    spec_max_line_width(spec_lines(text@).take(k as int), indent as nat),
                ),
            ),
        decreases lines.len() - k,
    {
        let len = sat_add(indent, visible_len(lines[k].as_str()));
        proof {
            let lv = spec_lines(text@);
            assert(lv.take(k + 1).drop_last() =~= lv.take(k as int));
            assert(lv.take(k + 1).last() == lines[k as int]@);
        }
        if len > *max_len {
            *max_len = len;
        }
        k = k + 1;
    }
    proof {
        assert(spec_lines(text@).take(lines.deep_view().len() as int) =~= spec_lines(text@));
    }
}

/// Compute the content width for one message, as `spec_content_width`
/// states it; the title is measured uppercased, exactly as the header
/// will draw it.
pub fn compute_content_width(
    frame: &Frame,
    title: &str,
    code: &str,
    message: &str,
    context: Option<&str>,
    hint: Option<&str>,
    location: Option<&str>,
    time: &str,
    term_cap: usize,
) -> (w: usize)
    ensures
        w == spec_content_width(
            frame.icon@,
            frame.label@,
            upper_of(title@),
            code@,
            message@,
            view_opt(context),
            view_opt(hint),
            view_opt(location),
            time@,
            term_cap as nat,
        ),
        MIN_CONTENT_WIDTH <= w <= MAX_CONTENT_WIDTH,
        term_cap >= MIN_CONTENT_WIDTH ==> w <= term_cap,
        term_cap < MIN_CONTENT_WIDTH ==> w == MIN_CONTENT_WIDTH,
{
    let title_up = to_upper(title);

    let mut left = String::new();
    left.append(" ");
    left.append(frame.icon);
    left.append(" ");
    left.append(frame.label);
    left.append(" ");
    left.append(title_up.as_str());

    let mut right = String::new();
    right.append("[");
    right.append(code);
    right.append("] ");
    right.append(time);
    right.append(" ");

    let mut max_len = sat_add(visible_len(left.as_str()), visible_len(right.as_str()));

    if let Some(loc) = location {
        let mut loc_text = String::new();
        loc_text.append("   \u{2023}at ");
        loc_text.append(loc);
        max_len = max_usize(max_len, visible_len(loc_text.as_str()));
    }

    measure_lines(&mut max_len, 2, message);

    if let Some(ctx) = context {
        measure_lines(&mut max_len, 2, ctx);
    }

    if let Some(h) = hint {
        measure_lines(&mut max_len, 5, h);
    }

    let desired = sat_add(max_len, FRAME_MARGIN);
    let clamped = if desired < MIN_CONTENT_WIDTH {
        MIN_CONTENT_WIDTH
    } else if desired > MAX_CONTENT_WIDTH {
        MAX_CONTENT_WIDTH
    } else {
        desired
    };
    let cap = max_usize(term_cap, MIN_CONTENT_WIDTH);
    if clamped <= cap {
        clamped
    } else {
        cap
    }
}

} // verus!
