//! Row drawing and the full message-box renderer.
//!
//! A box is one leading blank line, a top border row, a sequence of
//! interior rows (header, optional location, dividers, payload), a bottom
//! border row and one more blank line.  Every interior row is framed by
//! the level's vertical border glyph and padded with literal spaces so
//! that padding depends only on the *visible* width of the row's text,
//! never on the color codes it carries.

use crate::frame::{
    frame_matches, frame_for, spec_border_v, spec_corner_bl, spec_corner_br, spec_corner_tl,
    spec_corner_tr, spec_dim_color, spec_icon, spec_label, spec_line_color, Frame,
    PrettyMessageLevel, RESET,
};
use crate::layout::{compute_content_width, spec_content_width, view_opt};
use crate::style::{
    now_hms, paint, style_black, style_black_italic, style_bold, style_dim, style_dim_italic,
    style_link, style_white, to_upper, upper_of,
};
use crate::term::{detect_terminal_width, terminal_width_limit};
use crate::width::{esc_free, lemma_esc_free_stripped, lemma_stripped_concat, spec_scan_state, spec_stripped, spec_visible_width, visible_len};
use crate::wrap::{wrap_of, wrap_text};
use std::io::Write;
use vstd::prelude::*;

verus! {

/// `n` copies of one character.
pub open spec fn char_repeat(c: char, n: nat) -> Seq<char> {
    Seq::new(n, |i: int| c)
}

/// Space padding for a row holding `l` and `r` at its two ends: exactly
/// what is missing up to `width` counting visible columns only, and none
/// when the text already fills the width.
pub open spec fn spec_pad(width: nat, l: Seq<char>, r: Seq<char>) -> nat {
    if spec_visible_width(l) + spec_visible_width(r) < width {
        (width - spec_visible_width(l) - spec_visible_width(r)) as nat
    } else {
        0
    }
}

/// An interior row: border, left text, exact space padding, right text,
/// border, newline.
pub open spec fn spec_padded_row(border: Seq<char>, width: nat, l: Seq<char>, r: Seq<char>) -> Seq<
    char,
> {
    border + l + char_repeat(' ', spec_pad(width, l, r)) + r + border + "\n"@
}

/// A colored horizontal run: color prefix, `width` dash glyphs, reset.
pub open spec fn spec_horizontal(color: Seq<char>, width: nat) -> Seq<char> {
    color + char_repeat('\u{2500}', width) + "\u{1b}[0m"@
}

/// A border row: corner, horizontal run in the line color, corner,
/// newline.
pub open spec fn spec_border_row(
    lcorner: Seq<char>,
    color: Seq<char>,
    width: nat,
    rcorner: Seq<char>,
) -> Seq<char> {
    lcorner + spec_horizontal(color, width) + rcorner + "\n"@
}

/// The interior divider of a box: vertical borders around a dimmed
/// horizontal run.
pub open spec fn spec_divider_row(level: PrettyMessageLevel, width: nat) -> Seq<char> {
    spec_border_v(level) + spec_horizontal(spec_dim_color(level), width) + spec_border_v(level)
        + "\n"@
}

/// Some text, framed and padded to `width` by visible columns.
pub open spec fn is_padded_row(level: PrettyMessageLevel, width: nat, row: Seq<char>) -> bool {
    exists|l: Seq<char>, r: Seq<char>| row == spec_padded_row(spec_border_v(level), width, l, r)
}

/// Plain text of the header's left segment as the renderer measures it:
/// `" {icon} {label}: {TITLE}"`.
pub open spec fn spec_header_left_plain(level: PrettyMessageLevel, title_up: Seq<char>) -> Seq<
    char,
> {
    " "@ + spec_icon(level) + " "@ + spec_label(level) + ": "@ + title_up
}

/// Plain text of the header's right segment as the renderer measures it:
/// `"[{code}] {time} "`.
pub open spec fn spec_header_right_plain(code: Seq<char>, time: Seq<char>) -> Seq<char> {
    "["@ + code + "] "@ + time + " "@
}

/// Padding between the header's two segments: what is missing up to
/// `width` after both plain segments' visible columns are counted.
pub open spec fn spec_header_pad(
    level: PrettyMessageLevel,
    title_up: Seq<char>,
    code: Seq<char>,
    time: Seq<char>,
    width: nat,
) -> nat {
    let hl = spec_visible_width(spec_header_left_plain(level, title_up));
    let hr = spec_visible_width(spec_header_right_plain(code, time));
    if hl + hr < width {
        (width - hl - hr) as nat
    } else {
        0
    }
}

/// The header row: two framed segments separated by padding computed
/// from the plain (style-free) header text, so that equal visible text
/// gives equal padding whatever colors are applied.  For inputs free of
/// raw escape characters, the left segment shows exactly the plain
/// header text (icon, label, colon, uppercased title) and the right
/// segment exactly the bracketed code and clock reading.
pub open spec fn is_header_row(
    level: PrettyMessageLevel,
    width: nat,
    title_up: Seq<char>,
    code: Seq<char>,
    time: Seq<char>,
    row: Seq<char>,
) -> bool {
    exists|l: Seq<char>, r: Seq<char>|
        {
            &&& row == spec_border_v(level) + l + char_repeat(
                ' ',
                spec_header_pad(level, title_up, code, time, width),
            ) + r + spec_border_v(level) + "\n"@
            &&& (esc_free(title_up) && esc_free(code) && esc_free(time)) ==> {
                &&& spec_stripped(l) == spec_header_left_plain(level, title_up)
                &&& spec_stripped(r) == spec_header_right_plain(code, time)
            }
        }
}

/// One wrapped line drawn as a content row: the block's indent, then a
/// styled rendition of the line showing exactly the line's visible text
/// and occupying exactly its visible columns, framed and padded.
pub open spec fn is_text_row(
    level: PrettyMessageLevel,
    width: nat,
    indent: Seq<char>,
    line: Seq<char>,
    row: Seq<char>,
) -> bool {
    exists|styled: Seq<char>|
        #![trigger spec_padded_row(spec_border_v(level), width, indent + styled, ""@)]
        {
            &&& spec_visible_width(styled) == spec_visible_width(line)
            &&& spec_stripped(styled) == spec_stripped(line)
            &&& row == spec_padded_row(spec_border_v(level), width, indent + styled, ""@)
        }
}

/// A block of wrapped lines drawn one row per line, in order.
pub open spec fn are_text_rows(
    level: PrettyMessageLevel,
    width: nat,
    indent: Seq<char>,
    lines: Seq<Seq<char>>,
    rows: Seq<Seq<char>>,
) -> bool {
    &&& rows.len() == lines.len()
    &&& forall|i: int| 0 <= i < rows.len() ==> is_text_row(level, width, indent, lines[i], rows[i])
}

/// The width message and context text is wrapped to: four columns less
/// than the content width, floored at ten.
pub open spec fn spec_msg_wrap_width(width: nat) -> usize {
    if width >= 14 {
        (width - 4) as usize
    } else {
        10
    }
}

/// The width hint text is wrapped to: six columns less than the content
/// width, floored at zero.
pub open spec fn spec_hint_wrap_width(width: nat) -> usize {
    if width >= 6 {
        (width - 6) as usize
    } else {
        0
    }
}

/// Concatenation of a sequence of rows.
pub open spec fn rows_concat(rows: Seq<Seq<char>>) -> Seq<char>
    decreases rows.len(),
{
    if rows.len() == 0 {
        Seq::empty()
    } else {
        rows_concat(rows.drop_last()) + rows.last()
    }
}

/// Appending a row extends the concatenation on the right.
pub proof fn lemma_rows_concat_push(rows: Seq<Seq<char>>, row: Seq<char>)
    ensures
        rows_concat(rows.push(row)) == rows_concat(rows) + row,
{
    assert(rows.push(row).drop_last() =~= rows);
    assert(rows.push(row).last() == row);
}

/// The content width a box takes for given inputs and one clock reading.
pub open spec fn box_width(
    level: PrettyMessageLevel,
    title: Seq<char>,
    code: Seq<char>,
    message: Seq<char>,
    context: Option<Seq<char>>,
    hint: Option<Seq<char>>,
    location: Option<Seq<char>>,
    t: Seq<char>,
    term_cap: nat,
) -> nat {
    spec_content_width(
        spec_icon(level),
        spec_label(level),
        upper_of(title),
        code,
        message,
        context,
        hint,
        location,
        t,
        term_cap,
    )
}

/// The complete shape of one rendered box: a leading blank line, a top
/// border row, interior rows, a bottom border row and a final blank
/// line, all at one content width chosen by `spec_content_width` from
/// the inputs and the clock reading.  The interior starts with the
/// header row, every interior row is framed and padded by visible
/// columns, and the message, context and hint blocks hold exactly one
/// row per line that `textwrap` wraps them into, at their fixed indents
/// and wrap widths.
pub open spec fn spec_rendered_box(
    out: Seq<char>,
    level: PrettyMessageLevel,
    title: Seq<char>,
    code: Seq<char>,
    message: Seq<char>,
    context: Option<Seq<char>>,
    hint: Option<Seq<char>>,
    location: Option<Seq<char>>,
    term_cap: nat,
) -> bool {
    exists|t: Seq<char>|
        #![trigger box_width(level, title, code, message, context, hint, location, t, term_cap)]
        {
            &&& t.len() == 8
            &&& forall|i: int| 0 <= i < 8 ==> (t[i] == ':' || ('0' <= t[i] && t[i] <= '9'))
            &&& exists|rows: Seq<Seq<char>>|
                #![trigger rows_concat(rows)]
                {
                    &&& out == "\n"@ + spec_border_row(
                        spec_corner_tl(level),
                        spec_line_color(level),
                        box_width(level, title, code, message, context, hint, location, t, term_cap),
                        spec_corner_tr(level),
                    ) + rows_concat(rows) + spec_border_row(
                        spec_corner_bl(level),
                        spec_line_color(level),
                        box_width(level, title, code, message, context, hint, location, t, term_cap),
                        spec_corner_br(level),
                    ) + "\n"@
                    &&& box_rows_wf(
                        level,
                        box_width(level, title, code, message, context, hint, location, t, term_cap),
                        title,
                        code,
                        message,
                        context,
                        hint,
                        location,
                        t,
                        rows,
                    )
                }
        }
}

/// Append `n` spaces.
fn append_spaces(buf: &mut String, n: usize)
    ensures
        final(buf)@ == old(buf)@ + char_repeat(' ', n as nat),
{
    let mut k: usize = 0;
    while k < n
        invariant
            0 <= k <= n,
            buf@ == old(buf)@ + char_repeat(' ', k as nat),
        decreases n - k,
    {
        buf.append(" ");
        proof {
            reveal_strlit(" ");
            assert(old(buf)@ + char_repeat(' ', (k + 1) as nat) =~= old(buf)@ + char_repeat(
                ' ',
                k as nat,
            ) + " "@);
        }
        k = k + 1;
    }
    proof {
        assert(old(buf)@ + char_repeat(' ', 0nat) =~= old(buf)@);
    }
}

/// Append a colored horizontal run of `width` dash glyphs.
fn write_horizontal(buf: &mut String, color: &str, width: usize)
    ensures
        final(buf)@ == old(buf)@ + spec_horizontal(color@, width as nat),
{
    buf.append(color);
    let mut k: usize = 0;
    while k < width
        invariant
            0 <= k <= width,
            buf@ == old(buf)@ + color@ + char_repeat('\u{2500}', k as nat),
        decreases width - k,
    {
        buf.append("\u{2500}");
        proof {
            reveal_strlit("\u{2500}");
            assert(old(buf)@ + color@ + char_repeat('\u{2500}', (k + 1) as nat) =~= old(buf)@
                + color@ + char_repeat('\u{2500}', k as nat) + "\u{2500}"@);
        }
        k = k + 1;
    }
    buf.append(RESET);
    proof {
        assert(char_repeat('\u{2500}', 0nat) =~= Seq::<char>::empty());
        assert(old(buf)@ + spec_horizontal(color@, width as nat) =~= old(buf)@ + color@
            + char_repeat('\u{2500}', width as nat) + RESET@);
    }
}

/// Append a border row: corner, horizontal run, corner, newline.
fn draw_border_row(buf: &mut String, lcorner: &str, color: &str, width: usize, rcorner: &str)
    ensures
        final(buf)@ == old(buf)@ + spec_border_row(lcorner@, color@, width as nat, rcorner@),
{
    buf.append(lcorner);
    write_horizontal(buf, color, width);
    buf.append(rcorner);
    buf.append("\n");
    proof {
        assert(old(buf)@ + spec_border_row(lcorner@, color@, width as nat, rcorner@) =~= old(buf)@
            + lcorner@ + spec_horizontal(color@, width as nat) + rcorner@ + "\n"@);
    }
}

/// Append an interior row made of two texts separated by `pad` spaces,
/// all framed by the vertical border glyph.
fn draw_two_part_row(buf: &mut String, border_v: &str, l: &str, pad: usize, r: &str)
    ensures
        final(buf)@ == old(buf)@ + (border_v@ + l@ + char_repeat(' ', pad as nat) + r@ + border_v@
            + "\n"@),
{
    buf.append(border_v);
    buf.append(l);
    append_spaces(buf, pad);
    buf.append(r);
    buf.append(border_v);
    buf.append("\n");
    proof {
        assert(old(buf)@ + (border_v@ + l@ + char_repeat(' ', pad as nat) + r@ + border_v@ + "\n"@)
            =~= old(buf)@ + border_v@ + l@ + char_repeat(' ', pad as nat) + r@ + border_v@ + "\n"@);
    }
}

/// Append one content row: the text, padded with literal spaces to the
/// content width by visible columns, between two vertical border glyphs.
pub fn draw_row(buf: &mut String, frame: &Frame, content_width: usize, content: &str)
    ensures
        final(buf)@ == old(buf)@ + spec_padded_row(
            frame.border_v@,
            content_width as nat,
            content@,
            ""@,
        ),
{
    let vis_len = visible_len(content);
    let padding: usize = if vis_len < content_width {
        content_width - vis_len
    } else {
        0
    };
    proof {
        reveal_strlit("");
        assert(""@ =~= Seq::<char>::empty());
        crate::width::lemma_scan_concat(Seq::<char>::empty(), Seq::<char>::empty(), false);
        assert(spec_visible_width(""@) == 0);
        assert(padding == spec_pad(content_width as nat, content@, ""@));
    }
    draw_two_part_row(buf, frame.border_v, content, padding, "");
    proof {
        assert(old(buf)@ + spec_padded_row(frame.border_v@, content_width as nat, content@, ""@)
            =~= old(buf)@ + (frame.border_v@ + content@ + char_repeat(
            ' ',
            padding as nat,
        ) + ""@ + frame.border_v@ + "\n"@));
    }
}

/// Append a horizontal divider row, with T-junction glyphs where it meets
/// an outer border (`joints`) or plain vertical borders where it does not.
pub fn draw_horizontal_line(buf: &mut String, frame: &Frame, content_width: usize, joints: bool)
    ensures
        joints ==> final(buf)@ == old(buf)@ + (frame.border_joint_left@ + spec_horizontal(
            frame.line_dim_color@,
            content_width as nat,
        ) + frame.border_joint_right@ + "\n"@),
        !joints ==> final(buf)@ == old(buf)@ + (frame.border_v@ + spec_horizontal(
            frame.line_dim_color@,
            content_width as nat,
        ) + frame.border_v@ + "\n"@),
{
    if joints {
        buf.append(frame.border_joint_left);
        write_horizontal(buf, frame.line_dim_color, content_width);
        buf.append(frame.border_joint_right);
        buf.append("\n");
    } else {
        buf.append(frame.border_v);
        write_horizontal(buf, frame.line_dim_color, content_width);
        buf.append(frame.border_v);
        buf.append("\n");
    }
}


/// A row of the given text, padded by visible columns, satisfies
/// `is_padded_row`.
proof fn lemma_padded_row_intro(level: PrettyMessageLevel, width: nat, content: Seq<char>)
    ensures
        is_padded_row(level, width, spec_padded_row(spec_border_v(level), width, content, ""@)),
{
    let row = spec_padded_row(spec_border_v(level), width, content, ""@);
    assert(row == spec_padded_row(spec_border_v(level), width, content, ""@));
}

/// Concatenating row lists concatenates their texts.
proof fn lemma_rows_concat_app(a: Seq<Seq<char>>, b: Seq<Seq<char>>)
    ensures
        rows_concat(a + b) == rows_concat(a) + rows_concat(b),
    decreases b.len(),
{
    if b.len() == 0 {
        assert(a + b =~= a);
        assert(rows_concat(a) + rows_concat(b) =~= rows_concat(a));
    } else {
        assert((a + b).drop_last() =~= a + b.drop_last());
        lemma_rows_concat_app(a, b.drop_last());
        assert((a + b).last() == b.last());
        assert(rows_concat(a) + rows_concat(b) =~= rows_concat(a) + rows_concat(b.drop_last())
            + b.last());
    }
}

/// Which block of the box a wrapped line belongs to, selecting its indent
/// and styling.
#[derive(Clone, Copy)]
enum BlockKind {
    Message,
    Context,
    Hint,
}

/// The indent drawn before each wrapped line of a block.
spec fn spec_block_indent(kind: BlockKind) -> Seq<char> {
    match kind {
        BlockKind::Message => "  "@,
        BlockKind::Context => "  "@,
        BlockKind::Hint => "     "@,
    }
}

/// Append the header row: colored icon, label and uppercased title on the
/// left, dimmed code and timestamp on the right, separated by padding
/// computed from the plain header text.
fn emit_header(
    out: &mut String,
    frame: &Frame,
    level: PrettyMessageLevel,
    width: usize,
    title: &str,
    code: &str,
    time: &str,
) -> (row: Ghost<Seq<char>>)
    requires
        frame_matches(*frame, level),
    ensures
        final(out)@ == old(out)@ + row@,
        is_header_row(level, width as nat, upper_of(title@), code@, time@, row@),
{
    let title_up = to_upper(title);
    let styled_icon = paint(frame.icon, frame.label_color, false);
    let mut label_colon = String::new();
    label_colon.append(frame.label);
    label_colon.append(":");
    let styled_label = paint(label_colon.as_str(), frame.label_color, true);
    let styled_title = style_bold(title_up.as_str());
    let mut left_part = String::new();
    left_part.append(" ");
    left_part.append(styled_icon.as_str());
    left_part.append(" ");
    left_part.append(styled_label.as_str());
    left_part.append(" ");
    left_part.append(styled_title.as_str());

    let mut plain_left = String::new();
    plain_left.append(" ");
    plain_left.append(frame.icon);
    plain_left.append(" ");
    plain_left.append(frame.label);
    plain_left.append(": ");
    plain_left.append(title_up.as_str());
    let left_len = visible_len(plain_left.as_str());

    let styled_code = style_bold(code);
    let mut right_inner = String::new();
    right_inner.append("[");
    right_inner.append(styled_code.as_str());
    right_inner.append("] ");
    right_inner.append(time);
    right_inner.append(" ");
    let right_part = style_dim(right_inner.as_str());

    let mut plain_right = String::new();
    plain_right.append("[");
    plain_right.append(code);
    plain_right.append("] ");
    plain_right.append(time);
    plain_right.append(" ");
    let right_len = visible_len(plain_right.as_str());

    let lens = crate::layout::sat_add(left_len, right_len);
    let space_needed: usize = if lens < width {
        width - lens
    } else {
        0
    };
    proof {
        assert(plain_left@ =~= spec_header_left_plain(level, upper_of(title@)));
        assert(plain_right@ =~= spec_header_right_plain(code@, time@));
        assert(space_needed == spec_header_pad(
            level,
            upper_of(title@),
            code@,
            time@,
            width as nat,
        ));
    }
    proof {
        if esc_free(upper_of(title@)) && esc_free(code@) && esc_free(time@) {
            crate::frame::lemma_frame_text_esc_free(level);
            reveal_strlit(" ");
            reveal_strlit(":");
            reveal_strlit("[");
            reveal_strlit("] ");
            reveal_strlit(": ");
            assert(esc_free(" "@));
            assert(esc_free("["@));
            assert(esc_free("] "@));
            assert(label_colon@ == spec_label(level) + ":"@);
            assert forall|i: int| 0 <= i < label_colon@.len() implies label_colon@[i]
                != '\u{1b}' by {
                if i < spec_label(level).len() {
                    assert(label_colon@[i] == spec_label(level)[i]);
                } else {
                    assert(label_colon@[i] == ":"@[i - spec_label(level).len()]);
                }
            }
            lemma_esc_free_stripped(spec_icon(level));
            lemma_esc_free_stripped(label_colon@);
            lemma_esc_free_stripped(upper_of(title@));
            lemma_esc_free_stripped(code@);
            lemma_esc_free_stripped(time@);
            lemma_esc_free_stripped(" "@);
            lemma_esc_free_stripped("["@);
            lemma_esc_free_stripped("] "@);
            assert(spec_scan_state(styled_icon@, false) == false);
            assert(spec_scan_state(styled_label@, false) == false);
            assert(spec_scan_state(styled_code@, false) == false);

            let a1 = " "@;
            let a2 = a1 + styled_icon@;
            let a3 = a2 + " "@;
            let a4 = a3 + styled_label@;
            let a5 = a4 + " "@;
            let lseg = a5 + styled_title@;
            assert(left_part@ =~= lseg);
            lemma_stripped_concat(a1, styled_icon@);
            lemma_stripped_concat(a2, " "@);
            lemma_stripped_concat(a3, styled_label@);
            lemma_stripped_concat(a4, " "@);
            lemma_stripped_concat(a5, styled_title@);
            assert(spec_stripped(lseg) =~= " "@ + spec_icon(level) + " "@ + label_colon@ + " "@
                + upper_of(title@));
            assert(" "@ + spec_icon(level) + " "@ + label_colon@ + " "@ + upper_of(title@)
                =~= spec_header_left_plain(level, upper_of(title@)));

            let b1 = "["@;
            let b2 = b1 + styled_code@;
            let b3 = b2 + "] "@;
            let b4 = b3 + time@;
            let rseg = b4 + " "@;
            assert(right_inner@ =~= rseg);
            lemma_stripped_concat(b1, styled_code@);
            lemma_stripped_concat(b2, "] "@);
            lemma_stripped_concat(b3, time@);
            lemma_stripped_concat(b4, " "@);
            assert(spec_stripped(rseg) =~= spec_header_right_plain(code@, time@));
            assert(spec_stripped(right_part@) == spec_stripped(right_inner@));
        }
    }
    draw_two_part_row(out, frame.border_v, left_part.as_str(), space_needed, right_part.as_str());
    let ghost row = spec_border_v(level) + left_part@ + char_repeat(
        ' ',
        spec_header_pad(level, upper_of(title@), code@, time@, width as nat),
    ) + right_part@ + spec_border_v(level) + "\n"@;
    proof {
        assert(out@ =~= old(out)@ + row);
    }
    Ghost(row)
}

/// Append one framed content row of styled text and return it.
fn emit_content_row(
    out: &mut String,
    frame: &Frame,
    level: PrettyMessageLevel,
    width: usize,
    content: &str,
) -> (row: Ghost<Seq<char>>)
    requires
        frame_matches(*frame, level),
    ensures
        final(out)@ == old(out)@ + row@,
        is_padded_row(level, width as nat, row@),
{
    draw_row(out, frame, width, content);
    proof {
        lemma_padded_row_intro(level, width as nat, content@);
    }
    Ghost(spec_padded_row(spec_border_v(level), width as nat, content@, ""@))
}

/// Append the wrapped lines of one text block, one framed content row
/// per wrapped line, each with the block's indent and styling and each
/// occupying exactly the visible columns of its line.
fn emit_wrapped_block(
    out: &mut String,
    frame: &Frame,
    level: PrettyMessageLevel,
    width: usize,
    text: &str,
    wrap_w: usize,
    kind: BlockKind,
) -> (added: Ghost<Seq<Seq<char>>>)
    requires
        frame_matches(*frame, level),
        wrap_w >= 1,
    ensures
        final(out)@ == old(out)@ + rows_concat(added@),
        added@.len() >= 1,
        forall|i: int| 0 <= i < added@.len() ==> is_padded_row(level, width as nat, added@[i]),
        are_text_rows(
            level,
            width as nat,
            spec_block_indent(kind),
            wrap_of(text@, wrap_w),
            added@,
        ),
{
    let lines = wrap_text(text, wrap_w);
    let ghost mut added: Seq<Seq<char>> = Seq::empty();
    let mut k: usize = 0;
    proof {
        assert(out@ =~= old(out)@ + rows_concat(added));
        assert(lines.deep_view().take(0) =~= Seq::<Seq<char>>::empty());
    }
    while k < lines.len()
        invariant
            0 <= k <= lines.len(),
            lines@.len() >= 1,
            lines.deep_view() == wrap_of(text@, wrap_w),
            frame_matches(*frame, level),
            out@ == old(out)@ + rows_concat(added),
            added.len() == k,
            forall|i: int| 0 <= i < added.len() ==> is_padded_row(level, width as nat, added[i]),
            are_text_rows(
                level,
                width as nat,
                spec_block_indent(kind),
                lines.deep_view().take(k as int),
                added,
            ),
        decreases lines.len() - k,
    {
        let styled = match kind {
            BlockKind::Message => style_white(lines[k].as_str()),
            BlockKind::Context => style_dim_italic(lines[k].as_str()),
            BlockKind::Hint => paint(lines[k].as_str(), crate::frame::Paint::Yellow, false),
        };
        let mut content = String::new();
        match kind {
            BlockKind::Message => content.append("  "),
            BlockKind::Context => content.append("  "),
            BlockKind::Hint => content.append("     "),
        }
        content.append(styled.as_str());
        draw_row(out, frame, width, content.as_str());
        proof {
            let ind = spec_block_indent(kind);
            let row = spec_padded_row(spec_border_v(level), width as nat, content@, ""@);
            assert(content@ =~= ind + styled@);
            assert(row == spec_padded_row(spec_border_v(level), width as nat, ind + styled@, ""@));
            assert(spec_visible_width(styled@) == spec_visible_width(lines.deep_view()[k as int]));
            assert(spec_stripped(styled@) == spec_stripped(lines.deep_view()[k as int]));
            assert(is_text_row(level, width as nat, ind, lines.deep_view()[k as int], row));
            lemma_rows_concat_push(added, row);
            added = added.push(row);
            lemma_padded_row_intro(level, width as nat, content@);
            assert(out@ =~= old(out)@ + rows_concat(added));
            assert(lines.deep_view().take(k + 1).drop_last() =~= lines.deep_view().take(k as int));
            assert forall|i: int|
                0 <= i < added.len() implies is_text_row(
                level,
                width as nat,
                ind,
                lines.deep_view().take(k + 1)[i],
                added[i],
            ) by {
                if i < k {
                    assert(added[i] == added.drop_last()[i]);
                    assert(lines.deep_view().take(k + 1)[i] == lines.deep_view().take(k as int)[i]);
                } else {
                    assert(added[i] == row);
                    assert(lines.deep_view().take(k + 1)[i] == lines.deep_view()[k as int]);
                }
            }
        }
        k = k + 1;
    }
    proof {
        assert(lines.deep_view().take(lines.deep_view().len() as int) =~= lines.deep_view());
    }
    Ghost(added)
}

/// Interior rows so far: a header first, then padded rows and dividers.
pub open spec fn rows_wf(
    level: PrettyMessageLevel,
    width: nat,
    title_up: Seq<char>,
    code: Seq<char>,
    time: Seq<char>,
    rows: Seq<Seq<char>>,
) -> bool {
    &&& rows.len() >= 1
    &&& is_header_row(level, width, title_up, code, time, rows[0])
    &&& forall|i: int|
        1 <= i < rows.len() ==> (is_padded_row(level, width, rows[i]) || rows[i]
            == spec_divider_row(level, width))
}

/// A blank interior row: nothing but padding between the borders.
pub open spec fn spec_blank_row(level: PrettyMessageLevel, width: nat) -> Seq<char> {
    spec_padded_row(spec_border_v(level), width, ""@, ""@)
}

/// The location row: an indented bullet, the word `at` and the location,
/// whose visible text is exactly `"   ‣at {location}"` for the
/// location's own visible text.
pub open spec fn is_location_row(
    level: PrettyMessageLevel,
    width: nat,
    location: Seq<char>,
    row: Seq<char>,
) -> bool {
    exists|lc: Seq<char>|
        #![trigger spec_padded_row(spec_border_v(level), width, lc, ""@)]
        {
            &&& spec_stripped(lc) == "   \u{2023}at "@ + spec_stripped(location)
            &&& row == spec_padded_row(spec_border_v(level), width, lc, ""@)
        }
}

/// The complete interior of one box, row by row: the header first; the
/// location row second when a location is given; a divider and a blank
/// row; one content row per wrapped message line; a blank row; when
/// context is given, its label row, its wrapped lines and a blank row;
/// when a hint is given, a divider, its label row and its wrapped lines
/// at the end; and nothing that is not a framed, visibly-padded row or a
/// divider.
pub open spec fn box_rows_wf(
    level: PrettyMessageLevel,
    width: nat,
    title: Seq<char>,
    code: Seq<char>,
    message: Seq<char>,
    context: Option<Seq<char>>,
    hint: Option<Seq<char>>,
    location: Option<Seq<char>>,
    t: Seq<char>,
    rows: Seq<Seq<char>>,
) -> bool {
    let k = if location is Some {
        4int
    } else {
        3int
    };
    let mlines = wrap_of(message, spec_msg_wrap_width(width));
    &&& rows.len() >= 5
    &&& rows.len() == k + mlines.len() + 1 + (match context {
        Some(c) => wrap_of(c, spec_msg_wrap_width(width)).len() + 2,
        None => 0nat,
    }) + (match hint {
        Some(h) => wrap_of(h, spec_hint_wrap_width(width)).len() + 2,
        None => 0nat,
    })
    &&& rows_wf(level, width, upper_of(title), code, t, rows)
    &&& match location {
        Some(loc) => is_location_row(level, width, loc, rows[1]),
        None => true,
    }
    &&& rows[k - 2] == spec_divider_row(level, width)
    &&& rows[k - 1] == spec_blank_row(level, width)
    &&& k + mlines.len() + 1 <= rows.len()
    &&& are_text_rows(level, width, "  "@, mlines, rows.subrange(k, k + mlines.len() as int))
    &&& rows[k + mlines.len()] == spec_blank_row(level, width)
    &&& match context {
        Some(c) => {
            let clines = wrap_of(c, spec_msg_wrap_width(width));
            let cs = k + mlines.len() + 2;
            &&& cs + clines.len() + 1 <= rows.len()
            &&& is_text_row(level, width, "  "@, "CONTEXT:"@, rows[cs - 1])
            &&& are_text_rows(
                level,
                width,
                "  "@,
                clines,
                rows.subrange(cs, cs + clines.len() as int),
            )
            &&& rows[cs + clines.len()] == spec_blank_row(level, width)
        },
        None => true,
    }
    &&& match hint {
        Some(h) => {
            let hlines = wrap_of(h, spec_hint_wrap_width(width));
            let hs = rows.len() - hlines.len();
            &&& hlines.len() + 2 <= rows.len()
            &&& rows[hs - 2] == spec_divider_row(level, width)
            &&& is_text_row(level, width, "  "@, "\u{279c}  HINT"@, rows[hs - 1])
            &&& are_text_rows(level, width, "     "@, hlines, rows.subrange(hs, rows.len() as int))
        },
        None => true,
    }
}

/// Concatenation of character sequences is associative.
proof fn lemma_app_assoc(a: Seq<char>, b: Seq<char>, c: Seq<char>)
    ensures
        (a + b) + c == a + (b + c),
{
    assert((a + b) + c =~= a + (b + c));
}

/// A well-formed row list stays well formed when a padded row or a
/// divider is appended.
proof fn lemma_rows_wf_push(
    level: PrettyMessageLevel,
    width: nat,
    title_up: Seq<char>,
    code: Seq<char>,
    time: Seq<char>,
    rows: Seq<Seq<char>>,
    row: Seq<char>,
)
    requires
        rows_wf(level, width, title_up, code, time, rows),
        is_padded_row(level, width, row) || row == spec_divider_row(level, width),
    ensures
        rows_wf(level, width, title_up, code, time, rows.push(row)),
{
    let all = rows.push(row);
    assert(all[0] == rows[0]);
    assert forall|i: int|
        1 <= i < all.len() implies (is_padded_row(level, width, all[i]) || all[i]
        == spec_divider_row(level, width)) by {
        if i < rows.len() {
            assert(all[i] == rows[i]);
        } else {
            assert(all[i] == row);
        }
    }
}

/// Append one styled content row and account for it in the row list.
fn push_content_row(
    out: &mut String,
    frame: &Frame,
    level: PrettyMessageLevel,
    width: usize,
    content: &str,
    rows: Ghost<Seq<Seq<char>>>,
) -> (new_rows: Ghost<Seq<Seq<char>>>)
    requires
        frame_matches(*frame, level),
    ensures
        new_rows@ == rows@.push(
            spec_padded_row(spec_border_v(level), width as nat, content@, ""@),
        ),
        rows_concat(new_rows@) == rows_concat(rows@) + spec_padded_row(
            spec_border_v(level),
            width as nat,
            content@,
            ""@,
        ),
        final(out)@ == old(out)@ + spec_padded_row(
            spec_border_v(level),
            width as nat,
            content@,
            ""@,
        ),
        is_padded_row(
            level,
            width as nat,
            spec_padded_row(spec_border_v(level), width as nat, content@, ""@),
        ),
{
    draw_row(out, frame, width, content);
    proof {
        let row = spec_padded_row(spec_border_v(level), width as nat, content@, ""@);
        lemma_rows_concat_push(rows@, row);
        lemma_padded_row_intro(level, width as nat, content@);
    }
    Ghost(rows@.push(spec_padded_row(spec_border_v(level), width as nat, content@, ""@)))
}

/// Append a divider row and account for it in the row list.
fn push_divider(
    out: &mut String,
    frame: &Frame,
    level: PrettyMessageLevel,
    width: usize,
    rows: Ghost<Seq<Seq<char>>>,
) -> (new_rows: Ghost<Seq<Seq<char>>>)
    requires
        frame_matches(*frame, level),
    ensures
        new_rows@ == rows@.push(spec_divider_row(level, width as nat)),
        rows_concat(new_rows@) == rows_concat(rows@) + spec_divider_row(level, width as nat),
        final(out)@ == old(out)@ + spec_divider_row(level, width as nat),
{
    draw_horizontal_line(out, frame, width, false);
    proof {
        lemma_rows_concat_push(rows@, spec_divider_row(level, width as nat));
    }
    Ghost(rows@.push(spec_divider_row(level, width as nat)))
}

/// Append the top interior rows: the header, the optional location row,
/// the divider under the header, and the blank row that opens the
/// message block.
#[verifier::rlimit(100)]
#[verifier::spinoff_prover]
fn emit_preamble(
    out: &mut String,
    frame: &Frame,
    level: PrettyMessageLevel,
    width: usize,
    title: &str,
    code: &str,
    time: &str,
    location: Option<&str>,
) -> (rows: Ghost<Seq<Seq<char>>>)
    requires
        frame_matches(*frame, level),
    ensures
        final(out)@ == old(out)@ + rows_concat(rows@),
        rows_wf(level, width as nat, upper_of(title@), code@, time@, rows@),
        rows@.len() == (if location is Some {
            4int
        } else {
            3int
        }),
        match view_opt(location) {
            Some(loc) => is_location_row(level, width as nat, loc, rows@[1]),
            None => true,
        },
        rows@[rows@.len() - 2] == spec_divider_row(level, width as nat),
        rows@[rows@.len() - 1] == spec_blank_row(level, width as nat),
{
    let ghost base = out@;
    let header = emit_header(out, frame, level, width, title, code, time);
    let ghost mut rows: Seq<Seq<char>> = seq![header@];
    proof {
        lemma_rows_concat_push(Seq::<Seq<char>>::empty(), header@);
        assert(Seq::<Seq<char>>::empty().push(header@) =~= seq![header@]);
        assert(rows_concat(Seq::<Seq<char>>::empty()) + header@ =~= header@);
        assert(out@ == base + rows_concat(rows));
        assert(rows_wf(level, width as nat, upper_of(title@), code@, time@, rows));
    }

    if let Some(loc) = location {
        let mut loc_content = String::new();
        loc_content.append("   ");
        let bullet = style_black("\u{2023}");
        loc_content.append(bullet.as_str());
        let at_word = style_black_italic("at");
        loc_content.append(at_word.as_str());
        loc_content.append(" ");
        let loc_styled = style_link(loc);
        loc_content.append(loc_styled.as_str());
        let ghost r0 = rows;
        let nr = push_content_row(out, frame, level, width, loc_content.as_str(), Ghost(rows));
        proof {
            rows = nr@;
            lemma_app_assoc(
                base,
                rows_concat(r0),
                spec_padded_row(spec_border_v(level), width as nat, loc_content@, ""@),
            );
            lemma_rows_wf_push(
                level,
                width as nat,
                upper_of(title@),
                code@,
                time@,
                r0,
                spec_padded_row(spec_border_v(level), width as nat, loc_content@, ""@),
            );
            assert(out@ == base + rows_concat(rows));
            reveal_strlit("   ");
            reveal_strlit("\u{2023}");
            reveal_strlit("at");
            reveal_strlit(" ");
            reveal_strlit("   \u{2023}at ");
            assert(esc_free("   "@));
            assert(esc_free("\u{2023}"@));
            assert(esc_free("at"@));
            assert(esc_free(" "@));
            lemma_esc_free_stripped("   "@);
            lemma_esc_free_stripped("\u{2023}"@);
            lemma_esc_free_stripped("at"@);
            lemma_esc_free_stripped(" "@);
            assert(spec_scan_state(bullet@, false) == false);
            assert(spec_scan_state(at_word@, false) == false);
            let c1 = "   "@;
            let c2 = c1 + bullet@;
            let c3 = c2 + at_word@;
            let c4 = c3 + " "@;
            let lcv = c4 + loc_styled@;
            assert(loc_content@ =~= lcv);
            lemma_stripped_concat(c1, bullet@);
            lemma_stripped_concat(c2, at_word@);
            lemma_stripped_concat(c3, " "@);
            lemma_stripped_concat(c4, loc_styled@);
            assert(spec_stripped(lcv) =~= "   \u{2023}at "@ + spec_stripped(loc@));
            assert(is_location_row(
                level,
                width as nat,
                loc@,
                spec_padded_row(spec_border_v(level), width as nat, loc_content@, ""@),
            ));
        }
    }

    let ghost r1 = rows;
    let nr1 = push_divider(out, frame, level, width, Ghost(rows));
    proof {
        rows = nr1@;
        lemma_app_assoc(base, rows_concat(r1), spec_divider_row(level, width as nat));
        lemma_rows_wf_push(
            level,
            width as nat,
            upper_of(title@),
            code@,
            time@,
            r1,
            spec_divider_row(level, width as nat),
        );
        assert(out@ == base + rows_concat(rows));
    }

    let ghost r2 = rows;
    let nr2 = push_content_row(out, frame, level, width, "", Ghost(rows));
    proof {
        rows = nr2@;
        lemma_app_assoc(base, rows_concat(r2), spec_blank_row(level, width as nat));
        lemma_rows_wf_push(
            level,
            width as nat,
            upper_of(title@),
            code@,
            time@,
            r2,
            spec_blank_row(level, width as nat),
        );
        assert(out@ == base + rows_concat(rows));
    }
    Ghost(rows)
}

/// Append the context section: its label row, its wrapped lines, and a
/// closing blank row.
#[verifier::rlimit(100)]
#[verifier::spinoff_prover]
fn emit_context_section(
    out: &mut String,
    frame: &Frame,
    level: PrettyMessageLevel,
    width: usize,
    ctx: &str,
    wrap_w: usize,
) -> (added: Ghost<Seq<Seq<char>>>)
    requires
        frame_matches(*frame, level),
        wrap_w >= 1,
    ensures
        final(out)@ == old(out)@ + rows_concat(added@),
        added@.len() == wrap_of(ctx@, wrap_w).len() + 2,
        forall|i: int| 0 <= i < added@.len() ==> is_padded_row(level, width as nat, added@[i]),
        is_text_row(level, width as nat, "  "@, "CONTEXT:"@, added@[0]),
        are_text_rows(
            level,
            width as nat,
            "  "@,
            wrap_of(ctx@, wrap_w),
            added@.subrange(1, added@.len() - 1),
        ),
        added@[added@.len() - 1] == spec_blank_row(level, width as nat),
{
    let ghost base = out@;
    let mut label_row = String::new();
    label_row.append("  ");
    let ctx_label = style_dim("CONTEXT:");
    label_row.append(ctx_label.as_str());
    draw_row(out, frame, width, label_row.as_str());
    let ghost lrow = spec_padded_row(spec_border_v(level), width as nat, label_row@, ""@);
    let ghost mut added: Seq<Seq<char>> = seq![lrow];
    proof {
        lemma_rows_concat_push(Seq::<Seq<char>>::empty(), lrow);
        assert(Seq::<Seq<char>>::empty().push(lrow) =~= seq![lrow]);
        assert(rows_concat(Seq::<Seq<char>>::empty()) + lrow =~= lrow);
        assert(out@ == base + rows_concat(added));
        lemma_padded_row_intro(level, width as nat, label_row@);
        assert(label_row@ =~= "  "@ + ctx_label@);
        assert(lrow == spec_padded_row(
            spec_border_v(level),
            width as nat,
            "  "@ + ctx_label@,
            ""@,
        ));
        assert(is_text_row(level, width as nat, "  "@, "CONTEXT:"@, lrow));
    }
    let ghost a1 = added;
    let lines_rows = emit_wrapped_block(out, frame, level, width, ctx, wrap_w, BlockKind::Context);
    proof {
        lemma_rows_concat_app(a1, lines_rows@);
        lemma_app_assoc(base, rows_concat(a1), rows_concat(lines_rows@));
        added = a1 + lines_rows@;
        assert(out@ == base + rows_concat(added));
    }
    let ghost a2 = added;
    let nb = push_content_row(out, frame, level, width, "", Ghost(added));
    proof {
        added = nb@;
        lemma_app_assoc(base, rows_concat(a2), spec_blank_row(level, width as nat));
        assert(out@ == base + rows_concat(added));
        assert(added.subrange(1, added.len() - 1) =~= lines_rows@);
        assert forall|i: int|
            0 <= i < added.len() implies is_padded_row(level, width as nat, added[i]) by {
            if i == 0 {
                assert(added[i] == lrow);
            } else if i < added.len() - 1 {
                assert(added[i] == lines_rows@[i - 1]);
            } else {
                lemma_padded_row_intro(level, width as nat, ""@);
            }
        }
    }
    Ghost(added)
}

/// Append the hint section: a divider, the hint label row, and the
/// wrapped hint lines.
#[verifier::rlimit(100)]
#[verifier::spinoff_prover]
fn emit_hint_section(
    out: &mut String,
    frame: &Frame,
    level: PrettyMessageLevel,
    width: usize,
    hint: &str,
    hint_w: usize,
) -> (added: Ghost<Seq<Seq<char>>>)
    requires
        frame_matches(*frame, level),
        hint_w >= 1,
    ensures
        final(out)@ == old(out)@ + rows_concat(added@),
        added@.len() == wrap_of(hint@, hint_w).len() + 2,
        forall|i: int|
            0 <= i < added@.len() ==> (is_padded_row(level, width as nat, added@[i]) || added@[i]
                == spec_divider_row(level, width as nat)),
        added@[0] == spec_divider_row(level, width as nat),
        is_text_row(level, width as nat, "  "@, "\u{279c}  HINT"@, added@[1]),
        are_text_rows(
            level,
            width as nat,
            "     "@,
            wrap_of(hint@, hint_w),
            added@.subrange(2, added@.len() as int),
        ),
{
    let ghost base = out@;
    draw_horizontal_line(out, frame, width, false);
    let ghost drow = spec_divider_row(level, width as nat);
    let ghost mut added: Seq<Seq<char>> = seq![drow];
    proof {
        lemma_rows_concat_push(Seq::<Seq<char>>::empty(), drow);
        assert(Seq::<Seq<char>>::empty().push(drow) =~= seq![drow]);
        assert(rows_concat(Seq::<Seq<char>>::empty()) + drow =~= drow);
        assert(out@ == base + rows_concat(added));
    }
    let mut label_row = String::new();
    label_row.append("  ");
    let hint_label = paint("\u{279c}  HINT", crate::frame::Paint::Yellow, true);
    label_row.append(hint_label.as_str());
    let ghost a1 = added;
    let nl = push_content_row(out, frame, level, width, label_row.as_str(), Ghost(added));
    proof {
        added = nl@;
        lemma_app_assoc(base, rows_concat(a1), spec_padded_row(
            spec_border_v(level),
            width as nat,
            label_row@,
            ""@,
        ));
        assert(out@ == base + rows_concat(added));
        assert(label_row@ =~= "  "@ + hint_label@);
        assert(added[1] == spec_padded_row(
            spec_border_v(level),
            width as nat,
            "  "@ + hint_label@,
            ""@,
        ));
        assert(is_text_row(level, width as nat, "  "@, "\u{279c}  HINT"@, added[1]));
    }
    let ghost a2 = added;
    let lines_rows = emit_wrapped_block(out, frame, level, width, hint, hint_w, BlockKind::Hint);
    proof {
        lemma_rows_concat_app(a2, lines_rows@);
        lemma_app_assoc(base, rows_concat(a2), rows_concat(lines_rows@));
        added = a2 + lines_rows@;
        assert(out@ == base + rows_concat(added));
        assert(added.subrange(2, added.len() as int) =~= lines_rows@);
        assert forall|i: int|
            0 <= i < added.len() implies (is_padded_row(level, width as nat, added[i]) || added[i]
            == spec_divider_row(level, width as nat)) by {
            if i >= 2 {
                assert(added[i] == lines_rows@[i - 2]);
            }
        }
    }
    Ghost(added)
}
/// The sections laid end to end form the complete well-formed interior.
#[verifier::rlimit(100)]
#[verifier::spinoff_prover]
proof fn lemma_box_rows_assemble(
    level: PrettyMessageLevel,
    width: nat,
    title: Seq<char>,
    code: Seq<char>,
    message: Seq<char>,
    context: Option<Seq<char>>,
    hint: Option<Seq<char>>,
    location: Option<Seq<char>>,
    t: Seq<char>,
    pre: Seq<Seq<char>>,
    msg: Seq<Seq<char>>,
    cadd: Seq<Seq<char>>,
    hadd: Seq<Seq<char>>,
    rows: Seq<Seq<char>>,
)
    requires
        rows == pre + msg + seq![spec_blank_row(level, width)] + cadd + hadd,
        rows_wf(level, width, upper_of(title), code, t, pre),
        pre.len() == (if location is Some {
            4int
        } else {
            3int
        }),
        match location {
            Some(loc) => is_location_row(level, width, loc, pre[1]),
            None => true,
        },
        pre[pre.len() - 2] == spec_divider_row(level, width),
        pre[pre.len() - 1] == spec_blank_row(level, width),
        forall|i: int| 0 <= i < msg.len() ==> is_padded_row(level, width, msg[i]),
        msg.len() >= 1,
        are_text_rows(level, width, "  "@, wrap_of(message, spec_msg_wrap_width(width)), msg),
        match context {
            Some(c) => {
                &&& cadd.len() == wrap_of(c, spec_msg_wrap_width(width)).len() + 2
                &&& forall|i: int| 0 <= i < cadd.len() ==> is_padded_row(level, width, cadd[i])
                &&& is_text_row(level, width, "  "@, "CONTEXT:"@, cadd[0])
                &&& are_text_rows(
                    level,
                    width,
                    "  "@,
                    wrap_of(c, spec_msg_wrap_width(width)),
                    cadd.subrange(1, cadd.len() - 1),
                )
                &&& cadd[cadd.len() - 1] == spec_blank_row(level, width)
            },
            None => cadd == Seq::<Seq<char>>::empty(),
        },
        match hint {
            Some(h) => {
                &&& hadd.len() == wrap_of(h, spec_hint_wrap_width(width)).len() + 2
                &&& forall|i: int|
                    0 <= i < hadd.len() ==> (is_padded_row(level, width, hadd[i]) || hadd[i]
                        == spec_divider_row(level, width))
                &&& hadd[0] == spec_divider_row(level, width)
                &&& is_text_row(level, width, "  "@, "\u{279c}  HINT"@, hadd[1])
                &&& are_text_rows(
                    level,
                    width,
                    "     "@,
                    wrap_of(h, spec_hint_wrap_width(width)),
                    hadd.subrange(2, hadd.len() as int),
                )
            },
            None => hadd == Seq::<Seq<char>>::empty(),
        },
    ensures
        box_rows_wf(level, width, title, code, message, context, hint, location, t, rows),
{
    let k = if location is Some {
        4int
    } else {
        3int
    };
    let mlines = wrap_of(message, spec_msg_wrap_width(width));
    let mlen = mlines.len() as int;
    assert(msg.len() == mlen);
    assert(rows.len() == k + mlen + 1 + cadd.len() + hadd.len());
    assert(rows[0] == pre[0]);
    lemma_padded_row_intro(level, width, ""@);
    assert forall|i: int|
        1 <= i < rows.len() implies (is_padded_row(level, width, rows[i]) || rows[i]
        == spec_divider_row(level, width)) by {
        if i < k {
            assert(rows[i] == pre[i]);
        } else if i < k + mlen {
            assert(rows[i] == msg[i - k]);
        } else if i == k + mlen {
            assert(rows[i] == spec_blank_row(level, width));
        } else if i < k + mlen + 1 + cadd.len() {
            assert(rows[i] == cadd[i - (k + mlen + 1)]);
        } else {
            assert(rows[i] == hadd[i - (k + mlen + 1 + cadd.len())]);
        }
    }
    assert(rows.subrange(k, k + mlen) =~= msg);
    assert(rows[k + mlen] == spec_blank_row(level, width));
    assert(rows[k - 2] == pre[k - 2]);
    assert(rows[k - 1] == pre[k - 1]);
    if location is Some {
        assert(rows[1] == pre[1]);
    }
    match context {
        Some(c) => {
            let clines = wrap_of(c, spec_msg_wrap_width(width));
            let clen = clines.len() as int;
            let cs = k + mlen + 2;
            assert(rows[cs - 1] == cadd[0]);
            assert(rows.subrange(cs, cs + clen) =~= cadd.subrange(1, cadd.len() - 1));
            assert(rows[cs + clen] == cadd[cadd.len() - 1]);
        },
        None => {},
    }
    match hint {
        Some(h) => {
            let hlines = wrap_of(h, spec_hint_wrap_width(width));
            let hlen = hlines.len() as int;
            let hs = rows.len() - hlen;
            assert(rows[hs - 2] == hadd[0]);
            assert(rows[hs - 1] == hadd[1]);
            assert(rows.subrange(hs, rows.len() as int) =~= hadd.subrange(2, hadd.len() as int));
        },
        None => {},
    }
}

/// Append every interior row of one box: the header rows, the divider,
/// the message block, and the optional context and hint sections.
#[verifier::rlimit(100)]
#[verifier::spinoff_prover]
fn emit_interior(
    out: &mut String,
    frame: &Frame,
    level: PrettyMessageLevel,
    width: usize,
    title: &str,
    code: &str,
    time: &str,
    message: &str,
    context: Option<&str>,
    hint: Option<&str>,
    location: Option<&str>,
) -> (rows: Ghost<Seq<Seq<char>>>)
    requires
        frame_matches(*frame, level),
        width >= crate::frame::MIN_CONTENT_WIDTH,
    ensures
        final(out)@ == old(out)@ + rows_concat(rows@),
        box_rows_wf(
            level,
            width as nat,
            title@,
            code@,
            message@,
            view_opt(context),
            view_opt(hint),
            view_opt(location),
            time@,
            rows@,
        ),
{
    let ghost base = out@;
    let pre = emit_preamble(out, frame, level, width, title, code, time, location);
    let ghost mut rows: Seq<Seq<char>> = pre@;

    let wrap_sub = if width >= 4 {
        width - 4
    } else {
        0
    };
    let wrap_w: usize = if wrap_sub < 10 {
        10
    } else {
        wrap_sub
    };
    proof {
        assert(wrap_w as int == spec_msg_wrap_width(width as nat) as int);
    }
    let msg_rows = emit_wrapped_block(out, frame, level, width, message, wrap_w, BlockKind::Message);
    proof {
        lemma_rows_concat_app(pre@, msg_rows@);
        lemma_app_assoc(base, rows_concat(pre@), rows_concat(msg_rows@));
        rows = pre@ + msg_rows@;
        assert(out@ == base + rows_concat(rows));
    }
    let ghost r_mid = rows;
    let nb = push_content_row(out, frame, level, width, "", Ghost(rows));
    proof {
        rows = nb@;
        lemma_app_assoc(base, rows_concat(r_mid), spec_blank_row(level, width as nat));
        assert(out@ == base + rows_concat(rows));
        assert(rows =~= pre@ + msg_rows@ + seq![spec_blank_row(level, width as nat)]);
    }
    let ghost mut cadd: Seq<Seq<char>> = Seq::empty();
    if let Some(ctx) = context {
        let ghost r_ctx = rows;
        let ca = emit_context_section(out, frame, level, width, ctx, wrap_w);
        proof {
            cadd = ca@;
            lemma_rows_concat_app(r_ctx, cadd);
            lemma_app_assoc(base, rows_concat(r_ctx), rows_concat(cadd));
            rows = r_ctx + cadd;
            assert(out@ == base + rows_concat(rows));
        }
    }
    let ghost mut hadd: Seq<Seq<char>> = Seq::empty();
    if let Some(h) = hint {
        let hint_w: usize = if width >= 6 {
            width - 6
        } else {
            0
        };
        proof {
            assert(hint_w as int == spec_hint_wrap_width(width as nat) as int);
        }
        let ghost r_hint = rows;
        let ha = emit_hint_section(out, frame, level, width, h, hint_w);
        proof {
            hadd = ha@;
            lemma_rows_concat_app(r_hint, hadd);
            lemma_app_assoc(base, rows_concat(r_hint), rows_concat(hadd));
            rows = r_hint + hadd;
            assert(out@ == base + rows_concat(rows));
        }
    }
    proof {
        assert(rows =~= pre@ + msg_rows@ + seq![spec_blank_row(level, width as nat)] + cadd
            + hadd);
        lemma_box_rows_assemble(
            level,
            width as nat,
            title@,
            code@,
            message@,
            view_opt(context),
            view_opt(hint),
            view_opt(location),
            time@,
            pre@,
            msg_rows@,
            cadd,
            hadd,
            rows,
        );
    }
    Ghost(rows)
}



/// Render one complete message box into a string.
///
/// The output always has the `spec_rendered_box` shape: one leading blank
/// line, a top border, a header row, framed and exactly padded interior
/// rows, a bottom border and a closing blank line, at one content width
/// derived from the inputs.  The color bytes and the clock reading inside
/// depend on the process environment, so the shape, not the exact bytes,
/// is what is promised.
#[verifier::rlimit(100)]
#[verifier::spinoff_prover]
pub fn render_message(
    level: PrettyMessageLevel,
    title: &str,
    code: &str,
    message: &str,
    context: Option<&str>,
    hint: Option<&str>,
    location: Option<&str>,
    term_cap: usize,
) -> (r: String)
    ensures
        spec_rendered_box(
            r@,
            level,
            title@,
            code@,
            message@,
            view_opt(context),
            view_opt(hint),
            view_opt(location),
            term_cap as nat,
        ),
{
    let frame = frame_for(level);
    let time = now_hms();
    let width = compute_content_width(
        &frame,
        title,
        code,
        message,
        context,
        hint,
        location,
        time.as_str(),
        term_cap,
    );
    let ghost w = width as nat;
    proof {
        assert(w == box_width(
            level,
            title@,
            code@,
            message@,
            view_opt(context),
            view_opt(hint),
            view_opt(location),
            time@,
            term_cap as nat,
        ));
    }

    let mut out = String::new();
    out.append("\n");
    draw_border_row(&mut out, frame.border_tl, frame.line_color, width, frame.border_tr);
    let ghost pre = "\n"@ + spec_border_row(
        spec_corner_tl(level),
        spec_line_color(level),
        w,
        spec_corner_tr(level),
    );
    proof {
        assert(out@ =~= pre);
    }

    let rows = emit_interior(
        &mut out,
        &frame,
        level,
        width,
        title,
        code,
        time.as_str(),
        message,
        context,
        hint,
        location,
    );
    draw_border_row(&mut out, frame.border_bl, frame.line_color, width, frame.border_br);
    out.append("\n");
    proof {
        assert(out@ =~= "\n"@ + spec_border_row(
            spec_corner_tl(level),
            spec_line_color(level),
            w,
            spec_corner_tr(level),
        ) + rows_concat(rows@) + spec_border_row(
            spec_corner_bl(level),
            spec_line_color(level),
            w,
            spec_corner_br(level),
        ) + "\n"@);
        assert(spec_rendered_box(
            out@,
            level,
            title@,
            code@,
            message@,
            view_opt(context),
            view_opt(hint),
            view_opt(location),
            term_cap as nat,
        ));
    }
    out
}

/// Row padding never varies with color codes: a row whose text is
/// wrapped in leading and trailing escape sequences is padded exactly
/// like the row of the bare text.
pub proof fn lemma_row_padding_ignores_codes(
    level: PrettyMessageLevel,
    width: nat,
    p: Seq<char>,
    s: Seq<char>,
    q: Seq<char>,
)
    requires
        crate::width::is_escape_seq(p),
        crate::width::is_escape_seq(q),
    ensures
        spec_pad(width, p + s + q, ""@) == spec_pad(width, s, ""@),
{
    crate::width::lemma_visible_width_ignores_escapes(p, s, q);
}

/// A rendered box at some terminal cap: what an entry point that measures
/// the terminal itself can promise, since the measurement depends on the
/// environment.
pub open spec fn spec_rendered_box_some_cap(
    out: Seq<char>,
    level: PrettyMessageLevel,
    title: Seq<char>,
    code: Seq<char>,
    message: Seq<char>,
    context: Option<Seq<char>>,
    hint: Option<Seq<char>>,
    location: Option<Seq<char>>,
) -> bool {
    exists|cap: nat|
        #[trigger] spec_rendered_box(out, level, title, code, message, context, hint, location, cap)
}

/// Failure building an in-memory rendering.
#[derive(Clone, Copy, PartialEq, Eq, Structural, Debug)]
pub enum RenderError {
    /// The rendered bytes were not valid text.
    InvalidUtf8,
}

/// Relies on `std::io::Write::write_all` on the locked standard error
/// stream: whether the write succeeded.  Nothing is stated about the
/// stream itself.
#[verifier::external_body]
fn write_stderr(s: &str) -> (r: bool) {
    std::io::stderr().lock().write_all(s.as_bytes()).is_ok()
}

/// Materialize one message box as a string.
///
/// This is the same computation the streaming path writes out: both paths
/// emit the value of one `render_message` call, so for the same inputs and
/// environment they produce identical bytes.  Building the string cannot
/// fail, so the result is always `Ok`; the terminal cap inside the shape
/// is whatever the terminal reported at the time of the call.
pub fn pretty_message_to_string(
    level: PrettyMessageLevel,
    title: &str,
    code: &str,
    message: &str,
    context: Option<&str>,
    hint: Option<&str>,
    location: Option<&str>,
    columns: Option<&str>,
) -> (r: Result<String, RenderError>)
    ensures
        r is Ok,
        spec_rendered_box_some_cap(
            r->Ok_0@,
            level,
            title@,
            code@,
            message@,
            view_opt(context),
            view_opt(hint),
            view_opt(location),
        ),
{
    let cap = terminal_width_limit(detect_terminal_width(), columns);
    let rendered = render_message(level, title, code, message, context, hint, location, cap);
    proof {
        assert(spec_rendered_box(
            rendered@,
            level,
            title@,
            code@,
            message@,
            view_opt(context),
            view_opt(hint),
            view_opt(location),
            cap as nat,
        ));
        assert(spec_rendered_box_some_cap(
            rendered@,
            level,
            title@,
            code@,
            message@,
            view_opt(context),
            view_opt(hint),
            view_opt(location),
        ));
    }
    Ok(rendered)
}

/// Draw one message box on standard error.
///
/// The `columns` argument carries the `COLUMNS` environment value, if the
/// caller read one, for terminals that cannot be measured directly.
/// The bytes written are exactly the bytes `pretty_message_to_string`
/// materializes: the streaming path and the in-memory path share one
/// computation.  Write failures are swallowed, as befits a best-effort
/// diagnostic path.
pub fn print_pretty_message(
    level: PrettyMessageLevel,
    title: &str,
    code: &str,
    message: &str,
    context: Option<&str>,
    hint: Option<&str>,
    location: Option<&str>,
    columns: Option<&str>,
) {
    match pretty_message_to_string(level, title, code, message, context, hint, location, columns) {
        Ok(rendered) => {
            let _ok = write_stderr(rendered.as_str());
        },
        Err(_) => {},
    }
}

/// Draw an error box on standard error.
pub fn print_pretty_error(
    title: &str,
    code: &str,
    message: &str,
    context: Option<&str>,
    hint: Option<&str>,
    location: Option<&str>,
    columns: Option<&str>,
) {
    print_pretty_message(
        PrettyMessageLevel::Error,
        title,
        code,
        message,
        context,
        hint,
        location,
        columns,
    );
}

/// Draw a warning box on standard error.
pub fn print_pretty_warning(
    title: &str,
    code: &str,
    message: &str,
    context: Option<&str>,
    hint: Option<&str>,
    location: Option<&str>,
    columns: Option<&str>,
) {
    print_pretty_message(
        PrettyMessageLevel::Warning,
        title,
        code,
        message,
        context,
        hint,
        location,
        columns,
    );
}

/// Draw an informational box on standard error.
pub fn print_pretty_info(
    title: &str,
    code: &str,
    message: &str,
    context: Option<&str>,
    hint: Option<&str>,
    location: Option<&str>,
    columns: Option<&str>,
) {
    print_pretty_message(
        PrettyMessageLevel::Info,
        title,
        code,
        message,
        context,
        hint,
        location,
        columns,
    );
}

/// Draw a success box on standard error.
pub fn print_pretty_success(
    title: &str,
    code: &str,
    message: &str,
    context: Option<&str>,
    hint: Option<&str>,
    location: Option<&str>,
    columns: Option<&str>,
) {
    print_pretty_message(
        PrettyMessageLevel::Success,
        title,
        code,
        message,
        context,
        hint,
        location,
        columns,
    );
}

/// Draw an input-prompt box on standard error.
pub fn print_pretty_input(
    title: &str,
    code: &str,
    message: &str,
    context: Option<&str>,
    hint: Option<&str>,
    location: Option<&str>,
    columns: Option<&str>,
) {
    print_pretty_message(
        PrettyMessageLevel::Input,
        title,
        code,
        message,
        context,
        hint,
        location,
        columns,
    );
}

} // verus!
