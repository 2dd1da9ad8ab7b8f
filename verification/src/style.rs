//! Text styling through the `colored` crate, case conversion, and the
//! header timestamp.
//!
//! Every styling call either returns the text unchanged (when colors are
//! disabled for the process) or wraps it in complete `ESC ... m` color
//! sequences (re-applying the style after any reset already inside the
//! text, again as a complete sequence).  So the escape-stripped text of
//! the result equals that of the input, the visible width is unchanged,
//! and the result either is the input itself or leaves the scanner
//! outside the escape state.  The contracts state exactly that and
//! nothing more: the exact bytes depend on whether the process decides
//! to colorize.

use colored::Colorize;

use crate::frame::Paint;
use crate::width::{spec_scan_state, spec_stripped, spec_visible_width};
use vstd::prelude::*;

verus! {

/// What `str::to_uppercase` returns: a function of the characters alone.
pub uninterp spec fn upper_of(s: Seq<char>) -> Seq<char>;

/// What `str::to_lowercase` returns: a function of the characters alone.
pub uninterp spec fn lower_of(s: Seq<char>) -> Seq<char>;

/// Relies on `str::to_uppercase`: the result depends on the characters
/// alone, and an empty string stays empty.
#[verifier::external_body]
pub fn to_upper(s: &str) -> (r: String)
    ensures
        r@ == upper_of(s@),
        s@.len() == 0 ==> r@.len() == 0,
{
    s.to_uppercase()
}

/// Relies on `str::to_lowercase`: the result depends on the characters
/// alone, and an empty string stays empty.
#[verifier::external_body]
pub fn to_lower(s: &str) -> (r: String)
    ensures
        r@ == lower_of(s@),
        s@.len() == 0 ==> r@.len() == 0,
{
    s.to_lowercase()
}

/// Relies on `chrono::Local::now` formatted as `%H:%M:%S`: two zero-padded
/// digits per field separated by colons, eight characters in all, each a
/// decimal digit or a colon.  Which time comes back depends on the clock,
/// so nothing more is stated.
#[verifier::external_body]
pub fn now_hms() -> (r: String)
    ensures
        r@.len() == 8,
        forall|i: int|
            0 <= i < 8 ==> (r@[i] == ':' || ('0' <= r@[i] && r@[i] <= '9')),
{
    chrono::Local::now().format("%H:%M:%S").to_string()
}

/// Relies on `colored::Colorize::color` and `bold`: the result is the
/// input either unchanged or wrapped in complete `ESC ... m` sequences,
/// so its stripped text and visible width equal the input's.
#[verifier::external_body]
pub fn paint(s: &str, c: Paint, bold: bool) -> (r: String)
    ensures
        spec_visible_width(r@) == spec_visible_width(s@),
        spec_stripped(r@) == spec_stripped(s@),
        spec_scan_state(r@, false) == false || r@ == s@,
{
    let colored_str = match c {
        Paint::Red => s.color(colored::Color::Red),
        Paint::Yellow => s.color(colored::Color::Yellow),
        Paint::Blue => s.color(colored::Color::Blue),
        Paint::Green => s.color(colored::Color::Green),
        Paint::Cyan => s.color(colored::Color::Cyan),
    };
    if bold { colored_str.bold().to_string() } else { colored_str.to_string() }
}

/// Relies on `colored::Colorize::bold`: complete color sequences only,
/// so the stripped text and the visible width are unchanged.
#[verifier::external_body]
pub fn style_bold(s: &str) -> (r: String)
    ensures
        spec_visible_width(r@) == spec_visible_width(s@),
        spec_stripped(r@) == spec_stripped(s@),
        spec_scan_state(r@, false) == false || r@ == s@,
{
    s.bold().to_string()
}

/// Relies on `colored::Colorize::truecolor`: complete color sequences
/// only, so the stripped text and the visible width are unchanged.
#[verifier::external_body]
pub fn style_dim(s: &str) -> (r: String)
    ensures
        spec_visible_width(r@) == spec_visible_width(s@),
        spec_stripped(r@) == spec_stripped(s@),
        spec_scan_state(r@, false) == false || r@ == s@,
{
    s.truecolor(100, 100, 100).to_string()
}

/// Relies on `colored::Colorize::italic` and `truecolor`: complete color
/// sequences only, so the stripped text and the visible width are
/// unchanged.
#[verifier::external_body]
pub fn style_dim_italic(s: &str) -> (r: String)
    ensures
        spec_visible_width(r@) == spec_visible_width(s@),
        spec_stripped(r@) == spec_stripped(s@),
        spec_scan_state(r@, false) == false || r@ == s@,
{
    s.italic().truecolor(150, 150, 150).to_string()
}

/// Relies on `colored::Colorize::white`: complete color sequences only,
/// so the stripped text and the visible width are unchanged.
#[verifier::external_body]
pub fn style_white(s: &str) -> (r: String)
    ensures
        spec_visible_width(r@) == spec_visible_width(s@),
        spec_stripped(r@) == spec_stripped(s@),
        spec_scan_state(r@, false) == false || r@ == s@,
{
    s.white().to_string()
}

/// Relies on `colored::Colorize::black`: complete color sequences only,
/// so the stripped text and the visible width are unchanged.
#[verifier::external_body]
pub fn style_black(s: &str) -> (r: String)
    ensures
        spec_visible_width(r@) == spec_visible_width(s@),
        spec_stripped(r@) == spec_stripped(s@),
        spec_scan_state(r@, false) == false || r@ == s@,
{
    s.black().to_string()
}

/// Relies on `colored::Colorize::black` and `italic`: complete color
/// sequences only, so the stripped text and the visible width are
/// unchanged.
#[verifier::external_body]
pub fn style_black_italic(s: &str) -> (r: String)
    ensures
        spec_visible_width(r@) == spec_visible_width(s@),
        spec_stripped(r@) == spec_stripped(s@),
        spec_scan_state(r@, false) == false || r@ == s@,
{
    s.black().italic().to_string()
}

/// Relies on `colored::Colorize::bright_blue`, `underline` and `italic`:
/// complete color sequences only, so the stripped text and the visible
/// width are unchanged.
#[verifier::external_body]
pub fn style_link(s: &str) -> (r: String)
    ensures
        spec_visible_width(r@) == spec_visible_width(s@),
        spec_stripped(r@) == spec_stripped(s@),
        spec_scan_state(r@, false) == false || r@ == s@,
{
    s.bright_blue().underline().italic().to_string()
}

} // verus!
