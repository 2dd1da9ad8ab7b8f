//! Severity levels and the per-level frame style table.
//!
//! Each message level selects a fixed set of border glyphs (already wrapped
//! in their ANSI color codes), a line color, a dimmed line color, an icon
//! and a label.  The table is immutable; `frame_for` merely selects one of
//! five constant records.

use vstd::prelude::*;

verus! {

/// Minimum interior width of a rendered box, in display columns.
pub const MIN_CONTENT_WIDTH: usize = 40;

/// Maximum interior width of a rendered box, in display columns.
pub const MAX_CONTENT_WIDTH: usize = 140;

/// Breathing room added around the widest payload line.
pub const FRAME_MARGIN: usize = 4;

/// The ANSI reset sequence that closes every colored run.
pub const RESET: &'static str = "\u{1b}[0m";

/// Severity of a rendered message box.
#[derive(Clone, Copy, PartialEq, Eq, Structural, Debug)]
pub enum PrettyMessageLevel {
    Error,
    Warning,
    Info,
    Success,
    Input,
}

/// Foreground color used for icon and label text.
#[derive(Clone, Copy, PartialEq, Eq, Structural, Debug)]
pub enum Paint {
    Red,
    Yellow,
    Blue,
    Green,
    Cyan,
}

/// Glyphs and colors of one severity level.
pub struct Frame {
    /// Vertical border glyph, colored.
    pub border_v: &'static str,
    /// Top-left corner glyph, colored.
    pub border_tl: &'static str,
    /// Top-right corner glyph, colored.
    pub border_tr: &'static str,
    /// Bottom-left corner glyph, colored.
    pub border_bl: &'static str,
    /// Bottom-right corner glyph, colored.
    pub border_br: &'static str,
    /// Left T-junction glyph, colored.
    pub border_joint_left: &'static str,
    /// Right T-junction glyph, colored.
    pub border_joint_right: &'static str,
    /// ANSI color prefix for horizontal border runs.
    pub line_color: &'static str,
    /// Dimmed ANSI color prefix for divider runs.
    pub line_dim_color: &'static str,
    /// Icon glyph shown in the header.
    pub icon: &'static str,
    /// Short label shown in the header.
    pub label: &'static str,
    /// Color of the icon and label.
    pub label_color: Paint,
}

pub open spec fn spec_border_v(level: PrettyMessageLevel) -> Seq<char> {
    match level {
        PrettyMessageLevel::Error => "\u{1b}[31m\u{2502}\u{1b}[0m"@,
        PrettyMessageLevel::Warning => "\u{1b}[33m\u{2502}\u{1b}[0m"@,
        PrettyMessageLevel::Info => "\u{1b}[34m\u{2502}\u{1b}[0m"@,
        PrettyMessageLevel::Success => "\u{1b}[32m\u{2502}\u{1b}[0m"@,
        PrettyMessageLevel::Input => "\u{1b}[36m\u{2502}\u{1b}[0m"@,
    }
}

pub open spec fn spec_corner_tl(level: PrettyMessageLevel) -> Seq<char> {
    match level {
        PrettyMessageLevel::Error => "\u{1b}[31m\u{256d}\u{1b}[0m"@,
        PrettyMessageLevel::Warning => "\u{1b}[33m\u{256d}\u{1b}[0m"@,
        PrettyMessageLevel::Info => "\u{1b}[34m\u{256d}\u{1b}[0m"@,
        PrettyMessageLevel::Success => "\u{1b}[32m\u{256d}\u{1b}[0m"@,
        PrettyMessageLevel::Input => "\u{1b}[36m\u{256d}\u{1b}[0m"@,
    }
}

pub open spec fn spec_corner_tr(level: PrettyMessageLevel) -> Seq<char> {
    match level {
        PrettyMessageLevel::Error => "\u{1b}[31m\u{256e}\u{1b}[0m"@,
        PrettyMessageLevel::Warning => "\u{1b}[33m\u{256e}\u{1b}[0m"@,
        PrettyMessageLevel::Info => "\u{1b}[34m\u{256e}\u{1b}[0m"@,
        PrettyMessageLevel::Success => "\u{1b}[32m\u{256e}\u{1b}[0m"@,
        PrettyMessageLevel::Input => "\u{1b}[36m\u{256e}\u{1b}[0m"@,
    }
}

pub open spec fn spec_corner_bl(level: PrettyMessageLevel) -> Seq<char> {
    match level {
        PrettyMessageLevel::Error => "\u{1b}[31m\u{2570}\u{1b}[0m"@,
        PrettyMessageLevel::Warning => "\u{1b}[33m\u{2570}\u{1b}[0m"@,
        PrettyMessageLevel::Info => "\u{1b}[34m\u{2570}\u{1b}[0m"@,
        PrettyMessageLevel::Success => "\u{1b}[32m\u{2570}\u{1b}[0m"@,
        PrettyMessageLevel::Input => "\u{1b}[36m\u{2570}\u{1b}[0m"@,
    }
}

pub open spec fn spec_corner_br(level: PrettyMessageLevel) -> Seq<char> {
    match level {
        PrettyMessageLevel::Error => "\u{1b}[31m\u{256f}\u{1b}[0m"@,
        PrettyMessageLevel::Warning => "\u{1b}[33m\u{256f}\u{1b}[0m"@,
        PrettyMessageLevel::Info => "\u{1b}[34m\u{256f}\u{1b}[0m"@,
        PrettyMessageLevel::Success => "\u{1b}[32m\u{256f}\u{1b}[0m"@,
        PrettyMessageLevel::Input => "\u{1b}[36m\u{256f}\u{1b}[0m"@,
    }
}

pub open spec fn spec_joint_left(level: PrettyMessageLevel) -> Seq<char> {
    match level {
        PrettyMessageLevel::Error => "\u{1b}[31m\u{251c}\u{1b}[0m"@,
        PrettyMessageLevel::Warning => "\u{1b}[33m\u{251c}\u{1b}[0m"@,
        PrettyMessageLevel::Info => "\u{1b}[34m\u{251c}\u{1b}[0m"@,
        PrettyMessageLevel::Success => "\u{1b}[32m\u{251c}\u{1b}[0m"@,
        PrettyMessageLevel::Input => "\u{1b}[36m\u{251c}\u{1b}[0m"@,
    }
}

pub open spec fn spec_joint_right(level: PrettyMessageLevel) -> Seq<char> {
    match level {
        PrettyMessageLevel::Error => "\u{1b}[31m\u{2524}\u{1b}[0m"@,
        PrettyMessageLevel::Warning => "\u{1b}[33m\u{2524}\u{1b}[0m"@,
        PrettyMessageLevel::Info => "\u{1b}[34m\u{2524}\u{1b}[0m"@,
        PrettyMessageLevel::Success => "\u{1b}[32m\u{2524}\u{1b}[0m"@,
        PrettyMessageLevel::Input => "\u{1b}[36m\u{2524}\u{1b}[0m"@,
    }
}

pub open spec fn spec_line_color(level: PrettyMessageLevel) -> Seq<char> {
    match level {
        PrettyMessageLevel::Error => "\u{1b}[31m"@,
        PrettyMessageLevel::Warning => "\u{1b}[33m"@,
        PrettyMessageLevel::Info => "\u{1b}[34m"@,
        PrettyMessageLevel::Success => "\u{1b}[32m"@,
        PrettyMessageLevel::Input => "\u{1b}[36m"@,
    }
}

pub open spec fn spec_dim_color(level: PrettyMessageLevel) -> Seq<char> {
    match level {
        PrettyMessageLevel::Error => "\u{1b}[31;2m"@,
        PrettyMessageLevel::Warning => "\u{1b}[33;2m"@,
        PrettyMessageLevel::Info => "\u{1b}[34;2m"@,
        PrettyMessageLevel::Success => "\u{1b}[32;2m"@,
        PrettyMessageLevel::Input => "\u{1b}[36;2m"@,
    }
}

pub open spec fn spec_icon(level: PrettyMessageLevel) -> Seq<char> {
    match level {
        PrettyMessageLevel::Error => "\u{2716}"@,
        PrettyMessageLevel::Warning => "\u{26a0}"@,
        PrettyMessageLevel::Info => "\u{2139}"@,
        PrettyMessageLevel::Success => "\u{2714}"@,
        PrettyMessageLevel::Input => "\u{2328}"@,
    }
}

pub open spec fn spec_label(level: PrettyMessageLevel) -> Seq<char> {
    match level {
        PrettyMessageLevel::Error => "ERROR"@,
        PrettyMessageLevel::Warning => "WARNING"@,
        PrettyMessageLevel::Info => "INFO"@,
        PrettyMessageLevel::Success => "SUCCESS"@,
        PrettyMessageLevel::Input => "INPUT"@,
    }
}

pub open spec fn spec_label_color(level: PrettyMessageLevel) -> Paint {
    match level {
        PrettyMessageLevel::Error => Paint::Red,
        PrettyMessageLevel::Warning => Paint::Yellow,
        PrettyMessageLevel::Info => Paint::Blue,
        PrettyMessageLevel::Success => Paint::Green,
        PrettyMessageLevel::Input => Paint::Cyan,
    }
}

/// The icon and label glyphs carry no escape character, so they are their
/// own visible text.
pub proof fn lemma_frame_text_esc_free(level: PrettyMessageLevel)
    ensures
        crate::width::esc_free(spec_icon(level)),
        crate::width::esc_free(spec_label(level)),
{
    reveal_strlit("\u{2716}");
    reveal_strlit("\u{26a0}");
    reveal_strlit("\u{2139}");
    reveal_strlit("\u{2714}");
    reveal_strlit("\u{2328}");
    reveal_strlit("ERROR");
    reveal_strlit("WARNING");
    reveal_strlit("INFO");
    reveal_strlit("SUCCESS");
    reveal_strlit("INPUT");
}

/// All frame components of `f` are those of `level`.
pub open spec fn frame_matches(f: Frame, level: PrettyMessageLevel) -> bool {
    &&& f.border_v@ == spec_border_v(level)
    &&& f.border_tl@ == spec_corner_tl(level)
    &&& f.border_tr@ == spec_corner_tr(level)
    &&& f.border_bl@ == spec_corner_bl(level)
    &&& f.border_br@ == spec_corner_br(level)
    &&& f.border_joint_left@ == spec_joint_left(level)
    &&& f.border_joint_right@ == spec_joint_right(level)
    &&& f.line_color@ == spec_line_color(level)
    &&& f.line_dim_color@ == spec_dim_color(level)
    &&& f.icon@ == spec_icon(level)
    &&& f.label@ == spec_label(level)
    &&& f.label_color == spec_label_color(level)
}

/// Select the fixed style record of a severity level.
pub fn frame_for(level: PrettyMessageLevel) -> (f: Frame)
    ensures
        frame_matches(f, level),
{
    match level {
        PrettyMessageLevel::Error => Frame {
            border_v: "\u{1b}[31m\u{2502}\u{1b}[0m",
            border_tl: "\u{1b}[31m\u{256d}\u{1b}[0m",
            border_tr: "\u{1b}[31m\u{256e}\u{1b}[0m",
            border_bl: "\u{1b}[31m\u{2570}\u{1b}[0m",
            border_br: "\u{1b}[31m\u{256f}\u{1b}[0m",
            border_joint_left: "\u{1b}[31m\u{251c}\u{1b}[0m",
            border_joint_right: "\u{1b}[31m\u{2524}\u{1b}[0m",
            line_color: "\u{1b}[31m",
            line_dim_color: "\u{1b}[31;2m",
            icon: "\u{2716}",
            label: "ERROR",
            label_color: Paint::Red,
        },
        PrettyMessageLevel::Warning => Frame {
            border_v: "\u{1b}[33m\u{2502}\u{1b}[0m",
            border_tl: "\u{1b}[33m\u{256d}\u{1b}[0m",
            border_tr: "\u{1b}[33m\u{256e}\u{1b}[0m",
            border_bl: "\u{1b}[33m\u{2570}\u{1b}[0m",
            border_br: "\u{1b}[33m\u{256f}\u{1b}[0m",
            border_joint_left: "\u{1b}[33m\u{251c}\u{1b}[0m",
            border_joint_right: "\u{1b}[33m\u{2524}\u{1b}[0m",
            line_color: "\u{1b}[33m",
            line_dim_color: "\u{1b}[33;2m",
            icon: "\u{26a0}",
            label: "WARNING",
            label_color: Paint::Yellow,
        },
        PrettyMessageLevel::Info => Frame {
            border_v: "\u{1b}[34m\u{2502}\u{1b}[0m",
            border_tl: "\u{1b}[34m\u{256d}\u{1b}[0m",
            border_tr: "\u{1b}[34m\u{256e}\u{1b}[0m",
            border_bl: "\u{1b}[34m\u{2570}\u{1b}[0m",
            border_br: "\u{1b}[34m\u{256f}\u{1b}[0m",
            border_joint_left: "\u{1b}[34m\u{251c}\u{1b}[0m",
            border_joint_right: "\u{1b}[34m\u{2524}\u{1b}[0m",
            line_color: "\u{1b}[34m",
            line_dim_color: "\u{1b}[34;2m",
            icon: "\u{2139}",
            label: "INFO",
            label_color: Paint::Blue,
        },
        PrettyMessageLevel::Success => Frame {
            border_v: "\u{1b}[32m\u{2502}\u{1b}[0m",
            border_tl: "\u{1b}[32m\u{256d}\u{1b}[0m",
            border_tr: "\u{1b}[32m\u{256e}\u{1b}[0m",
            border_bl: "\u{1b}[32m\u{2570}\u{1b}[0m",
            border_br: "\u{1b}[32m\u{256f}\u{1b}[0m",
            border_joint_left: "\u{1b}[32m\u{251c}\u{1b}[0m",
            border_joint_right: "\u{1b}[32m\u{2524}\u{1b}[0m",
            line_color: "\u{1b}[32m",
            line_dim_color: "\u{1b}[32;2m",
            icon: "\u{2714}",
            label: "SUCCESS",
            label_color: Paint::Green,
        },
        PrettyMessageLevel::Input => Frame {
            border_v: "\u{1b}[36m\u{2502}\u{1b}[0m",
            border_tl: "\u{1b}[36m\u{256d}\u{1b}[0m",
            border_tr: "\u{1b}[36m\u{256e}\u{1b}[0m",
            border_bl: "\u{1b}[36m\u{2570}\u{1b}[0m",
            border_br: "\u{1b}[36m\u{256f}\u{1b}[0m",
            border_joint_left: "\u{1b}[36m\u{251c}\u{1b}[0m",
            border_joint_right: "\u{1b}[36m\u{2524}\u{1b}[0m",
            line_color: "\u{1b}[36m",
            line_dim_color: "\u{1b}[36;2m",
            icon: "\u{2328}",
            label: "INPUT",
            label_color: Paint::Cyan,
        },
    }
}

} // verus!
