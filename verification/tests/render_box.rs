//! Rendering tests: box shape, width selection, padding and wrapping.

use gmn_core::frame::PrettyMessageLevel;
use gmn_core::render::{pretty_message_to_string, render_message};
use gmn_core::term::terminal_width_limit;
use gmn_core::width::visible_len;

/// Lines of a rendered box; the output starts with one blank line and
/// ends with two newlines.
fn box_lines(rendered: &str) -> Vec<&str> {
    rendered.split('\n').collect()
}

/// The content width used by a box, read off the top border's dash run.
fn box_width(rendered: &str) -> usize {
    let lines = box_lines(rendered);
    lines[1].chars().filter(|c| *c == '\u{2500}').count()
}

#[test]
fn test_error_box_scenario() {
    colored::control::set_override(false);
    let rendered = render_message(
        PrettyMessageLevel::Error,
        "Configuration Error",
        "GMN-CFG-001",
        "Invalid log level: invalid_level",
        None,
        Some("Valid log levels: trace, debug, info, warn, error"),
        None,
        94,
    );
    let width = box_width(&rendered);
    assert_eq!(width, 58);
    assert!(width >= 40 && width <= 140);

    let lines = box_lines(&rendered);
    assert_eq!(lines[0], "");
    // Red border color on the frame rows.
    assert!(lines[1].contains("\u{1b}[31m"));
    // Header: icon, label, uppercased title on the left; code and a
    // clock reading on the right.
    assert!(lines[2].contains(" \u{2716} ERROR: CONFIGURATION ERROR"));
    assert!(lines[2].contains("[GMN-CFG-001] "));
    // The message is indented by two columns.
    assert!(rendered.contains("  Invalid log level: invalid_level"));
    // A hint block with its label.
    assert!(rendered.contains("\u{279c}  HINT"));
    assert!(rendered.contains("Valid log levels: trace,"));
    // Every interior row is padded to exactly the width plus the two
    // border glyphs.
    for i in 2..lines.len() - 3 {
        assert_eq!(visible_len(lines[i]), width + 2);
    }
}

#[test]
fn test_narrow_terminal_floor_beats_cap() {
    colored::control::set_override(false);
    let cap = terminal_width_limit(Some(20), None);
    assert_eq!(cap, 18);
    let rendered = render_message(
        PrettyMessageLevel::Warning,
        "Tight",
        "GMN-TRC-001",
        "narrow",
        None,
        None,
        None,
        cap,
    );
    // A 20-column terminal cannot override the 40-column floor.
    assert_eq!(box_width(&rendered), 40);
}

#[test]
fn test_wide_terminal_is_capped() {
    colored::control::set_override(false);
    let long_message = "m".repeat(400);
    let rendered = render_message(
        PrettyMessageLevel::Info,
        "Wide",
        "GMN-000",
        &long_message,
        None,
        None,
        None,
        500,
    );
    // The hard ceiling wins over a very wide terminal.
    assert_eq!(box_width(&rendered), 140);
}

#[test]
fn test_terminal_cap_limits_width() {
    colored::control::set_override(false);
    let long_message = "m".repeat(400);
    let rendered = render_message(
        PrettyMessageLevel::Info,
        "Wide",
        "GMN-000",
        &long_message,
        None,
        None,
        None,
        70,
    );
    assert_eq!(box_width(&rendered), 70);
}

#[test]
fn test_embedded_newline_rows() {
    colored::control::set_override(false);
    let rendered = render_message(
        PrettyMessageLevel::Info,
        "Lines",
        "GMN-000",
        "first part\nsecond part",
        None,
        None,
        None,
        94,
    );
    let lines = box_lines(&rendered);
    // One content row per line-break-delimited segment.
    assert!(lines.iter().any(|l| l.contains("  first part")));
    assert!(lines.iter().any(|l| l.contains("  second part")));
    assert!(!rendered.contains("first part second part"));
}

#[test]
fn test_unbreakable_token_stays_in_frame() {
    colored::control::set_override(false);
    let hint = "h".repeat(2000);
    let rendered = render_message(
        PrettyMessageLevel::Error,
        "Overflow",
        "GMN-000",
        "short",
        None,
        Some(&hint),
        None,
        300,
    );
    let width = box_width(&rendered);
    assert_eq!(width, 140);
    let lines = box_lines(&rendered);
    // The token is split at the width boundary: every row still fits the
    // frame exactly.
    for i in 2..lines.len() - 3 {
        assert_eq!(visible_len(lines[i]), width + 2);
    }
    // The 2000 columns of hint need many rows at 134 columns each.
    let hint_rows = lines.iter().filter(|l| l.contains("hhhh")).count();
    assert!(hint_rows >= 14);
}

#[test]
fn test_padding_ignores_color_codes() {
    colored::control::set_override(false);
    let plain = render_message(
        PrettyMessageLevel::Success,
        "Colors",
        "GMN-000",
        "abc",
        None,
        None,
        None,
        94,
    );
    let colored_msg = render_message(
        PrettyMessageLevel::Success,
        "Colors",
        "GMN-000",
        "\u{1b}[31mabc\u{1b}[0m",
        None,
        None,
        None,
        94,
    );
    assert_eq!(box_width(&plain), box_width(&colored_msg));
    let pl = box_lines(&plain);
    let cl = box_lines(&colored_msg);
    assert_eq!(pl.len(), cl.len());
    for i in 0..pl.len() {
        assert_eq!(visible_len(pl[i]), visible_len(cl[i]));
    }
}

#[test]
fn test_visible_len_skips_escapes() {
    assert_eq!(visible_len("abc"), 3);
    assert_eq!(visible_len("\u{1b}[31mabc\u{1b}[0m"), 3);
    // An unterminated escape swallows the rest of the string.
    assert_eq!(visible_len("abc\u{1b}[31"), 3);
    assert_eq!(visible_len(""), 0);
    // A wide character occupies two columns.
    assert_eq!(visible_len("\u{4f60}"), 2);
}

#[test]
fn test_wrapping_is_idempotent_on_wrapped_lines() {
    let text = "The renderer wraps long paragraphs of message text to the chosen \
                content width so that every row fits inside the frame exactly";
    let first: Vec<String> =
        textwrap::wrap(text, 36).into_iter().map(|l| l.into_owned()).collect();
    let joined = first.join("\n");
    let second: Vec<String> =
        textwrap::wrap(&joined, 36).into_iter().map(|l| l.into_owned()).collect();
    assert_eq!(first, second);
}

#[test]
fn test_to_string_matches_box_shape() {
    colored::control::set_override(false);
    let r = pretty_message_to_string(
        PrettyMessageLevel::Input,
        "Prompt",
        "GMN-000",
        "type something",
        Some("the setup step"),
        None,
        Some("main.rs:10"),
        None,
    );
    let rendered = r.expect("rendering into a string cannot fail");
    assert!(rendered.starts_with('\n'));
    assert!(rendered.ends_with("\n\n"));
    let width = box_width(&rendered);
    assert!(width >= 40 && width <= 140);
    assert!(rendered.contains(" \u{2328} INPUT: PROMPT"));
    assert!(rendered.contains("\u{2023}at main.rs:10"));
    assert!(rendered.contains("CONTEXT:"));
    assert!(rendered.contains("  the setup step"));
    let lines = box_lines(&rendered);
    for i in 2..lines.len() - 3 {
        assert_eq!(visible_len(lines[i]), width + 2);
    }
}

#[test]
fn test_terminal_width_fallbacks() {
    assert_eq!(terminal_width_limit(Some(100), None), 98);
    assert_eq!(terminal_width_limit(Some(1), None), 0);
    assert_eq!(terminal_width_limit(None, Some("80")), 78);
    assert_eq!(terminal_width_limit(None, Some("+0080")), 78);
    assert_eq!(terminal_width_limit(None, Some("1")), 0);
    assert_eq!(terminal_width_limit(None, Some("eighty")), 100);
    assert_eq!(terminal_width_limit(None, Some("")), 100);
    assert_eq!(terminal_width_limit(None, Some("-3")), 100);
    assert_eq!(terminal_width_limit(None, None), 100);
    // A detected terminal wins over the environment value.
    assert_eq!(terminal_width_limit(Some(50), Some("80")), 48);
}

#[test]
fn test_empty_inputs_render_minimal_box() {
    colored::control::set_override(false);
    let rendered = render_message(PrettyMessageLevel::Info, "", "", "", None, None, None, 94);
    // Nothing to show still keeps the floor width.
    let width = box_width(&rendered);
    assert_eq!(width, 40);
    let lines = box_lines(&rendered);
    for i in 2..lines.len() - 3 {
        assert_eq!(visible_len(lines[i]), width + 2);
    }
}
