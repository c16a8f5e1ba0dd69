//! Colour-coded terminal rendering.
//!
//! When coloured output is enabled, the entire formatted line is
//! wrapped in an ANSI colour determined solely by the event's severity:
//! trace is green, debug blue, info purple, warn yellow, and error red.
//! The wrapping never alters the plain line itself: stripping the
//! five-character colour prefix and the four-character reset suffix
//! recovers it exactly.

use vstd::prelude::*;

use crate::level::LogLevel;

verus! {

/// The ANSI colour prefix chosen for a severity level: an escape
/// character, `[`, the two-digit foreground colour code, and `m`.
pub open spec fn spec_colour_prefix(level: LogLevel) -> Seq<char> {
    match level {
        LogLevel::Trace => "\u{1b}[32m"@,
        LogLevel::Debug => "\u{1b}[34m"@,
        LogLevel::Info => "\u{1b}[35m"@,
        LogLevel::Warn => "\u{1b}[33m"@,
        LogLevel::Error => "\u{1b}[31m"@,
    }
}

/// The ANSI reset suffix that closes a coloured span.
pub open spec fn spec_colour_reset() -> Seq<char> {
    "\u{1b}[0m"@
}

/// The coloured rendering of a line: the severity's colour prefix, the
/// line unchanged, and the reset suffix.
pub open spec fn spec_colourise(level: LogLevel, line: Seq<char>) -> Seq<char> {
    spec_colour_prefix(level) + line + spec_colour_reset()
}

/// Relies on `ansi_term::Colour::paint` and the `Display` impl of the
/// string it returns: painting with `Colour::Green` yields the
/// foreground code `\x1B[32m`, the text unchanged, then the reset code
/// `\x1B[0m`.
#[verifier::external_body]
fn paint_green(line: &str) -> (r: String)
    ensures
        r@ == "\u{1b}[32m"@ + line@ + "\u{1b}[0m"@,
{
    ansi_term::Colour::Green.paint(line).to_string()
}

/// Relies on `ansi_term::Colour::paint` and the `Display` impl of the
/// string it returns: painting with `Colour::Blue` yields the
/// foreground code `\x1B[34m`, the text unchanged, then the reset code
/// `\x1B[0m`.
#[verifier::external_body]
fn paint_blue(line: &str) -> (r: String)
    ensures
        r@ == "\u{1b}[34m"@ + line@ + "\u{1b}[0m"@,
{
    ansi_term::Colour::Blue.paint(line).to_string()
}

/// Relies on `ansi_term::Colour::paint` and the `Display` impl of the
/// string it returns: painting with `Colour::Purple` yields the
/// foreground code `\x1B[35m`, the text unchanged, then the reset code
/// `\x1B[0m`.
#[verifier::external_body]
fn paint_purple(line: &str) -> (r: String)
    ensures
        r@ == "\u{1b}[35m"@ + line@ + "\u{1b}[0m"@,
{
    ansi_term::Colour::Purple.paint(line).to_string()
}

/// Relies on `ansi_term::Colour::paint` and the `Display` impl of the
/// string it returns: painting with `Colour::Yellow` yields the
/// foreground code `\x1B[33m`, the text unchanged, then the reset code
/// `\x1B[0m`.
#[verifier::external_body]
fn paint_yellow(line: &str) -> (r: String)
    ensures
        r@ == "\u{1b}[33m"@ + line@ + "\u{1b}[0m"@,
{
    ansi_term::Colour::Yellow.paint(line).to_string()
}

/// Relies on `ansi_term::Colour::paint` and the `Display` impl of the
/// string it returns: painting with `Colour::Red` yields the
/// foreground code `\x1B[31m`, the text unchanged, then the reset code
/// `\x1B[0m`.
#[verifier::external_body]
fn paint_red(line: &str) -> (r: String)
    ensures
        r@ == "\u{1b}[31m"@ + line@ + "\u{1b}[0m"@,
{
    ansi_term::Colour::Red.paint(line).to_string()
}

/// Wraps a formatted line in the ANSI colour fixed for the given
/// severity level.
pub fn format_log_colour(level: LogLevel, line: &str) -> (r: String)
    ensures
        r@ == spec_colourise(level, line@),
{
    match level {
        LogLevel::Trace => paint_green(line),
        LogLevel::Debug => paint_blue(line),
        LogLevel::Info => paint_purple(line),
        LogLevel::Warn => paint_yellow(line),
        LogLevel::Error => paint_red(line),
    }
}

/// The colour wrapping is reversible: the coloured rendering of a line
/// is exactly nine characters longer than the line, it begins with the
/// severity's colour prefix and ends with the reset suffix, and
/// stripping those recovers the plain line unchanged.
pub proof fn lemma_colourise_recoverable(level: LogLevel, line: Seq<char>)
    ensures
        spec_colourise(level, line).len() == line.len() + 9,
        spec_colourise(level, line).subrange(0, 5) == spec_colour_prefix(level),
        spec_colourise(level, line).subrange(5, line.len() as int + 5) == line,
        spec_colourise(level, line).subrange(
            line.len() as int + 5,
            line.len() as int + 9,
        ) == spec_colour_reset(),
{
    reveal_strlit("\u{1b}[32m");
    reveal_strlit("\u{1b}[34m");
    reveal_strlit("\u{1b}[35m");
    reveal_strlit("\u{1b}[33m");
    reveal_strlit("\u{1b}[31m");
    reveal_strlit("\u{1b}[0m");
    let c = spec_colourise(level, line);
    assert(c.subrange(0, 5) =~= spec_colour_prefix(level));
    assert(c.subrange(5, line.len() as int + 5) =~= line);
    assert(c.subrange(line.len() as int + 5, line.len() as int + 9) =~= spec_colour_reset());
}

} // verus!
