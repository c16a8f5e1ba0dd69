//! Fixed-shape message formatting.
//!
//! Every accepted event is rendered as a single line of the shape
//! `[<module-path> - <line-number>] <LEVEL>: <message>\n`; this plain
//! line is what the file sink receives verbatim, and it is the basis
//! for the terminal rendering.

use vstd::prelude::*;
use vstd::string::StringExecFns;

use crate::level::LogLevel;

verus! {

/// The decimal digit character for `d` (which must be below ten).
pub open spec fn dec_digit(d: nat) -> char {
    if d == 0 {
        '0'
    } else if d == 1 {
        '1'
    } else if d == 2 {
        '2'
    } else if d == 3 {
        '3'
    } else if d == 4 {
        '4'
    } else if d == 5 {
        '5'
    } else if d == 6 {
        '6'
    } else if d == 7 {
        '7'
    } else if d == 8 {
        '8'
    } else {
        '9'
    }
}

/// The decimal rendering of `n`, most significant digit first, with no
/// leading zeroes (`0` itself is rendered as the single digit `0`).
pub open spec fn dec_seq(n: nat) -> Seq<char>
    decreases n,
{
    if n < 10 {
        seq![dec_digit(n)]
    } else {
        dec_seq(n / 10).push(dec_digit(n % 10))
    }
}

/// Returns the one-character string for the decimal digit `d`.
fn digit_str(d: u32) -> (r: &'static str)
    requires
        d < 10,
    ensures
        r@ == seq![dec_digit(d as nat)],
{
    proof {
        reveal_strlit("0");
        reveal_strlit("1");
        reveal_strlit("2");
        reveal_strlit("3");
        reveal_strlit("4");
        reveal_strlit("5");
        reveal_strlit("6");
        reveal_strlit("7");
        reveal_strlit("8");
        reveal_strlit("9");
    }
    let r: &'static str = match d {
        0 => "0",
        1 => "1",
        2 => "2",
        3 => "3",
        4 => "4",
        5 => "5",
        6 => "6",
        7 => "7",
        8 => "8",
        _ => "9",
    };
    proof {
        assert(r@ =~= seq![dec_digit(d as nat)]);
    }
    r
}

/// Returns the decimal rendering of `n`.
pub fn u32_to_string(n: u32) -> (s: String)
    ensures
        s@ == dec_seq(n as nat),
    decreases n,
{
    if n < 10 {
        let s = String::from_str(digit_str(n));
        s
    } else {
        let mut s = u32_to_string(n / 10);
        s.append(digit_str(n % 10));
        proof {
            assert(s@ =~= dec_seq(n as nat));
        }
        s
    }
}

/// The formatted log line for an event: the originating module path and
/// source line in brackets, the upper-case level name, a colon, the
/// message, and a trailing line break.
pub open spec fn spec_format(
    module: Seq<char>,
    line: u32,
    level: LogLevel,
    message: Seq<char>,
) -> Seq<char> {
    "["@ + module + " - "@ + dec_seq(line as nat) + "] "@ + level.spec_name() + ": "@
        + message + "\n"@
}

/// Renders the formatted log line
/// `[<module-path> - <line-number>] <LEVEL>: <message>\n` for an event.
pub fn format_log_string(module: &str, line: u32, level: LogLevel, message: &str) -> (s:
    String)
    ensures
        s@ == spec_format(module@, line, level, message@),
{
    let mut s = String::from_str("[");
    s.append(module);
    s.append(" - ");
    let line_str = u32_to_string(line);
    s.append(line_str.as_str());
    s.append("] ");
    s.append(level.name());
    s.append(": ");
    s.append(message);
    s.append("\n");
    proof {
        assert(s@ =~= spec_format(module@, line, level, message@));
    }
    s
}

/// Whether a character sequence is free of the ANSI escape character,
/// and so holds no colour code.
pub open spec fn escape_free(s: Seq<char>) -> bool {
    forall|i: int| 0 <= i < s.len() ==> s[i] != '\u{1b}'
}

/// Concatenation preserves escape-freedom.
pub proof fn lemma_concat_escape_free(a: Seq<char>, b: Seq<char>)
    requires
        escape_free(a),
        escape_free(b),
    ensures
        escape_free(a + b),
{
    assert forall|i: int| 0 <= i < (a + b).len() implies (a + b)[i] != '\u{1b}' by {
        if i < a.len() {
            assert((a + b)[i] == a[i]);
        } else {
            assert((a + b)[i] == b[i - a.len()]);
        }
    }
}

/// A decimal rendering consists of digits only, so it is escape-free.
pub proof fn lemma_dec_seq_escape_free(n: nat)
    ensures
        escape_free(dec_seq(n)),
    decreases n,
{
    if n < 10 {
        assert(dec_seq(n)[0] == dec_digit(n));
    } else {
        lemma_dec_seq_escape_free(n / 10);
        assert forall|i: int| 0 <= i < dec_seq(n).len() implies dec_seq(n)[i] != '\u{1b}' by {
            if i < dec_seq(n / 10).len() {
                assert(dec_seq(n)[i] == dec_seq(n / 10)[i]);
            } else {
                assert(dec_seq(n)[i] == dec_digit(n % 10));
            }
        }
    }
}

/// A formatted log line holds no ANSI escape character, provided the
/// module path and the message hold none.
pub proof fn lemma_format_escape_free(
    module: Seq<char>,
    line: u32,
    level: LogLevel,
    message: Seq<char>,
)
    requires
        escape_free(module),
        escape_free(message),
    ensures
        escape_free(spec_format(module, line, level, message)),
{
    reveal_strlit("[");
    reveal_strlit(" - ");
    reveal_strlit("] ");
    reveal_strlit(": ");
    reveal_strlit("\n");
    reveal_strlit("TRACE");
    reveal_strlit("DEBUG");
    reveal_strlit("INFO");
    reveal_strlit("WARN");
    reveal_strlit("ERROR");
    lemma_dec_seq_escape_free(line as nat);
    assert(escape_free("["@));
    assert(escape_free(" - "@));
    assert(escape_free("] "@));
    assert(escape_free(": "@));
    assert(escape_free("\n"@));
    assert(escape_free(level.spec_name()));
    lemma_concat_escape_free("["@, module);
    lemma_concat_escape_free("["@ + module, " - "@);
    lemma_concat_escape_free("["@ + module + " - "@, dec_seq(line as nat));
    lemma_concat_escape_free("["@ + module + " - "@ + dec_seq(line as nat), "] "@);
    lemma_concat_escape_free(
        "["@ + module + " - "@ + dec_seq(line as nat) + "] "@,
        level.spec_name(),
    );
    lemma_concat_escape_free(
        "["@ + module + " - "@ + dec_seq(line as nat) + "] "@ + level.spec_name(),
        ": "@,
    );
    lemma_concat_escape_free(
        "["@ + module + " - "@ + dec_seq(line as nat) + "] "@ + level.spec_name() + ": "@,
        message,
    );
    lemma_concat_escape_free(
        "["@ + module + " - "@ + dec_seq(line as nat) + "] "@ + level.spec_name() + ": "@
            + message,
        "\n"@,
    );
}

} // verus!
