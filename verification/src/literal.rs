//! The value of a Rust string literal, as the language defines it for the
//! escapes that a string literal token is written with.
use vstd::prelude::*;

verus! {

/// The value of a hexadecimal digit, or -1 for any other character.
pub open spec fn hex_digit_value(c: char) -> int {
    if '0' <= c && c <= '9' {
        c as int - '0' as int
    } else if 'a' <= c && c <= 'f' {
        c as int - 'a' as int + 10
    } else if 'A' <= c && c <= 'F' {
        c as int - 'A' as int + 10
    } else {
        -1
    }
}

/// The number that the hexadecimal digits `s` spell.
pub open spec fn hex_value(s: Seq<char>) -> int
    decreases s.len(),
{
    if s.len() == 0 {
        0
    } else {
        hex_value(s.drop_last()) * 16 + hex_digit_value(s.last())
    }
}

/// How many hexadecimal digits `s` starts with.
pub open spec fn hex_run(s: Seq<char>) -> nat
    decreases s.len(),
{
    if s.len() > 0 && hex_digit_value(s[0]) >= 0 {
        1 + hex_run(s.drop_first())
    } else {
        0
    }
}

/// A number that is the code of a `char` (no surrogate, at most 0x10FFFF).
pub open spec fn is_char_code(n: int) -> bool {
    (0 <= n && n <= 0xD7FF) || (0xE000 <= n && n <= 0x10FFFF)
}

/// The character that a one-character escape `\e` stands for.
pub open spec fn simple_escape(e: char) -> Option<char> {
    if e == 'n' {
        Some('\n')
    } else if e == 'r' {
        Some('\r')
    } else if e == 't' {
        Some('\t')
    } else if e == '\\' {
        Some('\\')
    } else if e == '0' {
        Some('\0')
    } else if e == '\'' {
        Some('\'')
    } else if e == '"' {
        Some('"')
    } else {
        None
    }
}

/// `c` in front of the decoded rest, if the rest decodes.
pub open spec fn prepend(c: char, rest: Option<Seq<char>>) -> Option<Seq<char>> {
    match rest {
        Some(r) => Some(seq![c] + r),
        None => None,
    }
}

/// The characters that the text between a string literal's quotes stands
/// for: characters other than `"`, `\` and a bare carriage return stand for
/// themselves; `\n`, `\r`, `\t`, `\\`, `\0`, `\'`, `\"`, `\xHH` (up to `\x7F`)
/// and `\u{H..}` (one to six digits naming a `char`) are escapes. `None` for
/// any other text (line continuations included, which the literal tokens here
/// never hold).
pub open spec fn unescape(s: Seq<char>) -> Option<Seq<char>>
    decreases s.len(),
{
    if s.len() == 0 {
        Some(Seq::empty())
    } else if s[0] == '"' || s[0] == '\r' {
        None
    } else if s[0] != '\\' {
        prepend(s[0], unescape(s.drop_first()))
    } else if s.len() >= 2 && simple_escape(s[1]) is Some {
        prepend(simple_escape(s[1])->Some_0, unescape(s.skip(2)))
    } else if s.len() >= 4 && s[1] == 'x' && '0' <= s[2] && s[2] <= '7' && hex_digit_value(s[3])
        >= 0 {
        prepend(hex_value(s.subrange(2, 4)) as char, unescape(s.skip(4)))
    } else if s.len() >= 3 && s[1] == 'u' && s[2] == '{' {
        let k = hex_run(s.skip(3)) as int;
        if 1 <= k && k <= 6 && s.len() > 3 + k && s[3 + k] == '}' && is_char_code(
            hex_value(s.subrange(3, 3 + k)),
        ) {
            prepend(hex_value(s.subrange(3, 3 + k)) as char, unescape(s.skip(4 + k)))
        } else {
            None
        }
    } else {
        None
    }
}

/// The value of the string literal token `lit` (its text, quotes included).
pub open spec fn string_literal_value(lit: Seq<char>) -> Option<Seq<char>> {
    if lit.len() >= 2 && lit[0] == '"' && lit[lit.len() - 1] == '"' {
        unescape(lit.subrange(1, lit.len() - 1))
    } else {
        None
    }
}

} // verus!
