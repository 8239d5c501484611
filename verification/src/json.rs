//! The JSON text that `serde_json` writes for the small objects that the library hands
//! to the AI and hashes: compact, keys in sorted order, strings escaped.
use vstd::prelude::*;

verus! {

/// The JSON text of one character inside a string: `"` and `\` after a backslash; line
/// feed, carriage return, tab, backspace and form feed as their short escapes; any other
/// character below U+0020 as `\u00` and two lowercase hexadecimal digits; any other
/// character as it is.
pub open spec fn json_char(c: char) -> Seq<char> {
    let n = c as u32;
    if c == '"' {
        seq!['\\', '"']
    } else if c == '\\' {
        seq!['\\', '\\']
    } else if c == '\n' {
        seq!['\\', 'n']
    } else if c == '\r' {
        seq!['\\', 'r']
    } else if c == '\t' {
        seq!['\\', 't']
    } else if n == 8 {
        seq!['\\', 'b']
    } else if n == 12 {
        seq!['\\', 'f']
    } else if n < 32 {
        seq!['\\', 'u', '0', '0', "0123456789abcdef"@[(n / 16) as int], "0123456789abcdef"@[(n % 16) as int]]
    } else {
        seq![c]
    }
}

/// The characters of `s`, each written as inside a JSON string.
pub open spec fn json_escaped(s: Seq<char>) -> Seq<char>
    decreases s.len(),
{
    if s.len() == 0 {
        Seq::empty()
    } else {
        json_escaped(s.drop_last()) + json_char(s.last())
    }
}

/// The JSON string of `s`.
pub open spec fn json_string(s: Seq<char>) -> Seq<char> {
    seq!['"'] + json_escaped(s) + seq!['"']
}

/// The JSON value of an optional string: `null`, or the string.
pub open spec fn json_option(o: Option<Seq<char>>) -> Seq<char> {
    match o {
        None => "null"@,
        Some(s) => json_string(s),
    }
}

} // verus!
