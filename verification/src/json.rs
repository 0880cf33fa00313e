//! JSON text as serde_json writes it: quoted strings with their escapes,
//! and the documents this library assembles from them.
use vstd::prelude::*;
use crate::text::{int_decimal, push_text};

verus! {

/// Lower-case hexadecimal digit of `d` in `0..16`.
pub open spec fn hex_digit(d: int) -> char {
    if d < 10 {
        (('0' as int) + d) as char
    } else {
        (('a' as int) + d - 10) as char
    }
}

/// How serde_json writes one character inside a string: quote and
/// backslash escaped, the short escapes for backspace, tab, line feed,
/// form feed and carriage return, `\u00xx` for the other control
/// characters, every other character as it is.
pub open spec fn json_escape(c: char) -> Seq<char> {
    let u = c as u32;
    if c == '"' {
        seq!['\\', '"']
    } else if c == '\\' {
        seq!['\\', '\\']
    } else if u == 0x08 {
        seq!['\\', 'b']
    } else if u == 0x09 {
        seq!['\\', 't']
    } else if u == 0x0A {
        seq!['\\', 'n']
    } else if u == 0x0C {
        seq!['\\', 'f']
    } else if u == 0x0D {
        seq!['\\', 'r']
    } else if u < 0x20 {
        seq!['\\', 'u', '0', '0', hex_digit((u / 16) as int), hex_digit((u % 16) as int)]
    } else {
        seq![c]
    }
}

/// The escaped characters of `s`.
pub open spec fn json_escaped(s: Seq<char>) -> Seq<char>
    decreases s.len(),
{
    if s.len() == 0 {
        Seq::empty()
    } else {
        json_escaped(s.drop_last()) + json_escape(s.last())
    }
}

/// `s` as a JSON string: in double quotes, escaped.
pub open spec fn json_string(s: Seq<char>) -> Seq<char> {
    seq!['"'] + json_escaped(s) + seq!['"']
}

/// A JSON string, or `null` for none.
pub open spec fn json_opt_string(s: Option<Seq<char>>) -> Seq<char> {
    match s {
        Some(t) => json_string(t),
        None => seq!['n', 'u', 'l', 'l'],
    }
}

/// A JSON number, or `null` for none.
pub open spec fn json_opt_number(v: Option<int>) -> Seq<char> {
    match v {
        Some(n) => int_decimal(n),
        None => seq!['n', 'u', 'l', 'l'],
    }
}

/// `serde_json::to_string` of a `&str`, which cannot fail: the text as a
/// JSON string.
#[verifier::external_body]
pub(crate) fn json_quote(s: &str) -> (r: String)
    ensures
        r@ == json_string(s@),
{
    match serde_json::to_string(s) {
        Ok(t) => t,
        Err(_) => String::new(),
    }
}

/// Appends `s` as a JSON string, or `null`.
pub fn push_json_opt_string(out: &mut String, s: Option<&str>)
    ensures
        final(out)@ == old(out)@ + json_opt_string(match s {
            Some(t) => Some(t@),
            None => None,
        }),
{
    match s {
        Some(t) => {
            let q = json_quote(t);
            push_text(out, q.as_str());
        },
        None => {
            push_text(out, "null");
            proof {
                reveal_strlit("null");
            }
        },
    }
}

} // verus!
