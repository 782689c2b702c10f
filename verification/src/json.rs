//! JSON text exchanged with widget scripts: how strings are quoted, and what serde_json reads
//! from the messages scripts send.
use vstd::prelude::*;

verus! {

/// The lowercase hexadecimal digit of `n` (0 to 15).
pub open spec fn hex_digit(n: int) -> char {
    seq!['0', '1', '2', '3', '4', '5', '6', '7', '8', '9', 'a', 'b', 'c', 'd', 'e', 'f'][n]
}

/// How one character is written inside a JSON string: `"` and `\` behind a backslash, the
/// control characters with a short escape as `\b \t \n \f \r`, the other ones below U+0020
/// as `\u00xx` in lowercase hex, every other character as it is.
pub open spec fn json_escape(c: char) -> Seq<char> {
    if c == '"' {
        seq!['\\', '"']
    } else if c == '\\' {
        seq!['\\', '\\']
    } else if c == '\u{08}' {
        seq!['\\', 'b']
    } else if c == '\t' {
        seq!['\\', 't']
    } else if c == '\n' {
        seq!['\\', 'n']
    } else if c == '\u{0C}' {
        seq!['\\', 'f']
    } else if c == '\r' {
        seq!['\\', 'r']
    } else if (c as int) < 0x20 {
        seq!['\\', 'u', '0', '0', hex_digit(c as int / 16), hex_digit(c as int % 16)]
    } else {
        seq![c]
    }
}

/// The characters of `s`, each written as inside a JSON string.
pub open spec fn json_escape_all(s: Seq<char>) -> Seq<char>
    decreases s.len(),
{
    if s.len() == 0 {
        Seq::empty()
    } else {
        json_escape_all(s.drop_last()) + json_escape(s.last())
    }
}

/// The JSON string literal of the text `s`: its escaped characters between double quotes.
pub open spec fn json_string(s: Seq<char>) -> Seq<char> {
    seq!['"'] + json_escape_all(s) + seq!['"']
}

/// Calls `serde_json::to_string` on a string slice, which writes the JSON string literal of
/// the slice as [`json_string`] states it (serde_json's `format_escaped_str`). Writing to
/// memory cannot fail; the error arm is never taken.
#[verifier::external_body]
pub(crate) fn quote_json(s: &str) -> (r: String)
    ensures
        r@ == json_string(s@),
{
    match serde_json::to_string(s) {
        Ok(t) => t,
        Err(_) => String::new(),
    }
}

/// The characters of an optional string.
pub open spec fn opt_text(o: Option<String>) -> Option<Seq<char>> {
    match o {
        Some(s) => Some(s@),
        None => None,
    }
}

/// What serde_json reads from the text of a script's message: nothing where the text is not
/// JSON; else the `command` member where it is a string, the `id` member where it is a
/// string, and the JSON text of the `data` member where there is one.
pub uninterp spec fn message_of(payload: Seq<char>) -> Option<(Option<Seq<char>>, Option<Seq<char>>, Option<Seq<char>>)>;

/// Parses a message with `serde_json::from_str` into a `serde_json::Value` and picks its
/// `command`, `id` (each where it is a string) and `data` (as JSON text) members. The
/// contract claims only that the outcome depends on the text alone (named [`message_of`]).
#[verifier::external_body]
pub(crate) fn read_message(payload: &str) -> (r: Option<(Option<String>, Option<String>, Option<String>)>)
    ensures
        match r {
            None => message_of(payload@) is None,
            Some((c, i, d)) => message_of(payload@) == Some((opt_text(c), opt_text(i), opt_text(d))),
        },
{
    match serde_json::from_str::<serde_json::Value>(payload) {
        Ok(v) => Some((
            v.get("command").and_then(serde_json::Value::as_str).map(String::from),
            v.get("id").and_then(serde_json::Value::as_str).map(String::from),
            v.get("data").map(ToString::to_string),
        )),
        Err(_) => None,
    }
}

/// The JSON text of member `key` of the object that the JSON text `text` holds; nothing where
/// `text` is not JSON, not an object, or has no such member.
pub uninterp spec fn member_of(text: Seq<char>, key: Seq<char>) -> Option<Seq<char>>;

/// Parses `text` with `serde_json::from_str` and gives back the JSON text of its member `key`
/// (`Value::get`, then `to_string`). The contract claims only that the outcome depends on the
/// two texts alone (named [`member_of`]).
#[verifier::external_body]
pub(crate) fn json_member(text: &str, key: &str) -> (r: Option<String>)
    ensures
        opt_text(r) == member_of(text@, key@),
{
    match serde_json::from_str::<serde_json::Value>(text) {
        Ok(v) => v.get(key).map(ToString::to_string),
        Err(_) => None,
    }
}

/// The string that the JSON text `text` holds, where it holds a string.
pub uninterp spec fn str_of(text: Seq<char>) -> Option<Seq<char>>;

/// Parses `text` with `serde_json::from_str` and gives back the string it holds, if it is a
/// JSON string. The contract claims only that the outcome depends on the text alone (named
/// [`str_of`]).
#[verifier::external_body]
pub(crate) fn json_str(text: &str) -> (r: Option<String>)
    ensures
        opt_text(r) == str_of(text@),
{
    match serde_json::from_str::<serde_json::Value>(text) {
        Ok(serde_json::Value::String(s)) => Some(s),
        _ => None,
    }
}

/// The integer that the JSON text `text` holds, where it holds one that fits in an `i64`.
pub uninterp spec fn i64_of(text: Seq<char>) -> Option<i64>;

/// Parses `text` with `serde_json::from_str` and gives back `Value::as_i64` of it. The
/// contract claims only that the outcome depends on the text alone (named [`i64_of`]).
#[verifier::external_body]
pub(crate) fn json_i64(text: &str) -> (r: Option<i64>)
    ensures
        r == i64_of(text@),
{
    match serde_json::from_str::<serde_json::Value>(text) {
        Ok(v) => v.as_i64(),
        Err(_) => None,
    }
}

} // verus!
