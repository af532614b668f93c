//! Reading and writing JSON text through `serde_json`.
//!
//! Every item here takes and gives JSON as text. What `serde_json` computes
//! when it parses is named by an uninterpreted spec function of that text:
//! parsing the same text always gives the same value, and `serde_json`
//! (without its `preserve_order` feature) writes objects with their keys in
//! sorted order, so each result is a function of the arguments alone.
//! Writing a string literal is stated in full and verified.

use vstd::prelude::*;

verus! {

/// The view of an optional string.
pub open spec fn opt_text(o: Option<String>) -> Option<Seq<char>> {
    match o {
        Some(s) => Some(s@),
        None => None,
    }
}

/// The views of a sequence of strings.
pub open spec fn texts(v: Seq<String>) -> Seq<Seq<char>> {
    v.map_values(|s: String| s@)
}

/// What `serde_json::from_str::<serde_json::Value>` reports on `text`:
/// `None` when the text parses, else the `Display` text of the error.
pub uninterp spec fn json_parse_failure(text: Seq<char>) -> Option<Seq<char>>;

/// The compact text of the member `key` of the value that `text` denotes, as
/// `serde_json::Value::get` with a key finds it: `None` when `text` does not
/// parse, is not an object, or has no member `key`.
pub uninterp spec fn json_member(text: Seq<char>, key: Seq<char>) -> Option<Seq<char>>;

/// The compact text of the element `index` of the value that `text` denotes,
/// as `serde_json::Value::get` with an index finds it: `None` when `text`
/// does not parse, is not an array, or is shorter.
pub uninterp spec fn json_element(text: Seq<char>, index: nat) -> Option<Seq<char>>;

/// The characters of the string that `text` denotes
/// (`serde_json::Value::as_str`): `None` when it is no JSON string.
pub uninterp spec fn json_string_content(text: Seq<char>) -> Option<Seq<char>>;

/// The compact texts of the elements of the array that `text` denotes
/// (`serde_json::Value::as_array`): `None` when it is no JSON array.
pub uninterp spec fn json_array_items(text: Seq<char>) -> Option<Seq<Seq<char>>>;


/// Calls `serde_json::from_str::<serde_json::Value>` on `text`; claims that
/// the result is `json_parse_failure` of the text: `None` on success, the
/// error's message otherwise.
#[verifier::external_body]
pub(crate) fn json_check(text: &str) -> (res: Option<String>)
    ensures
        opt_text(res) == json_parse_failure(text@),
{
    match serde_json::from_str::<serde_json::Value>(text) {
        Ok(_) => None,
        Err(e) => Some(e.to_string()),
    }
}

/// Parses `text` with `serde_json::from_str`, then calls
/// `serde_json::Value::get(key)` and writes the member back compactly with
/// `Value`'s `Display`; claims that the result is `json_member(text, key)`.
#[verifier::external_body]
pub(crate) fn json_get_member(text: &str, key: &str) -> (res: Option<String>)
    ensures
        opt_text(res) == json_member(text@, key@),
{
    match serde_json::from_str::<serde_json::Value>(text) {
        Ok(v) => v.get(key).map(|m| m.to_string()),
        Err(_) => None,
    }
}

/// Parses `text` with `serde_json::from_str`, then calls
/// `serde_json::Value::get(index)` and writes the element back compactly;
/// claims that the result is `json_element(text, index)`.
#[verifier::external_body]
pub(crate) fn json_get_element(text: &str, index: usize) -> (res: Option<String>)
    ensures
        opt_text(res) == json_element(text@, index as nat),
{
    match serde_json::from_str::<serde_json::Value>(text) {
        Ok(v) => v.get(index).map(|m| m.to_string()),
        Err(_) => None,
    }
}

/// Parses `text` with `serde_json::from_str`, then calls
/// `serde_json::Value::as_str`; claims that the result is
/// `json_string_content(text)`.
#[verifier::external_body]
pub(crate) fn json_as_str(text: &str) -> (res: Option<String>)
    ensures
        opt_text(res) == json_string_content(text@),
{
    match serde_json::from_str::<serde_json::Value>(text) {
        Ok(v) => v.as_str().map(|s| s.to_string()),
        Err(_) => None,
    }
}

/// Parses `text` with `serde_json::from_str`, then calls
/// `serde_json::Value::as_array` and writes each element back compactly;
/// claims that the result is `json_array_items(text)`.
#[verifier::external_body]
pub(crate) fn json_as_array(text: &str) -> (res: Option<Vec<String>>)
    ensures
        match res {
            Some(v) => json_array_items(text@) == Some(texts(v@)),
            None => json_array_items(text@) is None,
        },
{
    match serde_json::from_str::<serde_json::Value>(text) {
        Ok(v) => v.as_array().map(|a| a.iter().map(|e| e.to_string()).collect()),
        Err(_) => None,
    }
}

/// The lowercase hexadecimal digit of `d` (below 16).
pub open spec fn hex_digit(d: int) -> Seq<char> {
    if d == 0 { "0"@ } else if d == 1 { "1"@ } else if d == 2 { "2"@ } else if d == 3 { "3"@ }
    else if d == 4 { "4"@ } else if d == 5 { "5"@ } else if d == 6 { "6"@ } else if d == 7 { "7"@ }
    else if d == 8 { "8"@ } else if d == 9 { "9"@ } else if d == 10 { "a"@ } else if d == 11 { "b"@ }
    else if d == 12 { "c"@ } else if d == 13 { "d"@ } else if d == 14 { "e"@ } else { "f"@ }
}

/// How a JSON string writes the character `c`: a quote and a backslash are
/// escaped with a backslash; backspace, tab, line feed, form feed and
/// carriage return by their short escapes; every other control character
/// below U+0020 as `\u00` and two lowercase hex digits; anything else as it is.
pub open spec fn escaped_char(c: char) -> Seq<char> {
    let n = c as u32;
    if c == '"' {
        "\\\""@
    } else if c == '\\' {
        "\\\\"@
    } else if n == 8 {
        "\\b"@
    } else if n == 9 {
        "\\t"@
    } else if n == 10 {
        "\\n"@
    } else if n == 12 {
        "\\f"@
    } else if n == 13 {
        "\\r"@
    } else if n < 0x20 {
        "\\u00"@ + hex_digit((n / 16) as int) + hex_digit((n % 16) as int)
    } else {
        seq![c]
    }
}

/// The characters of `s`, each written as a JSON string writes it.
pub open spec fn escaped(s: Seq<char>) -> Seq<char>
    decreases s.len(),
{
    if s.len() == 0 {
        Seq::empty()
    } else {
        escaped(s.drop_last()) + escaped_char(s.last())
    }
}

/// The JSON string literal for `s`, quoted and escaped as `serde_json`
/// writes a string.
pub open spec fn json_string_literal(s: Seq<char>) -> Seq<char> {
    "\""@ + escaped(s) + "\""@
}

fn hex_digit_text(d: u32) -> (res: &'static str)
    requires
        d < 16,
    ensures
        res@ == hex_digit(d as int),
{
    if d == 0 { "0" } else if d == 1 { "1" } else if d == 2 { "2" } else if d == 3 { "3" }
    else if d == 4 { "4" } else if d == 5 { "5" } else if d == 6 { "6" } else if d == 7 { "7" }
    else if d == 8 { "8" } else if d == 9 { "9" } else if d == 10 { "a" } else if d == 11 { "b" }
    else if d == 12 { "c" } else if d == 13 { "d" } else if d == 14 { "e" } else { "f" }
}

/// Writes `s` as a JSON string literal, quoted and escaped.
pub fn json_quote(s: &str) -> (res: String)
    ensures
        res@ == json_string_literal(s@),
{
    let n = s.unicode_len();
    let mut out = String::from_str("\"");
    let mut i: usize = 0;
    while i < n
        invariant
            n == s@.len(),
            i <= n,
            out@ == "\""@ + escaped(s@.take(i as int)),
        decreases n - i,
    {
        let c = s.get_char(i);
        let code = c as u32;
        proof {
            assert(s@.take(i + 1).drop_last() =~= s@.take(i as int));
            assert(s@.take(i + 1).last() == c);
        }
        if c == '"' {
            out.append("\\\"");
        } else if c == '\\' {
            out.append("\\\\");
        } else if code == 8 {
            out.append("\\b");
        } else if code == 9 {
            out.append("\\t");
        } else if code == 10 {
            out.append("\\n");
        } else if code == 12 {
            out.append("\\f");
        } else if code == 13 {
            out.append("\\r");
        } else if code < 0x20 {
            out.append("\\u00");
            out.append(hex_digit_text(code / 16));
            out.append(hex_digit_text(code % 16));
        } else {
            let one = s.substring_char(i, i + 1);
            proof {
                assert(one@ =~= seq![c]);
            }
            out.append(one);
        }
        proof {
            assert(out@ =~= "\""@ + escaped(s@.take(i + 1)));
        }
        i = i + 1;
    }
    proof {
        assert(s@.take(n as int) =~= s@);
    }
    out.append("\"");
    out
}

/// The text of the string member `key` of the JSON object `text`: the
/// member's characters when it is a JSON string.
pub open spec fn string_member(text: Seq<char>, key: Seq<char>) -> Option<Seq<char>> {
    match json_member(text, key) {
        Some(m) => json_string_content(m),
        None => None,
    }
}

/// The string member `key` of the JSON object `text`, when there is one
/// (`v.get(key).and_then(|m| m.as_str())`).
pub fn string_member_of(text: &str, key: &str) -> (res: Option<String>)
    ensures
        opt_text(res) == string_member(text@, key@),
{
    match json_get_member(text, key) {
        Some(m) => json_as_str(m.as_str()),
        None => None,
    }
}

/// The element texts of the array member `key` of `text`
/// (`v.get(key).and_then(|d| d.as_array())`).
pub open spec fn array_member(text: Seq<char>, key: Seq<char>) -> Option<Seq<Seq<char>>> {
    match json_member(text, key) {
        Some(m) => json_array_items(m),
        None => None,
    }
}

/// Reads the array member `key` of `text`, when there is one.
pub fn array_member_of(text: &str, key: &str) -> (res: Option<Vec<String>>)
    ensures
        match res {
            Some(v) => array_member(text@, key@) == Some(texts(v@)),
            None => array_member(text@, key@) is None,
        },
{
    match json_get_member(text, key) {
        Some(m) => json_as_array(m.as_str()),
        None => None,
    }
}

} // verus!
