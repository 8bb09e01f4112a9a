//! The few things that the library asks of `serde_json`: reading a text as
//! a JSON value, and picking members, texts and numbers out of a value.
//!
//! None of this is proved here. The contracts give each result a name, so
//! that the functions built on them can say exactly what they do with it.

use crate::text::{digits, zero_pad};
use vstd::prelude::*;

verus! {

/// The JSON value that `serde_json::from_str` reads from `text`; `None`
/// where it reports an error.
pub uninterp spec fn json_parsed(text: Seq<char>) -> Option<serde_json::Value>;

/// The member `key` of the JSON value `v`, as `Value::get` finds it: `None`
/// where `v` is no object or has no such member.
pub uninterp spec fn json_member(v: serde_json::Value, key: Seq<char>) -> Option<serde_json::Value>;

/// The text of the JSON value `v`, as `Value::as_str` gives it: `None`
/// where `v` is no string.
pub uninterp spec fn json_text(v: serde_json::Value) -> Option<Seq<char>>;

/// The number of the JSON value `v`, as `Value::as_u64` gives it: `None`
/// where `v` is no integer that fits.
pub uninterp spec fn json_u64(v: serde_json::Value) -> Option<u64>;

/// `serde_json::from_str` at the type `Value`: reads `text` as one JSON
/// value. The contract names the result and says nothing of what it is.
#[verifier::external_body]
pub(crate) fn parse_json(text: &str) -> (r: Option<serde_json::Value>)
    ensures
        r == json_parsed(text@),
{
    match serde_json::from_str::<serde_json::Value>(text) {
        Ok(v) => Some(v),
        Err(_) => None,
    }
}

/// `serde_json::Value::get` with a text index: the member of an object.
#[verifier::external_body]
pub(crate) fn member_of<'a>(v: &'a serde_json::Value, key: &str) -> (r: Option<&'a serde_json::Value>)
    ensures
        match r {
            Some(m) => json_member(*v, key@) == Some(*m),
            None => json_member(*v, key@) is None,
        },
{
    v.get(key)
}

/// `serde_json::Value::as_str`: the text of a JSON string.
#[verifier::external_body]
pub(crate) fn text_of(v: &serde_json::Value) -> (r: Option<String>)
    ensures
        r.deep_view() == json_text(*v),
{
    match v.as_str() {
        Some(s) => Some(s.to_owned()),
        None => None,
    }
}

/// `serde_json::Value::as_u64`: the value of a JSON integer that fits.
#[verifier::external_body]
pub(crate) fn u64_of(v: &serde_json::Value) -> (r: Option<u64>)
    ensures
        r == json_u64(*v),
{
    v.as_u64()
}

/// The text of the member `key` of `v`, where `v` has one that is a string.
pub open spec fn member_text(v: serde_json::Value, key: Seq<char>) -> Option<Seq<char>> {
    match json_member(v, key) {
        Some(m) => json_text(m),
        None => None,
    }
}

/// The number of the member `key` of `v`, where `v` has one that is an
/// integer that fits.
pub open spec fn member_u64(v: serde_json::Value, key: Seq<char>) -> Option<u64> {
    match json_member(v, key) {
        Some(m) => json_u64(m),
        None => None,
    }
}

/// The text of the member `key` of `v`.
pub fn member_text_of(v: &serde_json::Value, key: &str) -> (r: Option<String>)
    ensures
        r.deep_view() == member_text(*v, key@),
{
    match member_of(v, key) {
        Some(m) => text_of(m),
        None => None,
    }
}

/// The number of the member `key` of `v`.
pub fn member_u64_of(v: &serde_json::Value, key: &str) -> (r: Option<u64>)
    ensures
        r == member_u64(*v, key@),
{
    match member_of(v, key) {
        Some(m) => u64_of(m),
        None => None,
    }
}

/// What a character of a text becomes inside a JSON string: a quote and a
/// backslash get a backslash in front; backspace, tab, line feed, form feed
/// and carriage return become `\b`, `\t`, `\n`, `\f` and `\r`; any other
/// character below the space becomes `\u00` and its two hexadecimal digits in
/// lower case; every other character stands for itself.
pub open spec fn json_escape(c: char) -> Seq<char> {
    if c == '"' {
        seq!['\\', '"']
    } else if c == '\\' {
        seq!['\\', '\\']
    } else if c == '\u{8}' {
        seq!['\\', 'b']
    } else if c == '\t' {
        seq!['\\', 't']
    } else if c == '\n' {
        seq!['\\', 'n']
    } else if c == '\u{c}' {
        seq!['\\', 'f']
    } else if c == '\r' {
        seq!['\\', 'r']
    } else if (c as u32) < 0x20 {
        seq!['\\', 'u', '0', '0'] + zero_pad(digits(c as nat, 16), 2)
    } else {
        seq![c]
    }
}

/// The characters of `s`, each as it stands inside a JSON string.
pub open spec fn json_escaped(s: Seq<char>) -> Seq<char>
    decreases s.len(),
{
    if s.len() == 0 {
        Seq::empty()
    } else {
        json_escaped(s.drop_last()) + json_escape(s.last())
    }
}

/// The text `s` as a JSON string: in quotes, with what must be escaped
/// escaped.
pub open spec fn json_quoted(s: Seq<char>) -> Seq<char> {
    seq!['"'] + json_escaped(s) + seq!['"']
}

/// `serde_json::to_string` at the type `str`: a text as a JSON string. It
/// writes a quote, the characters of the text as its escape table has them,
/// and a quote, into memory, which does not fail.
#[verifier::external_body]
pub(crate) fn quote_json(s: &str) -> (r: Option<String>)
    ensures
        r.deep_view() == Some(json_quoted(s@)),
{
    match serde_json::to_string(s) {
        Ok(t) => Some(t),
        Err(_) => None,
    }
}

} // verus!
