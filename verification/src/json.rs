//! JSON text: what the JSON library decides, and what this crate builds on
//! it.
//!
//! Tool arguments, tool results and the bodies of completions travel
//! through the agent as JSON text. Six questions are left to `serde_json`:
//! how a string is written, whether a text parses, what an object holds
//! under a key, what the elements of an array are, and which string or
//! which number a text stands for. The functions that ask them are trusted and say so below.
//! Everything else is built from their answers.

use crate::text::concat3;
use vstd::prelude::*;

verus! {

/// The JSON string literal for `text`, quotes included, as `serde_json`
/// writes it.
pub uninterp spec fn json_string_literal(text: Seq<char>) -> Seq<char>;

/// What parsing `text` as one JSON value gives: the value written out
/// again in compact form, or the parser's message.
pub uninterp spec fn json_parse_of(text: Seq<char>) -> Result<Seq<char>, Seq<char>>;

/// The value that the JSON object `text` holds under `key`, as compact JSON
/// text: `None` when `text` does not parse, is no object or lacks the key.
pub uninterp spec fn json_member_of(text: Seq<char>, key: Seq<char>) -> Option<Seq<char>>;

/// The elements of the JSON array `text`, each as compact JSON text: `None`
/// when `text` does not parse or is no array.
pub uninterp spec fn json_items_of(text: Seq<char>) -> Option<Seq<Seq<char>>>;

/// The string that the JSON text `text` stands for: `None` when `text` does
/// not parse or is no string.
pub uninterp spec fn json_string_value_of(text: Seq<char>) -> Option<Seq<char>>;

/// Trusted: `serde_json::Value::String(..).to_string()`, the compact JSON
/// form of a string value. Claimed: the result depends on the characters of
/// `text` alone.
#[verifier::external_body]
pub(crate) fn json_quote(text: &str) -> (res: String)
    ensures
        res@ == json_string_literal(text@),
{
    serde_json::Value::String(text.to_owned()).to_string()
}

/// Trusted: `serde_json::from_str::<serde_json::Value>`; the value is
/// written out by its `to_string`, the error by its `to_string`. Claimed:
/// the outcome depends on the characters of `text` alone.
#[verifier::external_body]
pub(crate) fn json_parse(text: &str) -> (res: Result<String, String>)
    ensures
        text_outcome(res) == json_parse_of(text@),
{
    match serde_json::from_str::<serde_json::Value>(text) {
        Ok(value) => Ok(value.to_string()),
        Err(error) => Err(error.to_string()),
    }
}

/// Trusted: `serde_json::Value::get` with a string key, on the value that
/// `serde_json::from_str` gives; the member is written out by its
/// `to_string`. Claimed: the outcome depends on the characters of `text`
/// and `key` alone.
#[verifier::external_body]
pub(crate) fn json_member(text: &str, key: &str) -> (res: Option<String>)
    ensures
        res.deep_view() == json_member_of(text@, key@),
{
    match serde_json::from_str::<serde_json::Value>(text) {
        Ok(value) => match value.get(key) {
            Some(member) => Some(member.to_string()),
            None => None,
        },
        Err(_) => None,
    }
}

/// Trusted: the elements of a `serde_json::Value::Array`, on the value that
/// `serde_json::from_str` gives, written out one by one by their
/// `to_string`. Claimed: the outcome depends on the characters of `text`
/// alone.
#[verifier::external_body]
pub(crate) fn json_items(text: &str) -> (res: Option<Vec<String>>)
    ensures
        res.deep_view() == json_items_of(text@),
{
    match serde_json::from_str::<serde_json::Value>(text) {
        Ok(serde_json::Value::Array(items)) => {
            let mut out = Vec::new();
            for item in &items {
                out.push(item.to_string());
            }
            Some(out)
        },
        _ => None,
    }
}

/// Trusted: the text of a `serde_json::Value::String`, on the value that
/// `serde_json::from_str` gives. Claimed: the outcome depends on the
/// characters of `text` alone.
#[verifier::external_body]
pub(crate) fn json_string_value(text: &str) -> (res: Option<String>)
    ensures
        res.deep_view() == json_string_value_of(text@),
{
    match serde_json::from_str::<serde_json::Value>(text) {
        Ok(serde_json::Value::String(value)) => Some(value),
        _ => None,
    }
}

/// The number that the JSON text `text` stands for, when it is a whole
/// number from zero up that fits in 64 bits: `None` for any other text.
pub uninterp spec fn json_number_value_of(text: Seq<char>) -> Option<u64>;

/// Trusted: `serde_json::Value::as_u64`, on the value that
/// `serde_json::from_str` gives. Claimed: the outcome depends on the
/// characters of `text` alone.
#[verifier::external_body]
pub(crate) fn json_number_value(text: &str) -> (res: Option<u64>)
    ensures
        res == json_number_value_of(text@),
{
    match serde_json::from_str::<serde_json::Value>(text) {
        Ok(value) => value.as_u64(),
        Err(_) => None,
    }
}

/// Model of a text or a failure.
pub open spec fn text_outcome(outcome: Result<String, String>) -> Result<Seq<char>, Seq<char>> {
    match outcome {
        Ok(value) => Ok(value@),
        Err(message) => Err(message@),
    }
}

/// What the parser reports when `text` is not one JSON value: `None` when
/// it parses.
pub open spec fn json_syntax_error_of(text: Seq<char>) -> Option<Seq<char>> {
    match json_parse_of(text) {
        Ok(_) => None,
        Err(message) => Some(message),
    }
}

/// The JSON value `text` written out again in compact form: `None` when
/// `text` does not parse.
pub open spec fn json_compact_of(text: Seq<char>) -> Option<Seq<char>> {
    match json_parse_of(text) {
        Ok(compact) => Some(compact),
        Err(_) => None,
    }
}

/// The string that the JSON object `text` holds under `key`: `None` when
/// `text` does not parse, is no object, lacks the key or holds another kind
/// of value there.
pub open spec fn json_string_member_of(text: Seq<char>, key: Seq<char>) -> Option<Seq<char>> {
    match json_member_of(text, key) {
        Some(member) => json_string_value_of(member),
        None => None,
    }
}

/// The strings that a list of JSON texts stands for, one entry per text:
/// `None` for a text that is no string.
pub open spec fn string_values_of(items: Seq<Seq<char>>) -> Seq<Option<Seq<char>>> {
    Seq::new(items.len(), |i: int| json_string_value_of(items[i]))
}

/// The elements of the array that the JSON object `text` holds under `key`,
/// in order: each string element as itself, every other element as `None`.
/// Empty when `text` does not parse, is no object, lacks the key or holds
/// no array there.
pub open spec fn json_list_member_of(text: Seq<char>, key: Seq<char>) -> Seq<Option<Seq<char>>> {
    match json_member_of(text, key) {
        Some(member) => match json_items_of(member) {
            Some(items) => string_values_of(items),
            None => Seq::empty(),
        },
        None => Seq::empty(),
    }
}

/// What the parser reports when `text` is not one JSON value.
pub fn json_syntax_error(text: &str) -> (res: Option<String>)
    ensures
        res.deep_view() == json_syntax_error_of(text@),
{
    match json_parse(text) {
        Ok(_) => None,
        Err(message) => Some(message),
    }
}

/// The JSON value `text` written out again in compact form.
pub fn json_compact(text: &str) -> (res: Option<String>)
    ensures
        res.deep_view() == json_compact_of(text@),
{
    match json_parse(text) {
        Ok(compact) => Some(compact),
        Err(_) => None,
    }
}

/// The string that the JSON object `text` holds under `key`.
pub fn json_string_member(text: &str, key: &str) -> (res: Option<String>)
    ensures
        res.deep_view() == json_string_member_of(text@, key@),
{
    match json_member(text, key) {
        Some(member) => json_string_value(member.as_str()),
        None => None,
    }
}

/// The strings that a list of JSON texts stands for.
pub fn string_values(items: &Vec<String>) -> (res: Vec<Option<String>>)
    ensures
        res.deep_view() == string_values_of(items.deep_view()),
{
    let mut out: Vec<Option<String>> = Vec::new();
    let mut i: usize = 0;
    while i < items.len()
        invariant
            i <= items.len(),
            out.len() == i,
            forall|k: int| 0 <= k < i ==> out[k].deep_view() == json_string_value_of(items[k]@),
        decreases items.len() - i,
    {
        out.push(json_string_value(items[i].as_str()));
        i += 1;
    }
    assert(out.deep_view() =~= string_values_of(items.deep_view())) by {
        assert forall|k: int| 0 <= k < out.len() implies out.deep_view()[k] == string_values_of(
            items.deep_view(),
        )[k] by {
            assert(items.deep_view()[k] == items[k]@);
        }
    }
    out
}

/// The elements of the array that the JSON object `text` holds under `key`.
pub fn json_list_member(text: &str, key: &str) -> (res: Vec<Option<String>>)
    ensures
        res.deep_view() == json_list_member_of(text@, key@),
{
    match json_member(text, key) {
        Some(member) => match json_items(member.as_str()) {
            Some(items) => string_values(&items),
            None => {
                let out: Vec<Option<String>> = Vec::new();
                assert(out.deep_view() =~= Seq::empty());
                out
            },
        },
        None => {
            let out: Vec<Option<String>> = Vec::new();
            assert(out.deep_view() =~= Seq::empty());
            out
        },
    }
}

/// The JSON object that reports a failure: one member, `error`, holding the
/// message.
pub open spec fn error_json(message: Seq<char>) -> Seq<char> {
    "{\"error\":"@ + json_string_literal(message) + "}"@
}

/// The JSON object that reports a rejection by the user: the fixed `error`
/// member and the user's reason.
pub open spec fn rejection_json(reason: Seq<char>) -> Seq<char> {
    "{\"error\":\"User rejected tool execution\",\"reason\":"@ + json_string_literal(reason)
        + "}"@
}

/// The JSON object `{"error": message}` in compact form.
pub fn error_object(message: &str) -> (res: String)
    ensures
        res@ == error_json(message@),
{
    let quoted = json_quote(message);
    concat3("{\"error\":", quoted.as_str(), "}")
}

/// The JSON object `{"error": "User rejected tool execution", "reason": reason}`
/// in compact form.
pub fn rejection_object(reason: &str) -> (res: String)
    ensures
        res@ == rejection_json(reason@),
{
    let quoted = json_quote(reason);
    concat3("{\"error\":\"User rejected tool execution\",\"reason\":", quoted.as_str(), "}")
}

} // verus!
