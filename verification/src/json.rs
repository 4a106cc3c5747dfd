//! Looks a string up in a JSON text.

use vstd::prelude::*;

verus! {

/// What a JSON text holds at a place.
pub enum JsonText {
    /// The text is not JSON. Holds what the reader said of it.
    NotJson(Seq<char>),
    /// The text is JSON and holds no string at the place.
    Absent,
    /// The string at the place.
    Text(Seq<char>),
}

/// What the JSON text `body` holds at the place that the JSON pointer
/// `pointer` names, such as `/status` for the member `status` of an object
/// and `/choices/0` for the first item of its member `choices`.
pub uninterp spec fn json_text_at(body: Seq<char>, pointer: Seq<char>) -> JsonText;

/// The result of a lookup as a mathematical value.
pub open spec fn lookup_view(r: Result<Option<String>, String>) -> JsonText {
    match r {
        Ok(Some(text)) => JsonText::Text(text@),
        Ok(None) => JsonText::Absent,
        Err(reason) => JsonText::NotJson(reason@),
    }
}

/// Calls `serde_json::from_str` for a `serde_json::Value`, then
/// `Value::pointer` and `Value::as_str` on it; an error is written out by its
/// `Display`. The result is named, not stated: `json_text_at`. The reader
/// gives up on text nested deeper than 128 levels, and the other two only
/// look values up.
#[verifier::external_body]
pub(crate) fn text_at(body: &str, pointer: &str) -> (r: Result<Option<String>, String>)
    ensures
        lookup_view(r) == json_text_at(body@, pointer@),
{
    match serde_json::from_str::<serde_json::Value>(body) {
        Ok(value) => Ok(value.pointer(pointer).and_then(|v| v.as_str()).map(|s| s.to_owned())),
        Err(e) => Err(e.to_string()),
    }
}

/// Whether the JSON text `body` holds an array at the place that the JSON
/// pointer `pointer` names. It holds none where it is not JSON.
pub uninterp spec fn json_array_at(body: Seq<char>, pointer: Seq<char>) -> bool;

/// Calls `serde_json::from_str` for a `serde_json::Value`, then
/// `Value::pointer` and `Value::is_array` on it. The result is named, not
/// stated: `json_array_at`.
#[verifier::external_body]
pub(crate) fn array_at(body: &str, pointer: &str) -> (r: bool)
    ensures
        r == json_array_at(body@, pointer@),
{
    match serde_json::from_str::<serde_json::Value>(body) {
        Ok(value) => value.pointer(pointer).map(|v| v.is_array()).unwrap_or(false),
        Err(_) => false,
    }
}

/// The JSON text `text` as a writer of JSON writes the value that it stands
/// for: without white space between its parts, each object with its members
/// in the order of their names and every name once, and with an escape only
/// where a string holds a double quote, a backslash or a control character.
/// There is none where the text is not JSON.
pub uninterp spec fn json_rewritten(text: Seq<char>) -> Option<Seq<char>>;

/// The result of a rewriting as a mathematical value.
pub open spec fn rewriting_view(r: Option<String>) -> Option<Seq<char>> {
    match r {
        Some(text) => Some(text@),
        None => None,
    }
}

/// Calls `serde_json::from_str` for a `serde_json::Value` and writes the
/// value out by its `Display`. The result is named, not stated:
/// `json_rewritten`.
#[verifier::external_body]
pub(crate) fn rewritten(text: &str) -> (r: Option<String>)
    ensures
        rewriting_view(r) == json_rewritten(text@),
{
    match serde_json::from_str::<serde_json::Value>(text) {
        Ok(value) => Some(value.to_string()),
        Err(_) => None,
    }
}

} // verus!
