//! The JSON form of a metadata map, as serde_json writes and reads it.

use std::collections::HashMap;
use vstd::prelude::*;

verus! {

/// `serde_json::Error`, opaque: the store only tells failure from success.
#[verifier::external_type_specification]
#[verifier::external_body]
pub struct ExJsonError(serde_json::Error);

/// The compact JSON text of the object that `serde_json::to_value` makes of
/// a map of strings. Its keys ascend, as the map of a `serde_json::Value`
/// keeps them.
pub uninterp spec fn json_object_text(entries: Map<Seq<char>, Seq<char>>) -> Seq<char>;

/// The map of strings that `serde_json::from_str` reads from a text, or
/// `None` where it reads none (malformed JSON, no object, a value that is
/// no string).
pub uninterp spec fn json_object_entries(text: Seq<char>) -> Option<Map<Seq<char>, Seq<char>>>;

/// Calls `serde_json::to_value` on the map and writes the value out with
/// the `Display` of `serde_json::Value`. Trusted: it succeeds on every map
/// of strings (of the two documented causes of failure, a `Serialize` impl
/// that fails and a key that is no string, such a map has neither); the
/// text depends on the entries alone, as serde_json is built without
/// `preserve_order`; and `serde_json::from_str` reads them back from it.
#[verifier::external_body]
fn to_json_text(entries: &HashMap<String, String>) -> (r: Result<String, serde_json::Error>)
    ensures
        r is Ok,
        r matches Ok(text) ==> text@ == json_object_text(entries.deep_view())
            && json_object_entries(text@) == Some(entries.deep_view()),
{
    let value = serde_json::to_value(entries)?;
    Ok(value.to_string())
}

/// Calls `serde_json::from_str` for a map from strings to strings.
///
/// Trusted: whether it succeeds, and the entries it gives, depend on the
/// text alone.
#[verifier::external_body]
fn from_json_text(text: &str) -> (r: Result<HashMap<String, String>, serde_json::Error>)
    ensures
        match r {
            Ok(entries) => json_object_entries(text@) == Some(entries.deep_view()),
            Err(_) => json_object_entries(text@) is None,
        },
{
    serde_json::from_str::<HashMap<String, String>>(text)
}

/// The metadata column for a map: the text of the JSON object of its
/// entries. Every map has one, and the text reads back as the map.
pub fn write_metadata(entries: &HashMap<String, String>) -> (r: Option<String>)
    ensures
        r is Some,
        r matches Some(text) ==> text@ == json_object_text(entries.deep_view())
            && json_object_entries(text@) == Some(entries.deep_view()),
{
    match to_json_text(entries) {
        Ok(text) => Some(text),
        Err(_) => None,
    }
}

/// The map that a metadata column holds, or `None` where the text is no
/// JSON object of strings.
pub fn read_metadata(text: &str) -> (r: Option<HashMap<String, String>>)
    ensures
        match r {
            Some(entries) => json_object_entries(text@) == Some(entries.deep_view()),
            None => json_object_entries(text@) is None,
        },
{
    match from_json_text(text) {
        Ok(entries) => Some(entries),
        Err(_) => None,
    }
}

} // verus!
