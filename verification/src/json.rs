//! JSON values, as `serde_json` represents them.
//!
//! Tool parameter schemas and response schemas are JSON documents that the
//! library stores and sends on as text. A [`serde_json::Value`] is opaque to
//! the verifier; what the library needs of one is the text it is rendered to,
//! which [`json_text`] names.

use vstd::prelude::*;

verus! {

#[verifier::external_type_specification]
#[verifier::external_body]
pub struct ExJsonValue(serde_json::Value);

#[verifier::external_type_specification]
#[verifier::external_body]
pub struct ExJsonError(serde_json::Error);

/// The compact text that `serde_json` renders a value to.
pub uninterp spec fn json_text(value: serde_json::Value) -> Seq<char>;

/// The compact text of the JSON string that holds `text`.
pub uninterp spec fn json_string_text(text: Seq<char>) -> Seq<char>;

/// The compact text of the JSON object built from `entries`, each a key and
/// the compact text of its value.
pub uninterp spec fn json_object_text(entries: Seq<(Seq<char>, Seq<char>)>) -> Seq<char>;

/// What parsing `text` as JSON gives: the compact text of the parsed value, or
/// `None` where `text` is not one JSON document.
pub uninterp spec fn json_parsed_text(text: Seq<char>) -> Option<Seq<char>>;

/// Keys and rendered values of a list of object entries.
pub open spec fn entries_text(entries: Seq<(String, serde_json::Value)>) -> Seq<(Seq<char>, Seq<char>)> {
    Seq::new(entries.len(), |i: int| (entries[i].0@, json_text(entries[i].1)))
}

/// `Clone` for `serde_json::Value`: the copy renders to the same text.
pub assume_specification[ <serde_json::Value as Clone>::clone ](value: &serde_json::Value) -> (copy:
    serde_json::Value)
    ensures
        json_text(copy) == json_text(*value),
;

/// `Display` for `serde_json::Value`, which writes the value in compact form;
/// the contract gives that text the name [`json_text`].
#[verifier::external_body]
pub(crate) fn render(value: &serde_json::Value) -> (text: String)
    ensures
        text@ == json_text(*value),
{
    value.to_string()
}

/// `serde_json::Value::from(&str)`, which wraps the text in a JSON string.
#[verifier::external_body]
pub(crate) fn string_value(text: &str) -> (value: serde_json::Value)
    ensures
        json_text(value) == json_string_text(text@),
{
    serde_json::Value::from(text)
}

/// `serde_json::Map::from_iter` under `Value::Object`: the object that holds
/// the given entries (a later entry replaces an earlier one with its key).
#[verifier::external_body]
pub(crate) fn object_value(entries: Vec<(String, serde_json::Value)>) -> (value: serde_json::Value)
    ensures
        json_text(value) == json_object_text(entries_text(entries@)),
{
    serde_json::Value::Object(entries.into_iter().collect())
}

/// `serde_json::from_str` at type `Value`: parses one JSON document. Succeeds
/// exactly on the texts that [`json_parsed_text`] maps to `Some`.
#[verifier::external_body]
pub(crate) fn parse(text: &str) -> (parsed: Result<serde_json::Value, serde_json::Error>)
    ensures
        match parsed {
            Ok(value) => json_parsed_text(text@) == Some(json_text(value)),
            Err(_) => json_parsed_text(text@) is None,
        },
{
    serde_json::from_str::<serde_json::Value>(text)
}

} // verus!
