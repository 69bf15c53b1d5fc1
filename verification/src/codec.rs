//! Reading and writing JSON text, done by `serde_json`.
//!
//! Nothing here is proved of `serde_json`: each result is given a name, and
//! the contracts of `parse` and `render` say which name a result bears.
//!
//! Moving a document between `serde_json::Value` and `Json` goes down the
//! whole tree, so it stands in two functions of its own beside the two calls
//! into `serde_json`. The names `value_model` and `value_text` say what such
//! a value holds and writes, and tie each call to its conversion.

use crate::json::{Json, JsonValue};
use vstd::prelude::*;

verus! {

/// `serde_json::Value`, of which nothing is seen but through the names
/// below.
#[verifier::external_type_specification]
#[verifier::external_body]
pub struct ExValue(serde_json::Value);

/// Name for what `serde_json::from_str` makes of a text: the document it
/// holds, or the message of the error.
pub uninterp spec fn parsed(text: Seq<char>) -> Result<JsonValue, Seq<char>>;

/// Name for the library's model of a `serde_json::Value`.
pub uninterp spec fn value_model(value: serde_json::Value) -> JsonValue;

/// Name for the compact text that `serde_json` writes for a value.
pub uninterp spec fn value_text(value: serde_json::Value) -> Seq<char>;

/// Name for the compact text that `serde_json` writes for a document.
pub uninterp spec fn rendered(json: JsonValue) -> Seq<char>;

/// No line feed stands in `text`.
pub open spec fn single_line(text: Seq<char>) -> bool {
    forall|i: int| 0 <= i < text.len() ==> text[i] != '\n'
}

/// Calls `serde_json::from_str` for a `Value`. Whether it succeeds, the
/// value and the error's message depend on the text alone.
#[verifier::external_body]
fn value_from_str(text: &str) -> (r: Result<serde_json::Value, String>)
    ensures
        match r {
            Ok(value) => parsed(text@) == Ok::<JsonValue, Seq<char>>(value_model(value)),
            Err(message) => parsed(text@) == Err::<JsonValue, Seq<char>>(message@),
        },
{
    serde_json::from_str::<serde_json::Value>(text).map_err(|error| error.to_string())
}

/// Moves a `serde_json::Value` into a `Json`, variant by variant; a number
/// becomes the literal that `serde_json` writes for it, an object's members
/// come in the order in which its map hands them out.
#[verifier::external_body]
fn json_from_value(value: serde_json::Value) -> (r: Json)
    ensures
        r@ == value_model(value),
{
    match value {
        serde_json::Value::Null => Json::Null,
        serde_json::Value::Bool(b) => Json::Bool(b),
        serde_json::Value::Number(n) => Json::Number(n.to_string()),
        serde_json::Value::String(s) => Json::Text(s),
        serde_json::Value::Array(items) => Json::Array(
            items.into_iter().map(json_from_value).collect(),
        ),
        serde_json::Value::Object(map) => Json::Object(
            map.into_iter().map(|(k, v)| (k, json_from_value(v))).collect(),
        ),
    }
}

/// Builds the `serde_json::Value` of a `Json`, variant by variant; a number
/// literal that `serde_json` does not read as a number becomes `null`. The
/// text that `serde_json` writes for the value depends on the document's
/// model alone.
#[verifier::external_body]
fn value_from_json(json: &Json) -> (r: serde_json::Value)
    ensures
        value_text(r) == rendered(json@),
{
    match json {
        Json::Null => serde_json::Value::Null,
        Json::Bool(b) => serde_json::Value::Bool(*b),
        Json::Number(n) => n.parse().map_or(serde_json::Value::Null, serde_json::Value::Number),
        Json::Text(t) => serde_json::Value::String(t.clone()),
        Json::Array(items) => serde_json::Value::Array(
            items.iter().map(value_from_json).collect(),
        ),
        Json::Object(entries) => serde_json::Value::Object(
            entries.iter().map(|(k, v)| (k.clone(), value_from_json(v))).collect(),
        ),
    }
}

/// Calls `to_string` of `serde_json::Value`, which writes the compact form.
/// That form holds no line feed: the serializer writes none between tokens
/// and escapes every control character inside a string.
#[verifier::external_body]
fn value_to_string(value: &serde_json::Value) -> (r: String)
    ensures
        r@ == value_text(*value),
        single_line(r@),
{
    value.to_string()
}

/// The model of the outcome of `parse`.
pub open spec fn outcome_view(outcome: Result<Json, String>) -> Result<JsonValue, Seq<char>> {
    match outcome {
        Ok(json) => Ok(json@),
        Err(message) => Err(message@),
    }
}

/// Reads `text` as one JSON document.
pub fn parse(text: &str) -> (r: Result<Json, String>)
    ensures
        outcome_view(r) == parsed(text@),
{
    match value_from_str(text) {
        Ok(value) => Ok(json_from_value(value)),
        Err(message) => Err(message),
    }
}

/// Writes `json` as compact JSON text, on one line.
pub fn render(json: &Json) -> (r: String)
    ensures
        r@ == rendered(json@),
        single_line(r@),
{
    let value = value_from_json(json);
    value_to_string(&value)
}

} // verus!
