//! The JSON documents this crate reads and writes, as `serde_json` holds them.
//!
//! Nothing in this file is proved: each item states what the crate assumes of
//! `serde_json`. The rest of the crate is verified against these statements.

use vstd::prelude::*;
use serde_json::Value;

verus! {

/// `serde_json::Value`, a JSON value of any shape. Its inside is not visible to
/// proofs: the functions below name what can be read from one.
#[verifier::external_type_specification]
#[verifier::external_body]
pub struct ExValue(serde_json::Value);

/// `serde_json::Error`, the reason a text could not be parsed or a value not written.
#[verifier::external_type_specification]
#[verifier::external_body]
pub struct ExError(serde_json::Error);

/// The members in `members`, each as its key's characters and its value.
pub open spec fn member_views(members: Seq<(String, Value)>) -> Seq<(Seq<char>, Value)> {
    members.map_values(|m: (String, Value)| (m.0@, m.1))
}

/// The value that `serde_json::from_str` reads from a text, or `None` where it
/// reports an error.
pub uninterp spec fn parsed_value(text: Seq<char>) -> Option<Value>;

/// The members of a JSON object in the order in which its map hands them out,
/// or `None` for a value that is no object.
pub uninterp spec fn object_members(value: Value) -> Option<Seq<(Seq<char>, Value)>>;

/// The items of a JSON array in order, or `None` for a value that is no array.
pub uninterp spec fn array_items(value: Value) -> Option<Seq<Value>>;

/// The characters of a JSON string, or `None` for a value that is no string.
pub uninterp spec fn string_text(value: Value) -> Option<Seq<char>>;

/// The JSON string that holds the given characters.
pub uninterp spec fn string_value(text: Seq<char>) -> Value;

/// The JSON array that holds the given items in order.
pub uninterp spec fn array_value(items: Seq<Value>) -> Value;

/// The JSON object that `serde_json::Map` collects from the given members.
pub uninterp spec fn object_value(members: Seq<(Seq<char>, Value)>) -> Value;

/// The text that `serde_json::to_string_pretty` writes for a value, or `None`
/// where it reports an error.
pub uninterp spec fn pretty_text(value: Value) -> Option<Seq<char>>;

/// Calls `serde_json::from_str` for a `Value`. Assumed: the outcome depends on
/// the text alone, so it is the one that `parsed_value` names.
#[verifier::external_body]
pub(crate) fn parse_value(text: &str) -> (r: Result<Value, serde_json::Error>)
    ensures
        match r {
            Ok(value) => parsed_value(text@) == Some(value),
            Err(_) => parsed_value(text@) is None,
        },
{
    serde_json::from_str::<Value>(text)
}

/// Takes a `Value::Object` apart into its members, in the order in which
/// `serde_json::Map::into_iter` hands them out; any other value comes back
/// unchanged.
#[verifier::external_body]
pub(crate) fn into_members(value: Value) -> (r: Result<Vec<(String, Value)>, Value>)
    ensures
        match r {
            Ok(members) => object_members(value) == Some(member_views(members@)),
            Err(other) => object_members(value) is None && other == value,
        },
{
    match value {
        Value::Object(map) => Ok(map.into_iter().collect()),
        other => Err(other),
    }
}

/// Takes the items out of a `Value::Array`; any other value comes back
/// unchanged.
#[verifier::external_body]
pub(crate) fn into_items(value: Value) -> (r: Result<Vec<Value>, Value>)
    ensures
        match r {
            Ok(items) => array_items(value) == Some(items@),
            Err(other) => array_items(value) is None && other == value,
        },
{
    match value {
        Value::Array(items) => Ok(items),
        other => Err(other),
    }
}

/// Takes the text out of a `Value::String`; any other value comes back unchanged.
#[verifier::external_body]
pub(crate) fn into_text(value: Value) -> (r: Result<String, Value>)
    ensures
        match r {
            Ok(text) => string_text(value) == Some(text@),
            Err(other) => string_text(value) is None && other == value,
        },
{
    match value {
        Value::String(text) => Ok(text),
        other => Err(other),
    }
}

/// Builds a `Value::String` around the text.
#[verifier::external_body]
pub(crate) fn text_value(text: String) -> (r: Value)
    ensures
        r == string_value(text@),
{
    Value::String(text)
}

/// Builds a `Value::Array` around the items.
#[verifier::external_body]
pub(crate) fn items_value(items: Vec<Value>) -> (r: Value)
    ensures
        r == array_value(items@),
{
    Value::Array(items)
}

/// Builds a `Value::Object` by collecting the members into a
/// `serde_json::Map`. Assumed: the object depends on the keys' characters and
/// the values alone, so it is the one that `object_value` names.
#[verifier::external_body]
pub(crate) fn members_value(members: Vec<(String, Value)>) -> (r: Value)
    ensures
        r == object_value(member_views(members@)),
{
    Value::Object(members.into_iter().collect())
}

/// Calls `serde_json::to_string_pretty`. Assumed: the outcome depends on the
/// value alone, so it is the one that `pretty_text` names.
#[verifier::external_body]
pub(crate) fn write_pretty(value: &Value) -> (r: Result<String, serde_json::Error>)
    ensures
        match r {
            Ok(text) => pretty_text(*value) == Some(text@),
            Err(_) => pretty_text(*value) is None,
        },
{
    serde_json::to_string_pretty(value)
}

} // verus!
