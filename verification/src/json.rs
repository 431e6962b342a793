//! The boundary to `serde_json`: JSON documents as the library sees them,
//! and the calls that read, build, parse and print them.
//!
//! A [`Value`] is opaque to the verifier. What it holds is named by
//! [`json_of`], a mathematical value of type [`Json`]; the contracts of the
//! calls below say what each does in terms of that name. None of these
//! contracts is proved: each states what the source of `serde_json` shows.

use serde_json::Value;
use vstd::prelude::*;

verus! {

/// A JSON document of any shape, as `serde_json` holds it.
#[verifier::external_type_specification]
#[verifier::external_body]
pub struct ExValue(serde_json::Value);

/// The error that `serde_json` reports when text is not JSON, or when a
/// document has not the shape that was asked for.
#[verifier::external_type_specification]
#[verifier::external_body]
pub struct ExJsonError(serde_json::Error);

/// A JSON document as a mathematical value. `Int` stands for a number that
/// `serde_json` holds as an integer, which it does for the integers from
/// -2^63 to 2^64 - 1. Every other number counts as `Real`, whatever its
/// value.
pub enum Json {
    Null,
    Bool(bool),
    Int(int),
    Real,
    Text(Seq<char>),
    Array(Seq<Json>),
    Object(Map<Seq<char>, Json>),
}

/// What a document holds.
pub uninterp spec fn json_of(value: serde_json::Value) -> Json;

/// What the document holds that a text is read as, if the text is JSON.
pub uninterp spec fn json_parse(text: Seq<char>) -> Option<Json>;

/// The text that a document is printed as.
pub uninterp spec fn json_text(value: serde_json::Value) -> Seq<char>;

/// The words in which an error reports itself.
pub uninterp spec fn json_error_text(error: serde_json::Error) -> Seq<char>;

/// What each document of a sequence holds.
pub open spec fn jsons_of(values: Seq<Value>) -> Seq<Json> {
    values.map_values(|value: Value| json_of(value))
}

/// No key occurs in two entries.
pub open spec fn distinct_keys(entries: Seq<(String, Value)>) -> bool {
    forall|i: int, j: int|
        0 <= i < entries.len() && 0 <= j < entries.len() && i != j ==> (#[trigger] entries[i]).0@
            != (#[trigger] entries[j]).0@
}

/// The members of an object that is built from `entries`, each under its
/// key.
pub open spec fn members_of(entries: Seq<(String, Value)>) -> Map<Seq<char>, Json>
    decreases entries.len(),
{
    if entries.len() == 0 {
        Map::empty()
    } else {
        members_of(entries.drop_last()).insert(entries.last().0@, json_of(entries.last().1))
    }
}

/// `Value::clone`, which `serde_json` derives: the copy is the same
/// document as the one that was copied.
pub assume_specification[ <serde_json::Value as Clone>::clone ](value: &serde_json::Value) -> (copy:
    serde_json::Value)
    ensures
        copy == *value,
;

/// Reads a text as a JSON document.
///
/// Trusted: calls `serde_json::from_str` for a `Value`, whose result depends
/// on the text alone: the document that the text is read as, or an error
/// where the text is not JSON.
#[verifier::external_body]
pub(crate) fn parse(text: &str) -> (parsed: Result<Value, serde_json::Error>)
    ensures
        match parsed {
            Ok(value) => json_parse(text@) == Some(json_of(value)),
            Err(_) => json_parse(text@) is None,
        },
{
    serde_json::from_str::<Value>(text)
}

/// Prints a document as text.
///
/// Trusted: calls `serde_json::to_string`, whose text depends on the
/// document alone. For a document it always succeeds: the serializer of a
/// `Value` fails only where its writer fails, and `to_string` writes into
/// memory.
#[verifier::external_body]
pub(crate) fn print(value: &Value) -> (printed: Result<String, serde_json::Error>)
    ensures
        printed is Ok,
        printed matches Ok(text) ==> text@ == json_text(*value),
{
    serde_json::to_string(value)
}

/// Returns the words in which an error reports itself.
///
/// Trusted: calls `to_string` of `serde_json::Error`, whose text depends on
/// the error alone.
#[verifier::external_body]
pub(crate) fn error_text(error: &serde_json::Error) -> (text: String)
    ensures
        text@ == json_error_text(*error),
{
    error.to_string()
}

/// Makes the error that reports a document of the wrong shape.
///
/// Trusted: calls `serde::de::Error::custom` of `serde_json::Error`. Nothing
/// is claimed of the error.
#[verifier::external_body]
pub(crate) fn shape_error(reason: &str) -> serde_json::Error {
    <serde_json::Error as serde::de::Error>::custom(reason)
}

/// Returns the member `key` of an object.
///
/// Trusted: calls `Value::get` with a string, which returns the member of
/// that name where the document is an object that has it, and nothing
/// otherwise.
#[verifier::external_body]
pub(crate) fn member<'a>(value: &'a Value, key: &str) -> (found: Option<&'a Value>)
    ensures
        match found {
            Some(found) => json_of(*value) matches Json::Object(members) && members.contains_key(
                key@,
            ) && members[key@] == json_of(*found),
            None => !(json_of(*value) matches Json::Object(members) && members.contains_key(
                key@,
            )),
        },
{
    value.get(key)
}

/// Returns the integer that a document is, if it is one that fits.
///
/// Trusted: calls `Value::as_i64`, which returns the number where the
/// document is an integer in the range of `i64`, and nothing otherwise.
#[verifier::external_body]
pub(crate) fn as_integer(value: &Value) -> (number: Option<i64>)
    ensures
        match number {
            Some(number) => json_of(*value) == Json::Int(number as int),
            None => !(json_of(*value) matches Json::Int(n) && i64::MIN <= n <= i64::MAX),
        },
{
    value.as_i64()
}

/// Returns a copy of the text that a document is, if it is a string.
///
/// Trusted: calls `Value::as_str`, which returns the characters where the
/// document is a string, and nothing otherwise.
#[verifier::external_body]
pub(crate) fn as_text(value: &Value) -> (text: Option<String>)
    ensures
        match text {
            Some(text) => json_of(*value) == Json::Text(text@),
            None => !(json_of(*value) is Text),
        },
{
    value.as_str().map(String::from)
}

/// Tells whether a document is `null`.
///
/// Trusted: calls `Value::is_null`.
#[verifier::external_body]
pub(crate) fn is_null(value: &Value) -> (null: bool)
    ensures
        null == (json_of(*value) is Null),
{
    value.is_null()
}

/// Returns the elements of a document that is an array.
///
/// Trusted: calls `Value::as_array`, which returns the vector of the
/// elements where the document is an array, and nothing otherwise.
#[verifier::external_body]
pub(crate) fn as_items(value: &Value) -> (items: Option<&Vec<Value>>)
    ensures
        match items {
            Some(items) => json_of(*value) == Json::Array(jsons_of(items@)),
            None => !(json_of(*value) is Array),
        },
{
    value.as_array()
}

/// The document `null`.
///
/// Trusted: builds `Value::Null`.
#[verifier::external_body]
pub(crate) fn null_value() -> (value: Value)
    ensures
        json_of(value) == Json::Null,
{
    Value::Null
}

/// The document that is the integer `number`.
///
/// Trusted: calls `Value::from` for an `i64`.
#[verifier::external_body]
pub(crate) fn integer_value(number: i64) -> (value: Value)
    ensures
        json_of(value) == Json::Int(number as int),
{
    Value::from(number)
}

/// The document that is the string `text`.
///
/// Trusted: builds `Value::String`.
#[verifier::external_body]
pub(crate) fn text_value(text: String) -> (value: Value)
    ensures
        json_of(value) == Json::Text(text@),
{
    Value::String(text)
}

/// The document that is the array of `items`.
///
/// Trusted: builds `Value::Array`.
#[verifier::external_body]
pub(crate) fn array_value(items: Vec<Value>) -> (value: Value)
    ensures
        json_of(value) == Json::Array(jsons_of(items@)),
{
    Value::Array(items)
}

/// The document that is the object with the members `entries`, whose keys
/// differ.
///
/// Trusted: builds `Value::Object` from a `serde_json::Map` that is
/// collected from the entries, which then holds each entry under its key.
#[verifier::external_body]
pub(crate) fn object_value(entries: Vec<(String, Value)>) -> (value: Value)
    requires
        distinct_keys(entries@),
    ensures
        json_of(value) == Json::Object(members_of(entries@)),
{
    Value::Object(entries.into_iter().collect())
}

} // verus!
