//! JSON documents: what a `serde_json::Value` holds, and the calls into
//! `serde_json` that build, read, parse and print one.

use crate::report;
use crate::text;
use serde_json::Value;
use vstd::prelude::*;

verus! {

/// What a JSON document says. A number is given by its decimal text; the
/// order of an object's fields says nothing.
pub enum Json {
    Null,
    Bool(bool),
    Number(Seq<char>),
    Str(Seq<char>),
    Array(Seq<Json>),
    Object(Map<Seq<char>, Json>),
}

#[verifier::external_type_specification]
#[verifier::external_body]
pub struct ExValue(serde_json::Value);

#[verifier::external_type_specification]
#[verifier::external_body]
#[verifier::reject_recursive_types(K)]
#[verifier::reject_recursive_types(V)]
pub struct ExMap<K, V>(serde_json::Map<K, V>);

/// The document that a `serde_json::Value` holds.
pub uninterp spec fn json_of(value: Value) -> Json;

/// The fields that a `serde_json::Map` holds, by their names.
pub uninterp spec fn fields_of(fields: serde_json::Map<String, Value>) -> Map<Seq<char>, Json>;

/// The indented text of a document.
pub uninterp spec fn pretty_text(document: Json) -> Seq<char>;

/// The document that a text holds, or the text of the error.
pub uninterp spec fn parsed_text(text: Seq<char>) -> Result<Json, Seq<char>>;

/// The documents that a list of values holds.
pub open spec fn json_seq(values: Seq<Value>) -> Seq<Json> {
    values.map_values(|v: Value| json_of(v))
}

/// The field of that name, where the document is an object that has it.
pub open spec fn field(document: Json, key: Seq<char>) -> Option<Json> {
    match document {
        Json::Object(fields) => if fields.dom().contains(key) {
            Some(fields[key])
        } else {
            None
        },
        _ => None,
    }
}

/// `Value::from(&str)`: a string.
#[verifier::external_body]
pub(crate) fn string_value(text: &str) -> (r: Value)
    ensures
        json_of(r) == Json::Str(text@),
{
    Value::from(text)
}

/// `Value::from(bool)`: a boolean.
#[verifier::external_body]
pub(crate) fn bool_value(b: bool) -> (r: Value)
    ensures
        json_of(r) == Json::Bool(b),
{
    Value::from(b)
}

/// `Value::from(u64)`: a number, whose text is the integer in decimal.
#[verifier::external_body]
pub(crate) fn number_value(n: u64) -> (r: Value)
    ensures
        json_of(r) == Json::Number(text::decimal(n as nat)),
{
    Value::from(n)
}

/// `Value::from(Vec<Value>)`: an array of the same elements in the same order.
#[verifier::external_body]
pub(crate) fn array_value(items: Vec<Value>) -> (r: Value)
    ensures
        json_of(r) == Json::Array(json_seq(items@)),
{
    Value::from(items)
}

/// `Map::new`: no fields.
#[verifier::external_body]
pub(crate) fn new_map() -> (r: serde_json::Map<String, Value>)
    ensures
        fields_of(r) == report::no_fields(),
{
    serde_json::Map::new()
}

/// `Map::insert`: sets the field of that name, and gives what it held before,
/// if it was there.
#[verifier::external_body]
pub(crate) fn insert_field(
    fields: &mut serde_json::Map<String, Value>,
    key: &str,
    value: Value,
) -> (r: Option<Value>)
    ensures
        fields_of(*final(fields)) == fields_of(*old(fields)).insert(key@, json_of(value)),
        match r {
            Some(before) => fields_of(*old(fields)).dom().contains(key@) && json_of(before)
                == fields_of(*old(fields))[key@],
            None => !fields_of(*old(fields)).dom().contains(key@),
        },
{
    fields.insert(key.to_string(), value)
}

/// `Value::Object`: an object with these fields.
#[verifier::external_body]
pub(crate) fn object_value(fields: serde_json::Map<String, Value>) -> (r: Value)
    ensures
        json_of(r) == Json::Object(fields_of(fields)),
{
    Value::Object(fields)
}

/// `Value::clone`: the same document.
pub assume_specification[ <Value as Clone>::clone ](value: &Value) -> (r: Value)
    ensures
        json_of(r) == json_of(*value),
;

/// `Value::get` with a name: the field of an object; nothing where the value
/// is no object or has no such field.
#[verifier::external_body]
pub(crate) fn get_field<'a>(value: &'a Value, key: &str) -> (r: Option<&'a Value>)
    ensures
        match field(json_of(*value), key@) {
            Some(document) => r is Some && json_of(*r->0) == document,
            None => r is None,
        },
{
    value.get(key)
}

/// `Value::as_array`: the elements of an array; nothing for any other value.
#[verifier::external_body]
pub(crate) fn as_array(value: &Value) -> (r: Option<&Vec<Value>>)
    ensures
        match json_of(*value) {
            Json::Array(items) => r is Some && json_seq(r->0@) == items,
            _ => r is None,
        },
{
    value.as_array()
}

/// `Value::as_str`: the text of a string; nothing for any other value.
#[verifier::external_body]
pub(crate) fn as_text(value: &Value) -> (r: Option<&str>)
    ensures
        match json_of(*value) {
            Json::Str(text) => r is Some && r->0@ == text,
            _ => r is None,
        },
{
    value.as_str()
}

/// The view of a text, or of the text of an error.
pub open spec fn text_result(r: Result<String, String>) -> Result<Seq<char>, Seq<char>> {
    match r {
        Ok(text) => Ok(text@),
        Err(error) => Err(error@),
    }
}

/// `serde_json::to_string_pretty` of a `Value`: the indented text of the
/// document. Which text it is rests on the document alone. It fails only where
/// a name in an object is no string or where writing fails; the names of a
/// `Value` are strings, and the text is written to memory.
#[verifier::external_body]
pub(crate) fn to_pretty(value: &Value) -> (r: Result<String, String>)
    ensures
        r is Ok,
        r->Ok_0@ == pretty_text(json_of(*value)),
{
    serde_json::to_string_pretty(value).map_err(|e| e.to_string())
}

/// `serde_json::from_str`: the document that the text holds, or the text of
/// the error. Which of them comes rests on the text alone.
#[verifier::external_body]
pub(crate) fn parse_json(text: &str) -> (r: Result<Value, String>)
    ensures
        match parsed_text(text@) {
            Ok(document) => r is Ok && json_of(r->Ok_0) == document,
            Err(error) => r is Err && r->Err_0@ == error,
        },
{
    serde_json::from_str::<Value>(text).map_err(|e| e.to_string())
}

} // verus!
