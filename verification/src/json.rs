//! JSON documents.
//!
//! Response bodies are parsed by `serde_json` into its `Value` tree, and the
//! decoders of this crate read that tree through the accessors below. To
//! reason about what they read, every `Value` has a mathematical model, a
//! [`Json`], and each accessor is described by what it returns for each shape
//! of the model.

use vstd::prelude::*;

verus! {

/// The mathematical model of a JSON value.
pub enum Json {
    /// `null`.
    Null,
    /// `true` or `false`.
    Bool(bool),
    /// A number. `integer` is its value where `serde_json` holds it as an
    /// integer, `None` where it holds it as a floating-point number; `text`
    /// is the number as `serde_json` writes it.
    Number { integer: Option<int>, text: Seq<char> },
    /// A string.
    Text(Seq<char>),
    /// An array, in the order of the document.
    Array(Seq<Json>),
    /// An object: its members by name.
    Object(Map<Seq<char>, Json>),
}

/// A JSON value of `serde_json`.
#[verifier::external_type_specification]
#[verifier::external_body]
pub struct ExValue(serde_json::Value);

/// The reason why `serde_json` refused a document.
#[verifier::external_type_specification]
#[verifier::external_body]
pub struct ExJsonError(serde_json::Error);

/// What a `Value` holds.
pub uninterp spec fn json_model(value: serde_json::Value) -> Json;

/// The value that `serde_json::from_str` reads from a text, `None` where it
/// refuses the text.
pub uninterp spec fn json_document(text: Seq<char>) -> Option<Json>;

/// The member of an object under a name. `None` where the value is no object
/// or has no such member.
pub open spec fn member(json: Json, name: Seq<char>) -> Option<Json> {
    match json {
        Json::Object(members) => if members.dom().contains(name) {
            Some(members[name])
        } else {
            None
        },
        _ => None,
    }
}

/// The integer that a value holds, if it is a number held as an integer
/// within `lo..=hi`.
pub open spec fn integer_within(json: Json, lo: int, hi: int) -> Option<int> {
    match json {
        Json::Number { integer: Some(n), .. } => if lo <= n <= hi {
            Some(n)
        } else {
            None
        },
        _ => None,
    }
}

/// `serde_json::from_str` at `Value`: reads one JSON document. Succeeds
/// exactly on the texts for which [`json_document`] names a result, and then
/// returns a value with that model.
#[verifier::external_body]
pub(crate) fn parse_json(text: &str) -> (r: Result<serde_json::Value, serde_json::Error>)
    ensures
        r matches Ok(value) ==> json_document(text@) == Some(json_model(value)),
        r is Err ==> json_document(text@) is None,
{
    serde_json::from_str::<serde_json::Value>(text)
}

/// `Value::as_str`: the characters of a string, `None` for any other value.
#[verifier::external_body]
pub(crate) fn json_as_str(value: &serde_json::Value) -> (r: Option<&str>)
    ensures
        r is Some <==> json_model(*value) is Text,
        r matches Some(s) ==> json_model(*value) == Json::Text(s@),
{
    value.as_str()
}

/// `Value::as_i64`: the value of a number that is held as an integer and fits
/// `i64`, `None` for any other value.
#[verifier::external_body]
pub(crate) fn json_as_i64(value: &serde_json::Value) -> (r: Option<i64>)
    ensures
        r is Some <==> integer_within(json_model(*value), i64::MIN as int, i64::MAX as int)
            is Some,
        r matches Some(n) ==> integer_within(json_model(*value), i64::MIN as int, i64::MAX as int)
            == Some(n as int),
{
    value.as_i64()
}

/// `Value::as_u64`: the value of a number that is held as an integer and fits
/// `u64`, `None` for any other value.
#[verifier::external_body]
pub(crate) fn json_as_u64(value: &serde_json::Value) -> (r: Option<u64>)
    ensures
        r is Some <==> integer_within(json_model(*value), 0, u64::MAX as int) is Some,
        r matches Some(n) ==> integer_within(json_model(*value), 0, u64::MAX as int) == Some(
            n as int,
        ),
{
    value.as_u64()
}

/// `Value::as_number` and the `Display` of `Number`: a number as
/// `serde_json` writes it, `None` for any other value.
#[verifier::external_body]
pub(crate) fn json_number_text(value: &serde_json::Value) -> (r: Option<String>)
    ensures
        r is Some <==> json_model(*value) is Number,
        r matches Some(s) ==> json_model(*value) matches Json::Number { text, .. } && text == s@,
{
    value.as_number().map(|n| n.to_string())
}

/// `Value::as_array`: the elements of an array, `None` for any other value.
#[verifier::external_body]
pub(crate) fn json_as_array(value: &serde_json::Value) -> (r: Option<&Vec<serde_json::Value>>)
    ensures
        r is Some <==> json_model(*value) is Array,
        r matches Some(items) ==> json_model(*value) == Json::Array(
            items@.map_values(|item: serde_json::Value| json_model(item)),
        ),
{
    value.as_array()
}

/// `Value::get` with a name: the member of an object under that name, `None`
/// where the value is no object or has no such member.
#[verifier::external_body]
pub(crate) fn json_get<'a>(value: &'a serde_json::Value, name: &str) -> (r: Option<
    &'a serde_json::Value,
>)
    ensures
        r is Some <==> member(json_model(*value), name@) is Some,
        r matches Some(found) ==> member(json_model(*value), name@) == Some(json_model(*found)),
{
    value.get(name)
}

/// `Value::is_object`: whether the value is an object.
#[verifier::external_body]
pub(crate) fn json_is_object(value: &serde_json::Value) -> (yes: bool)
    ensures
        yes == (json_model(*value) is Object),
{
    value.is_object()
}

/// `Value::clone`: a value with the same contents.
#[verifier::external_body]
pub(crate) fn json_clone(value: &serde_json::Value) -> (copy: serde_json::Value)
    ensures
        json_model(copy) == json_model(*value),
{
    value.clone()
}

/// `serde::de::Error::custom` at `serde_json::Error`: an error that carries
/// the given message.
#[verifier::external_body]
pub(crate) fn json_error(message: &str) -> serde_json::Error {
    <serde_json::Error as serde::de::Error>::custom(message)
}

} // verus!
