//! Decoding records from JSON values.
//!
//! A type that can be read from a JSON value says, as a relation between the
//! model of the value and the record, what it reads. Decoding succeeds on
//! exactly the values that the type calls decodable.

use crate::decimal::{is_float_literal, Decimal};
use crate::json::{
    integer_within, json_as_array, json_as_i64, json_as_str, json_clone, json_get, json_model,
    json_number_text, member, Json,
};
use vstd::prelude::*;

verus! {

/// A record that is read from a JSON value.
pub trait FromJson: Sized {
    /// Whether a value of this shape can be read.
    spec fn decodable(json: Json) -> bool;

    /// Whether `value` is what is read from `json`.
    spec fn decodes(json: Json, value: Self) -> bool;

    /// Reads a record. `None` where the value cannot be read as one.
    fn from_json(raw: &serde_json::Value) -> (r: Option<Self>)
        ensures
            r is Some <==> Self::decodable(json_model(*raw)),
            r matches Some(value) ==> Self::decodes(json_model(*raw), value),
    ;
}

/// A JSON value read as it is.
impl FromJson for serde_json::Value {
    open spec fn decodable(json: Json) -> bool {
        true
    }

    open spec fn decodes(json: Json, value: Self) -> bool {
        json_model(value) == json
    }

    fn from_json(raw: &serde_json::Value) -> (r: Option<Self>) {
        Some(json_clone(raw))
    }
}

/// A real number read from a JSON number, kept as `serde_json` writes it.
impl FromJson for Decimal {
    open spec fn decodable(json: Json) -> bool {
        json matches Json::Number { text, .. } && is_float_literal(text)
    }

    open spec fn decodes(json: Json, value: Self) -> bool {
        json matches Json::Number { text, .. } && value@ == text
    }

    fn from_json(raw: &serde_json::Value) -> (r: Option<Self>) {
        match json_number_text(raw) {
            Some(text) => Decimal::parse(text.as_str()),
            None => None,
        }
    }
}

/// A list read from a JSON array, element by element.
impl<T: FromJson> FromJson for Vec<T> {
    open spec fn decodable(json: Json) -> bool {
        json matches Json::Array(items) && all_decodable::<T>(items)
    }

    open spec fn decodes(json: Json, value: Self) -> bool {
        json matches Json::Array(items) && decodes_each::<T>(items, value@)
    }

    fn from_json(raw: &serde_json::Value) -> (r: Option<Self>) {
        match json_as_array(raw) {
            Some(items) => decode_each::<T>(items),
            None => None,
        }
    }
}

/// Every element of an array can be read as a `T`.
pub open spec fn all_decodable<T: FromJson>(items: Seq<Json>) -> bool {
    forall|i: int| 0 <= i < items.len() ==> T::decodable(#[trigger] items[i])
}

/// `values` is what is read from `items`, element by element.
pub open spec fn decodes_each<T: FromJson>(items: Seq<Json>, values: Seq<T>) -> bool {
    &&& values.len() == items.len()
    &&& forall|i: int| 0 <= i < items.len() ==> T::decodes(#[trigger] items[i], values[i])
}

/// Reads every element of an array, in order. `None` as soon as one element
/// cannot be read.
pub fn decode_each<T: FromJson>(items: &Vec<serde_json::Value>) -> (r: Option<Vec<T>>)
    ensures
        r is Some <==> all_decodable::<T>(items@.map_values(|v: serde_json::Value| json_model(v))),
        r matches Some(values) ==> decodes_each::<T>(
            items@.map_values(|v: serde_json::Value| json_model(v)),
            values@,
        ),
{
    let ghost models = items@.map_values(|v: serde_json::Value| json_model(v));
    let mut values: Vec<T> = Vec::new();
    let mut i: usize = 0;
    while i < items.len()
        invariant
            0 <= i <= items.len(),
            models == items@.map_values(|v: serde_json::Value| json_model(v)),
            values@.len() == i,
            forall|j: int| 0 <= j < i ==> T::decodable(#[trigger] models[j]),
            forall|j: int| 0 <= j < i ==> T::decodes(#[trigger] models[j], values@[j]),
        decreases items.len() - i,
    {
        assert(models[i as int] == json_model(items@[i as int]));
        match T::from_json(&items[i]) {
            Some(value) => {
                values.push(value);
            },
            None => {
                assert(!T::decodable(models[i as int]));
                return None;
            },
        }
        i = i + 1;
    }
    Some(values)
}

/// The integer under a name, where the member is a number held as an integer
/// that fits 32 bits.
pub open spec fn int_member(json: Json, name: Seq<char>) -> Option<int> {
    match member(json, name) {
        Some(found) => integer_within(found, i32::MIN as int, i32::MAX as int),
        None => None,
    }
}

/// The characters under a name, where the member is a string.
pub open spec fn text_member(json: Json, name: Seq<char>) -> Option<Seq<char>> {
    match member(json, name) {
        Some(Json::Text(s)) => Some(s),
        _ => None,
    }
}

/// The integer under a name, where the member is a number held as an integer
/// that fits 64 bits, signed.
pub open spec fn long_member(json: Json, name: Seq<char>) -> Option<int> {
    match member(json, name) {
        Some(found) => integer_within(found, i64::MIN as int, i64::MAX as int),
        None => None,
    }
}

/// The characters of an optional string.
pub open spec fn text_of(value: Option<String>) -> Option<Seq<char>> {
    match value {
        Some(s) => Some(s@),
        None => None,
    }
}

/// The number in an optional 32-bit integer.
pub open spec fn int_of(value: Option<i32>) -> Option<int> {
    match value {
        Some(n) => Some(n as int),
        None => None,
    }
}

/// The number in an optional 64-bit integer.
pub open spec fn long_of(value: Option<i64>) -> Option<int> {
    match value {
        Some(n) => Some(n as int),
        None => None,
    }
}

/// Reads a 32-bit integer member. `None` where the member is missing or is
/// anything but an integer that fits.
pub fn get_int(raw: &serde_json::Value, name: &str) -> (r: Option<i32>)
    ensures
        int_of(r) == int_member(json_model(*raw), name@),
{
    match json_get(raw, name) {
        Some(found) => match json_as_i64(found) {
            Some(n) => {
                if -0x8000_0000 <= n && n <= 0x7fff_ffff {
                    Some(n as i32)
                } else {
                    None
                }
            },
            None => None,
        },
        None => None,
    }
}

/// Reads a 64-bit integer member. `None` where the member is missing or is
/// anything but an integer that fits.
pub fn get_long(raw: &serde_json::Value, name: &str) -> (r: Option<i64>)
    ensures
        long_of(r) == long_member(json_model(*raw), name@),
{
    match json_get(raw, name) {
        Some(found) => json_as_i64(found),
        None => None,
    }
}

/// Reads a string member. `None` where the member is missing or is anything
/// but a string.
pub fn get_text(raw: &serde_json::Value, name: &str) -> (r: Option<String>)
    ensures
        text_of(r) == text_member(json_model(*raw), name@),
{
    match json_get(raw, name) {
        Some(found) => match json_as_str(found) {
            Some(s) => Some(s.to_owned()),
            None => None,
        },
        None => None,
    }
}

/// What is read from the member under a name as a record of its own. `None`
/// where the member is missing or cannot be read.
pub open spec fn record_member_decodable<T: FromJson>(json: Json, name: Seq<char>) -> bool {
    match member(json, name) {
        Some(found) => T::decodable(found),
        None => false,
    }
}

/// Reads a member as a record of its own. `None` where the member is missing
/// or cannot be read.
pub fn get_record<T: FromJson>(raw: &serde_json::Value, name: &str) -> (r: Option<T>)
    ensures
        r is Some <==> record_member_decodable::<T>(json_model(*raw), name@),
        r matches Some(value) ==> T::decodes(member(json_model(*raw), name@)->0, value),
{
    match json_get(raw, name) {
        Some(found) => T::from_json(found),
        None => None,
    }
}

/// Whether `value` is what is read from an optional member: the record where
/// the member is there and can be read, `None` otherwise.
pub open spec fn decodes_optional<T: FromJson>(found: Option<Json>, value: Option<T>) -> bool {
    match found {
        Some(json) if T::decodable(json) => value matches Some(v) && T::decodes(json, v),
        _ => value is None,
    }
}

/// Reads a member as an optional record of its own. `None` where the member
/// is missing or cannot be read.
pub fn get_optional_record<T: FromJson>(raw: &serde_json::Value, name: &str) -> (r: Option<T>)
    ensures
        decodes_optional::<T>(member(json_model(*raw), name@), r),
{
    match json_get(raw, name) {
        Some(found) => T::from_json(found),
        None => None,
    }
}

/// The elements of the array under a name.
pub open spec fn array_member(json: Json, name: Seq<char>) -> Option<Seq<Json>> {
    match member(json, name) {
        Some(Json::Array(items)) => Some(items),
        _ => None,
    }
}

/// Reads a member that is an array of records. `None` where the member is
/// missing, is no array, or holds an element that cannot be read.
pub fn get_records<T: FromJson>(raw: &serde_json::Value, name: &str) -> (r: Option<Vec<T>>)
    ensures
        r is Some <==> (array_member(json_model(*raw), name@) matches Some(items)
            && all_decodable::<T>(items)),
        r matches Some(values) ==> decodes_each::<T>(
            array_member(json_model(*raw), name@)->0,
            values@,
        ),
{
    match json_get(raw, name) {
        Some(found) => match json_as_array(found) {
            Some(items) => decode_each::<T>(items),
            None => None,
        },
        None => None,
    }
}

} // verus!
