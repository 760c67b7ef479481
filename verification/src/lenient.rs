//! Lenient decoding of optional fields.
//!
//! Upstream is not consistent in how it writes an optional field. A number
//! may come as a JSON number, as a string that holds the number, as an empty
//! string or as `null`; a list may come as an array, as one bare string, as
//! an empty string or as `null`. The decoders here take all of these and
//! never fail: a value that cannot be read gives `None`, so that one odd
//! field does not cost the whole record.
//!
//! An empty string is always `None`. A string that is no number gives `None`
//! for a numeric field. A bare string stands for a list of one element only
//! where the elements are strings. A JSON number that the target integer type
//! cannot hold is narrowed as an `as` cast narrows.

use crate::decimal::{is_float_literal, Decimal};
use crate::decode::{all_decodable, decode_each, decodes_each, FromJson};
use crate::json::{
    integer_within, json_as_array, json_as_i64, json_as_str, json_as_u64, json_get, json_model,
    json_number_text, member, Json,
};
use crate::text::{
    parse_i16, parse_i32, parse_u32, signed_literal_within, unsigned_literal_within,
};
use vstd::prelude::*;

verus! {

/// What a value gives as an optional 32-bit integer.
pub open spec fn lenient_i32(json: Json) -> Option<i32> {
    match json {
        Json::Text(s) => match signed_literal_within(s, i32::MIN as int, i32::MAX as int) {
            Some(v) => Some(v as i32),
            None => None,
        },
        Json::Number { .. } => match integer_within(json, i64::MIN as int, i64::MAX as int) {
            Some(n) => Some((n as i64) as i32),
            None => None,
        },
        _ => None,
    }
}

/// What a value gives as an optional 16-bit integer.
pub open spec fn lenient_i16(json: Json) -> Option<i16> {
    match json {
        Json::Text(s) => match signed_literal_within(s, i16::MIN as int, i16::MAX as int) {
            Some(v) => Some(v as i16),
            None => None,
        },
        Json::Number { .. } => match integer_within(json, i64::MIN as int, i64::MAX as int) {
            Some(n) => Some((n as i64) as i16),
            None => None,
        },
        _ => None,
    }
}

/// What a value gives as an optional unsigned 32-bit integer.
pub open spec fn lenient_u32(json: Json) -> Option<u32> {
    match json {
        Json::Text(s) => match unsigned_literal_within(s, u32::MAX as int) {
            Some(v) => Some(v as u32),
            None => None,
        },
        Json::Number { .. } => match integer_within(json, 0, u64::MAX as int) {
            Some(n) => Some((n as u64) as u32),
            None => None,
        },
        _ => None,
    }
}

/// What a value gives as an optional real number: the literal of a string
/// that holds one, or a number as it is written.
pub open spec fn lenient_decimal(json: Json) -> Option<Seq<char>> {
    match json {
        Json::Text(s) => if is_float_literal(s) {
            Some(s)
        } else {
            None
        },
        Json::Number { text, .. } => if is_float_literal(text) {
            Some(text)
        } else {
            None
        },
        _ => None,
    }
}

/// Every element is a string.
pub open spec fn all_text(items: Seq<Json>) -> bool {
    forall|i: int| 0 <= i < items.len() ==> #[trigger] items[i] is Text
}

/// What a value gives as an optional list of strings.
pub open spec fn lenient_strings(json: Json) -> Option<Seq<Seq<char>>> {
    match json {
        Json::Text(s) => if s.len() == 0 {
            None
        } else {
            Some(seq![s])
        },
        Json::Array(items) => if all_text(items) {
            Some(items.map_values(|item: Json| item->Text_0))
        } else {
            None
        },
        _ => None,
    }
}

/// Every element is an integer that fits 32 bits.
pub open spec fn all_int(items: Seq<Json>) -> bool {
    forall|i: int|
        0 <= i < items.len() ==> integer_within(
            #[trigger] items[i],
            i32::MIN as int,
            i32::MAX as int,
        ) is Some
}

/// What a value gives as an optional list of 32-bit integers.
pub open spec fn lenient_ints(json: Json) -> Option<Seq<i32>> {
    match json {
        Json::Array(items) => if all_int(items) {
            Some(
                items.map_values(
                    |item: Json| integer_within(item, i32::MIN as int, i32::MAX as int)->0 as i32,
                ),
            )
        } else {
            None
        },
        _ => None,
    }
}

/// The elements of an array of which every element can be read as a `T`.
pub open spec fn lenient_records<T: FromJson>(json: Json) -> Option<Seq<Json>> {
    match json {
        Json::Array(items) => if all_decodable::<T>(items) {
            Some(items)
        } else {
            None
        },
        _ => None,
    }
}

/// An empty string and `null` are absent, whatever the field is read as.
pub proof fn lemma_blank_is_absent<T: FromJson>(json: Json)
    requires
        json == Json::Text(Seq::empty()) || json is Null,
    ensures
        lenient_i32(json) is None,
        lenient_i16(json) is None,
        lenient_u32(json) is None,
        lenient_decimal(json) is None,
        lenient_strings(json) is None,
        lenient_ints(json) is None,
        lenient_records::<T>(json) is None,
{
}

/// A string that holds a number gives that number, and a number given as
/// such gives itself: a real number by its literal, an integer that fits the
/// field by its value.
pub proof fn lemma_number_is_read(json: Json)
    ensures
        json matches Json::Text(s) ==> (is_float_literal(s) ==> lenient_decimal(json) == Some(s)),
        json matches Json::Number { text, .. } ==> (is_float_literal(text) ==> lenient_decimal(json)
            == Some(text)),
        json matches Json::Number { integer: Some(n), .. } ==> (i32::MIN <= n <= i32::MAX
            ==> lenient_i32(json) == Some(n as i32)),
        json matches Json::Text(s) ==> (signed_literal_within(s, i32::MIN as int, i32::MAX as int)
            matches Some(n) ==> lenient_i32(json) == Some(n as i32)),
{
}

/// A bare string that is not empty is a list of one string, and an array of
/// strings is the list of its elements.
pub proof fn lemma_bare_string_is_list_of_one(json: Json)
    ensures
        json matches Json::Text(s) ==> (s.len() > 0 ==> lenient_strings(json) == Some(seq![s])),
        json matches Json::Array(items) ==> (all_text(items) ==> (lenient_strings(json)
            matches Some(list) && list.len() == items.len() && forall|i: int|
            0 <= i < items.len() ==> items[i] == Json::Text(#[trigger] list[i]))),
{
}

/// A bare string is never a list of integers or of records.
pub proof fn lemma_bare_string_is_no_list_of_records<T: FromJson>(json: Json)
    requires
        json is Text,
    ensures
        lenient_ints(json) is None,
        lenient_records::<T>(json) is None,
{
}

/// The characters of each string.
pub open spec fn strings_view(strings: Seq<String>) -> Seq<Seq<char>> {
    strings.map_values(|s: String| s@)
}

/// Deserialize an optional `i32` that might be an empty string.
pub fn deserialize_optional_i32(raw: &serde_json::Value) -> (r: Option<i32>)
    ensures
        r == lenient_i32(json_model(*raw)),
{
    match json_as_str(raw) {
        Some(s) => {
            if s.is_empty() {
                None
            } else {
                parse_i32(s)
            }
        },
        None => match json_as_i64(raw) {
            Some(n) => Some(
                #[verifier::truncate]
                (n as i32),
            ),
            None => None,
        },
    }
}

/// Deserialize an optional `i16` that might be an empty string.
pub fn deserialize_optional_i16(raw: &serde_json::Value) -> (r: Option<i16>)
    ensures
        r == lenient_i16(json_model(*raw)),
{
    match json_as_str(raw) {
        Some(s) => {
            if s.is_empty() {
                None
            } else {
                parse_i16(s)
            }
        },
        None => match json_as_i64(raw) {
            Some(n) => Some(
                #[verifier::truncate]
                (n as i16),
            ),
            None => None,
        },
    }
}

/// Deserialize an optional `u32` that might be an empty string.
pub fn deserialize_optional_u32(raw: &serde_json::Value) -> (r: Option<u32>)
    ensures
        r == lenient_u32(json_model(*raw)),
{
    match json_as_str(raw) {
        Some(s) => {
            if s.is_empty() {
                None
            } else {
                parse_u32(s)
            }
        },
        None => match json_as_u64(raw) {
            Some(n) => Some(
                #[verifier::truncate]
                (n as u32),
            ),
            None => None,
        },
    }
}

/// Deserialize an optional double-precision number that might be an empty
/// string. The number is kept as its literal.
pub fn deserialize_optional_f64(raw: &serde_json::Value) -> (r: Option<Decimal>)
    ensures
        r is Some <==> lenient_decimal(json_model(*raw)) is Some,
        r matches Some(d) ==> lenient_decimal(json_model(*raw)) == Some(d@),
{
    match json_as_str(raw) {
        Some(s) => {
            if s.is_empty() {
                None
            } else {
                Decimal::parse(s)
            }
        },
        None => match json_number_text(raw) {
            Some(text) => Decimal::parse(text.as_str()),
            None => None,
        },
    }
}

/// Deserialize an optional single-precision number that might be an empty
/// string. The number is kept as its literal, so this reads what
/// [`deserialize_optional_f64`] reads; the precision is chosen where the
/// literal is turned into a machine number.
pub fn deserialize_optional_f32(raw: &serde_json::Value) -> (r: Option<Decimal>)
    ensures
        r is Some <==> lenient_decimal(json_model(*raw)) is Some,
        r matches Some(d) ==> lenient_decimal(json_model(*raw)) == Some(d@),
{
    deserialize_optional_f64(raw)
}

/// Deserialize an optional `Vec<String>` that might be an empty string. A
/// bare string that is not empty is a list of one.
pub fn deserialize_optional_vec_string(raw: &serde_json::Value) -> (r: Option<Vec<String>>)
    ensures
        r is Some <==> lenient_strings(json_model(*raw)) is Some,
        r matches Some(v) ==> lenient_strings(json_model(*raw)) == Some(strings_view(v@)),
{
    match json_as_str(raw) {
        Some(s) => {
            if s.is_empty() {
                None
            } else {
                let mut one: Vec<String> = Vec::new();
                one.push(s.to_owned());
                assert(strings_view(one@) =~= seq![s@]);
                Some(one)
            }
        },
        None => match json_as_array(raw) {
            Some(items) => {
                let ghost models = items@.map_values(|v: serde_json::Value| json_model(v));
                let mut out: Vec<String> = Vec::new();
                let mut i: usize = 0;
                while i < items.len()
                    invariant
                        0 <= i <= items.len(),
                        models == items@.map_values(|v: serde_json::Value| json_model(v)),
                        json_model(*raw) == Json::Array(models),
                        out@.len() == i,
                        forall|j: int| 0 <= j < i ==> #[trigger] models[j] is Text,
                        forall|j: int| 0 <= j < i ==> (#[trigger] models[j])->Text_0 == out@[j]@,
                    decreases items.len() - i,
                {
                    assert(models[i as int] == json_model(items@[i as int]));
                    match json_as_str(&items[i]) {
                        Some(s) => {
                            out.push(s.to_owned());
                        },
                        None => {
                            assert(!(models[i as int] is Text));
                            return None;
                        },
                    }
                    i = i + 1;
                }
                assert(all_text(models));
                assert(strings_view(out@) =~= models.map_values(|item: Json| item->Text_0));
                Some(out)
            },
            None => None,
        },
    }
}

/// Deserialize an optional `Vec<i32>` that might be an empty string. A bare
/// string is never a list of integers.
pub fn deserialize_optional_vec_i32(raw: &serde_json::Value) -> (r: Option<Vec<i32>>)
    ensures
        r is Some <==> lenient_ints(json_model(*raw)) is Some,
        r matches Some(v) ==> lenient_ints(json_model(*raw)) == Some(v@),
{
    match json_as_array(raw) {
        Some(items) => {
            let ghost models = items@.map_values(|v: serde_json::Value| json_model(v));
            let mut out: Vec<i32> = Vec::new();
            let mut i: usize = 0;
            while i < items.len()
                invariant
                    0 <= i <= items.len(),
                    models == items@.map_values(|v: serde_json::Value| json_model(v)),
                    json_model(*raw) == Json::Array(models),
                    out@.len() == i,
                    forall|j: int|
                        0 <= j < i ==> integer_within(
                            #[trigger] models[j],
                            i32::MIN as int,
                            i32::MAX as int,
                        ) == Some(out@[j] as int),
                decreases items.len() - i,
            {
                assert(models[i as int] == json_model(items@[i as int]));
                match json_as_i64(&items[i]) {
                    Some(n) => {
                        if -0x8000_0000 <= n && n <= 0x7fff_ffff {
                            out.push(n as i32);
                        } else {
                            assert(integer_within(
                                models[i as int],
                                i32::MIN as int,
                                i32::MAX as int,
                            ) is None);
                            return None;
                        }
                    },
                    None => {
                        assert(integer_within(models[i as int], i32::MIN as int, i32::MAX as int)
                            is None);
                        return None;
                    },
                }
                i = i + 1;
            }
            assert(all_int(models));
            assert(out@ =~= models.map_values(
                |item: Json| integer_within(item, i32::MIN as int, i32::MAX as int)->0 as i32,
            ));
            Some(out)
        },
        None => None,
    }
}

/// Deserialize an optional `Vec` of records that might be an empty string. A
/// bare string is never a list of records.
pub fn deserialize_optional_vec<T: FromJson>(raw: &serde_json::Value) -> (r: Option<Vec<T>>)
    ensures
        r is Some <==> lenient_records::<T>(json_model(*raw)) is Some,
        r matches Some(v) ==> decodes_each::<T>(lenient_records::<T>(json_model(*raw))->0, v@),
{
    match json_as_array(raw) {
        Some(items) => decode_each::<T>(items),
        None => None,
    }
}

/// The characters of an optional real number.
pub open spec fn decimal_of(value: Option<Decimal>) -> Option<Seq<char>> {
    match value {
        Some(d) => Some(d@),
        None => None,
    }
}

/// The characters of each string of an optional list.
pub open spec fn strings_of(value: Option<Vec<String>>) -> Option<Seq<Seq<char>>> {
    match value {
        Some(v) => Some(strings_view(v@)),
        None => None,
    }
}

/// The numbers of an optional list.
pub open spec fn ints_of(value: Option<Vec<i32>>) -> Option<Seq<i32>> {
    match value {
        Some(v) => Some(v@),
        None => None,
    }
}

/// Whether `value` is what is read from an optional list of records: the
/// records where the member is an array of which every element can be read,
/// `None` otherwise.
pub open spec fn decodes_list<T: FromJson>(found: Option<Json>, value: Option<Vec<T>>) -> bool {
    match found {
        Some(json) if lenient_records::<T>(json) is Some => value matches Some(v)
            && decodes_each::<T>(lenient_records::<T>(json)->0, v@),
        _ => value is None,
    }
}

/// What the member under a name gives as an optional 32-bit integer. A
/// missing member gives `None`.
pub open spec fn lenient_i32_member(json: Json, name: Seq<char>) -> Option<i32> {
    match member(json, name) {
        Some(found) => lenient_i32(found),
        None => None,
    }
}

/// What the member under a name gives as an optional 16-bit integer.
pub open spec fn lenient_i16_member(json: Json, name: Seq<char>) -> Option<i16> {
    match member(json, name) {
        Some(found) => lenient_i16(found),
        None => None,
    }
}

/// What the member under a name gives as an optional unsigned 32-bit integer.
pub open spec fn lenient_u32_member(json: Json, name: Seq<char>) -> Option<u32> {
    match member(json, name) {
        Some(found) => lenient_u32(found),
        None => None,
    }
}

/// What the member under a name gives as an optional real number.
pub open spec fn lenient_decimal_member(json: Json, name: Seq<char>) -> Option<Seq<char>> {
    match member(json, name) {
        Some(found) => lenient_decimal(found),
        None => None,
    }
}

/// What the member under a name gives as an optional list of strings.
pub open spec fn lenient_strings_member(json: Json, name: Seq<char>) -> Option<Seq<Seq<char>>> {
    match member(json, name) {
        Some(found) => lenient_strings(found),
        None => None,
    }
}

/// What the member under a name gives as an optional list of integers.
pub open spec fn lenient_ints_member(json: Json, name: Seq<char>) -> Option<Seq<i32>> {
    match member(json, name) {
        Some(found) => lenient_ints(found),
        None => None,
    }
}

/// Reads a member as an optional 32-bit integer.
pub fn get_lenient_i32(raw: &serde_json::Value, name: &str) -> (r: Option<i32>)
    ensures
        r == lenient_i32_member(json_model(*raw), name@),
{
    match json_get(raw, name) {
        Some(found) => deserialize_optional_i32(found),
        None => None,
    }
}

/// Reads a member as an optional 16-bit integer.
pub fn get_lenient_i16(raw: &serde_json::Value, name: &str) -> (r: Option<i16>)
    ensures
        r == lenient_i16_member(json_model(*raw), name@),
{
    match json_get(raw, name) {
        Some(found) => deserialize_optional_i16(found),
        None => None,
    }
}

/// Reads a member as an optional unsigned 32-bit integer.
pub fn get_lenient_u32(raw: &serde_json::Value, name: &str) -> (r: Option<u32>)
    ensures
        r == lenient_u32_member(json_model(*raw), name@),
{
    match json_get(raw, name) {
        Some(found) => deserialize_optional_u32(found),
        None => None,
    }
}

/// Reads a member as an optional real number.
pub fn get_lenient_decimal(raw: &serde_json::Value, name: &str) -> (r: Option<Decimal>)
    ensures
        decimal_of(r) == lenient_decimal_member(json_model(*raw), name@),
{
    match json_get(raw, name) {
        Some(found) => deserialize_optional_f64(found),
        None => None,
    }
}

/// Reads a member as an optional list of strings.
pub fn get_lenient_strings(raw: &serde_json::Value, name: &str) -> (r: Option<Vec<String>>)
    ensures
        strings_of(r) == lenient_strings_member(json_model(*raw), name@),
{
    match json_get(raw, name) {
        Some(found) => deserialize_optional_vec_string(found),
        None => None,
    }
}

/// Reads a member as an optional list of integers.
pub fn get_lenient_ints(raw: &serde_json::Value, name: &str) -> (r: Option<Vec<i32>>)
    ensures
        ints_of(r) == lenient_ints_member(json_model(*raw), name@),
{
    match json_get(raw, name) {
        Some(found) => deserialize_optional_vec_i32(found),
        None => None,
    }
}

/// Reads a member as an optional list of records.
pub fn get_lenient_records<T: FromJson>(raw: &serde_json::Value, name: &str) -> (r: Option<
    Vec<T>,
>)
    ensures
        decodes_list::<T>(member(json_model(*raw), name@), r),
{
    match json_get(raw, name) {
        Some(found) => deserialize_optional_vec::<T>(found),
        None => None,
    }
}

} // verus!
