//! What this library takes for granted about `serde_json::Value`.
//!
//! A JSON value is opaque to the verifier. Each accessor below is given a name for
//! what it returns on a value, and the rest of the library reasons over those names
//! alone. Nothing here is proved: the contracts restate the accessor's source.

use serde_json::Value;
use vstd::prelude::*;

verus! {

/// `serde_json::Value`, carried through verified code without looking inside.
#[verifier::external_type_specification]
#[verifier::external_body]
pub struct ExValue(serde_json::Value);

/// The member stored under `key` when `value` is a JSON object that has one.
pub uninterp spec fn json_member(value: Value, key: Seq<char>) -> Option<Value>;

/// The unsigned integer that `value` stands for, when it is a number with one.
pub uninterp spec fn json_u64(value: Value) -> Option<u64>;

/// The text of `value` when it is a JSON string.
pub uninterp spec fn json_text(value: Value) -> Option<Seq<char>>;

/// The elements of `value`, in order, when it is a JSON array.
pub uninterp spec fn json_items(value: Value) -> Option<Seq<Value>>;

/// `Value::find`: for an object, the entry of its map under `key`; for every other
/// kind of value, and for an object without that key, `None`.
pub assume_specification<'a>[ serde_json::Value::find ](value: &'a Value, key: &str) -> (found:
    Option<&'a Value>)
    ensures
        match found {
            Some(member) => json_member(*value, key@) == Some(*member),
            None => json_member(*value, key@) is None,
        },
;

/// `Value::as_u64`: the number itself for an unsigned integer, its cast for a signed
/// integer that is not negative, `None` for everything else.
pub assume_specification[ serde_json::Value::as_u64 ](value: &Value) -> (number: Option<u64>)
    ensures
        number == json_u64(*value),
;

/// `Value::as_str`: a borrow of the string inside a JSON string, `None` otherwise.
pub assume_specification[ serde_json::Value::as_str ](value: &Value) -> (text: Option<&str>)
    ensures
        match text {
            Some(s) => json_text(*value) == Some(s@),
            None => json_text(*value) is None,
        },
;

/// `Value::as_array`: a borrow of the vector inside a JSON array, `None` otherwise.
pub assume_specification[ serde_json::Value::as_array ](value: &Value) -> (items: Option<
    &Vec<Value>,
>)
    ensures
        match items {
            Some(v) => json_items(*value) == Some(v@),
            None => json_items(*value) is None,
        },
;

/// The JSON number that holds the unsigned integer `number`.
pub uninterp spec fn json_number(number: u64) -> Value;

/// The JSON string that holds `text`.
pub uninterp spec fn json_string(text: Seq<char>) -> Value;

/// `Value::U64`: the variant that holds an unsigned integer, which `as_u64` hands
/// back unchanged.
#[verifier::external_body]
pub(crate) fn number_value(number: u64) -> (value: Value)
    ensures
        value == json_number(number),
        json_u64(value) == Some(number),
{
    Value::U64(number)
}

/// `Value::String`: the variant that holds a string, which `as_str` lends out
/// unchanged.
#[verifier::external_body]
pub(crate) fn string_value(text: String) -> (value: Value)
    ensures
        value == json_string(text@),
        json_text(value) == Some(text@),
{
    Value::String(text)
}

} // verus!
