//! The fields of a JSON object, read by the kind of value they hold.

use vstd::prelude::*;
use crate::json::{fields_of, object_get, Json, JsonNumber};

verus! {

/// The text of the field `name`, where the object has the field and it holds
/// a string.
pub open spec fn text_field(object: Map<Seq<char>, Json>, name: Seq<char>) -> Option<Seq<char>> {
    if object.contains_key(name) {
        match object[name] {
            Json::Text(text) => Some(text),
            _ => None,
        }
    } else {
        None
    }
}

/// The truth value of the field `name`, where the object has the field and
/// it holds a boolean.
pub open spec fn bool_field(object: Map<Seq<char>, Json>, name: Seq<char>) -> Option<bool> {
    if object.contains_key(name) {
        match object[name] {
            Json::Bool(b) => Some(b),
            _ => None,
        }
    } else {
        None
    }
}

/// The number of the field `name`, where the object has the field and it
/// holds a whole number that is not negative.
pub open spec fn u64_field(object: Map<Seq<char>, Json>, name: Seq<char>) -> Option<u64> {
    if object.contains_key(name) {
        match object[name] {
            Json::Number(JsonNumber::PosInt(n)) => Some(n),
            _ => None,
        }
    } else {
        None
    }
}

/// The text of the field `name` of `object`.
pub fn field_text<'a>(object: &'a serde_json::Map<String, serde_json::Value>, name: &str) -> (r:
    Option<&'a str>)
    ensures
        match r {
            Some(text) => text_field(fields_of(*object), name@) == Some(text@),
            None => text_field(fields_of(*object), name@) is None,
        },
{
    match object_get(object, name) {
        Some(value) => value.as_str(),
        None => None,
    }
}

/// The truth value of the field `name` of `object`.
pub fn field_bool(object: &serde_json::Map<String, serde_json::Value>, name: &str) -> (r: Option<
    bool,
>)
    ensures
        r == bool_field(fields_of(*object), name@),
{
    match object_get(object, name) {
        Some(value) => value.as_bool(),
        None => None,
    }
}

/// The number of the field `name` of `object`.
pub fn field_u64(object: &serde_json::Map<String, serde_json::Value>, name: &str) -> (r: Option<
    u64,
>)
    ensures
        r == u64_field(fields_of(*object), name@),
{
    match object_get(object, name) {
        Some(value) => value.as_u64(),
        None => None,
    }
}

} // verus!
