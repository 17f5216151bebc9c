//! JSON documents as `serde_json` holds them.
//!
//! Verus cannot look into a `serde_json::Value` or a `serde_json::Map`, so
//! this module gives each a mathematical model, [`Json`], and states over it
//! what the crate relies on of the calls it makes. Nothing here is proved:
//! every item below is taken on trust from the source of `serde_json` and of
//! `serde_json_lenient`.

use vstd::prelude::*;

verus! {

/// `serde_json::Map`, an object of a JSON document.
#[verifier::external_type_specification]
#[verifier::external_body]
#[verifier::reject_recursive_types(K)]
#[verifier::reject_recursive_types(V)]
pub struct ExJsonObject<K, V>(serde_json::Map<K, V>);

/// `serde_json::Value`, any value of a JSON document.
#[verifier::external_type_specification]
#[verifier::external_body]
pub struct ExJsonValue(serde_json::Value);

/// `serde_json::Error`, the failure to write a document.
#[verifier::external_type_specification]
#[verifier::external_body]
pub struct ExJsonError(serde_json::Error);

/// `serde_json_lenient::Error`, the failure to read a document.
#[verifier::external_type_specification]
#[verifier::external_body]
pub struct ExLenientError(serde_json_lenient::Error);

/// A JSON number, as `serde_json` tells numbers apart.
pub enum JsonNumber {
    /// A whole number that is not negative.
    PosInt(u64),
    /// A whole number below zero.
    NegInt(i64),
    /// Any other finite number, given by the bits of its double.
    Float(u64),
}

/// A JSON value.
pub enum Json {
    Null,
    Bool(bool),
    Number(JsonNumber),
    Text(Seq<char>),
    Array(Seq<Json>),
    Object(Map<Seq<char>, Json>),
}

/// The JSON value that a `serde_json::Value` holds.
pub uninterp spec fn json_of(value: serde_json::Value) -> Json;

/// The fields that a `serde_json::Map` holds, each with its value. The map
/// keeps its fields sorted by name, as `serde_json` does unless it is built
/// with `preserve_order`; this crate does not ask for that feature, and what
/// is said here of the written text holds of such a build only.
pub uninterp spec fn fields_of(object: serde_json::Map<String, serde_json::Value>) -> Map<
    Seq<char>,
    Json,
>;

/// What `serde_json_lenient::from_str` reads from `text` when asked for a
/// list of objects, where it reads one.
pub uninterp spec fn lenient_records(text: Seq<char>) -> Option<Seq<Map<Seq<char>, Json>>>;

/// What `serde_json_lenient::from_str` reads from `text` when asked for one
/// object, where it reads one.
pub uninterp spec fn lenient_object(text: Seq<char>) -> Option<Map<Seq<char>, Json>>;

/// What `serde_json_lenient::from_str` reads from `text` when asked for a
/// string, where it reads one.
pub uninterp spec fn lenient_string(text: Seq<char>) -> Option<Seq<char>>;

/// The text that `serde_json::to_string_pretty` writes for a list of objects,
/// where it writes one.
pub uninterp spec fn pretty_records(records: Seq<Map<Seq<char>, Json>>) -> Option<Seq<char>>;

/// The objects of a list, each by its fields.
pub open spec fn records_of(objects: Seq<serde_json::Map<String, serde_json::Value>>) -> Seq<
    Map<Seq<char>, Json>,
> {
    Seq::new(objects.len(), |i: int| fields_of(objects[i]))
}

/// `Value::as_str`: the text of a value that is a string, and nothing for
/// any other value.
pub assume_specification<'a>[ serde_json::Value::as_str ](value: &'a serde_json::Value) -> (r:
    Option<&'a str>)
    ensures
        match json_of(*value) {
            Json::Text(text) => r matches Some(s) && s@ == text,
            _ => r is None,
        },
;

/// `Value::as_bool`: the truth value of a value that is a boolean, and
/// nothing for any other value.
pub assume_specification[ serde_json::Value::as_bool ](value: &serde_json::Value) -> (r: Option<
    bool,
>)
    ensures
        r == match json_of(*value) {
            Json::Bool(b) => Some(b),
            _ => None,
        },
;

/// `Value::as_u64`: the number of a value that is a whole number and not
/// negative, and nothing for any other value.
pub assume_specification[ serde_json::Value::as_u64 ](value: &serde_json::Value) -> (r: Option<
    u64,
>)
    ensures
        r == match json_of(*value) {
            Json::Number(JsonNumber::PosInt(n)) => Some(n),
            _ => None,
        },
;

/// `Value::clone`: a value that holds the same JSON value.
pub assume_specification[ <serde_json::Value as Clone>::clone ](value: &serde_json::Value) -> (r:
    serde_json::Value)
    ensures
        json_of(r) == json_of(*value),
;

/// `Map::new`: an object without fields.
pub assume_specification[ serde_json::Map::<String, serde_json::Value>::new ]() -> (object: serde_json::Map<String, serde_json::Value>)
    ensures
        fields_of(object).dom() == Set::<Seq<char>>::empty(),
;

/// `Map::insert`: the field `k` holds `v` afterwards and the other fields
/// are as before; the value that `k` held before is handed back.
pub assume_specification[ serde_json::Map::<String, serde_json::Value>::insert ](
    object: &mut serde_json::Map<String, serde_json::Value>,
    k: String,
    v: serde_json::Value,
) -> (r: Option<serde_json::Value>)
    ensures
        fields_of(*final(object)) == fields_of(*old(object)).insert(k@, json_of(v)),
        match r {
            Some(before) => fields_of(*old(object)).contains_key(k@) && json_of(before)
                == fields_of(*old(object))[k@],
            None => !fields_of(*old(object)).contains_key(k@),
        },
;

/// `Map::get`: the value of the field `name`, where the object has that
/// field.
#[verifier::external_body]
pub(crate) fn object_get<'a>(
    object: &'a serde_json::Map<String, serde_json::Value>,
    name: &str,
) -> (r: Option<&'a serde_json::Value>)
    ensures
        match r {
            Some(value) => fields_of(*object).contains_key(name@) && json_of(*value) == fields_of(
                *object,
            )[name@],
            None => !fields_of(*object).contains_key(name@),
        },
{
    object.get(name)
}

/// `Value::Object`: the value that is the given object.
#[verifier::external_body]
pub(crate) fn object_value(object: serde_json::Map<String, serde_json::Value>) -> (r:
    serde_json::Value)
    ensures
        json_of(r) == Json::Object(fields_of(object)),
{
    serde_json::Value::Object(object)
}

/// `serde_json::to_string_pretty` on a list of objects.
#[verifier::external_body]
pub(crate) fn write_pretty(records: &Vec<serde_json::Map<String, serde_json::Value>>) -> (r: Result<
    String,
    serde_json::Error,
>)
    ensures
        match r {
            Ok(text) => pretty_records(records_of(records@)) == Some(text@),
            Err(_) => pretty_records(records_of(records@)) is None,
        },
{
    serde_json::to_string_pretty(records)
}

/// `serde_json_lenient::from_str`, asked for a list of objects.
#[verifier::external_body]
pub(crate) fn read_records(text: &str) -> (r: Result<
    Vec<serde_json::Map<String, serde_json::Value>>,
    serde_json_lenient::Error,
>)
    ensures
        match r {
            Ok(records) => lenient_records(text@) == Some(records_of(records@)),
            Err(_) => lenient_records(text@) is None,
        },
{
    serde_json_lenient::from_str(text)
}

/// `serde_json_lenient::from_str`, asked for one object.
#[verifier::external_body]
pub(crate) fn read_object(text: &str) -> (r: Result<
    serde_json::Map<String, serde_json::Value>,
    serde_json_lenient::Error,
>)
    ensures
        match r {
            Ok(object) => lenient_object(text@) == Some(fields_of(object)),
            Err(_) => lenient_object(text@) is None,
        },
{
    serde_json_lenient::from_str(text)
}

/// `serde_json_lenient::from_str`, asked for a string.
#[verifier::external_body]
pub(crate) fn read_string(text: &str) -> (r: Result<String, serde_json_lenient::Error>)
    ensures
        match r {
            Ok(s) => lenient_string(text@) == Some(s@),
            Err(_) => lenient_string(text@) is None,
        },
{
    serde_json_lenient::from_str(text)
}

/// The `Display` text of a `serde_json_lenient::Error`. Nothing is claimed
/// of it.
#[verifier::external_body]
pub(crate) fn error_text(error: &serde_json_lenient::Error) -> String {
    error.to_string()
}

} // verus!
