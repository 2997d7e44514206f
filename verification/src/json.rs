//! JSON values as `serde_json` holds them.

use vstd::prelude::*;

verus! {

/// `serde_json::Value`, a JSON value.
#[verifier::external_type_specification]
#[verifier::external_body]
pub struct ExValue(serde_json::Value);

/// `serde_json::Error`, why a text is no JSON.
#[verifier::external_type_specification]
#[verifier::external_body]
pub struct ExError(serde_json::Error);

/// What a JSON value holds. `Number` stands for every number that is not an
/// integer from 0 to `u64::MAX`.
#[verifier::ext_equal]
pub enum Json {
    Null,
    Bool(bool),
    Unsigned(u64),
    Number,
    Text(Seq<char>),
    Array(Seq<Json>),
    Object(Map<Seq<char>, Json>),
}

/// What `value` holds.
pub uninterp spec fn json_view(value: serde_json::Value) -> Json;

/// What the JSON text `text` holds; `None` where it is no JSON.
pub uninterp spec fn parsed_json(text: Seq<char>) -> Option<Json>;

/// What `value` holds under `key`, where it is an object that has the key.
pub open spec fn json_get(value: Json, key: Seq<char>) -> Option<Json> {
    match value {
        Json::Object(fields) => if fields.dom().contains(key) {
            Some(fields[key])
        } else {
            None
        },
        _ => None,
    }
}

/// The boolean that `value` is.
pub open spec fn json_as_bool(value: Json) -> Option<bool> {
    match value {
        Json::Bool(b) => Some(b),
        _ => None,
    }
}

/// The unsigned integer that `value` is.
pub open spec fn json_as_u64(value: Json) -> Option<u64> {
    match value {
        Json::Unsigned(n) => Some(n),
        _ => None,
    }
}

/// The text that `value` is.
pub open spec fn json_as_text(value: Json) -> Option<Seq<char>> {
    match value {
        Json::Text(t) => Some(t),
        _ => None,
    }
}

/// `serde_json::from_str` into a `serde_json::Value`: whether a text is JSON, and
/// what it then holds, depend on the text alone.
#[verifier::external_body]
pub(crate) fn parse_json(text: &str) -> (result: Result<serde_json::Value, serde_json::Error>)
    ensures
        match result {
            Ok(value) => parsed_json(text@) == Some(json_view(value)),
            Err(_) => parsed_json(text@) is None,
        },
{
    serde_json::from_str(text)
}

/// `serde_json::Value::get` with a text as the key: the field of an object under
/// that key; nothing where there is no such field or the value is no object.
#[verifier::external_body]
pub(crate) fn get_field<'a>(value: &'a serde_json::Value, key: &str) -> (field: Option<
    &'a serde_json::Value,
>)
    ensures
        match field {
            Some(f) => json_get(json_view(*value), key@) == Some(json_view(*f)),
            None => json_get(json_view(*value), key@) is None,
        },
{
    value.get(key)
}

/// `serde_json::Value::as_bool`: the boolean of a value that is one.
pub assume_specification[ serde_json::Value::as_bool ](value: &serde_json::Value) -> (r: Option<
    bool,
>)
    ensures
        r == json_as_bool(json_view(*value)),
;

/// `serde_json::Value::as_u64`: the number of a value that is an integer from 0 to
/// `u64::MAX`.
pub assume_specification[ serde_json::Value::as_u64 ](value: &serde_json::Value) -> (r: Option<u64>)
    ensures
        r == json_as_u64(json_view(*value)),
;

/// `serde_json::Value::as_str`: the text of a value that is one.
pub assume_specification[ serde_json::Value::as_str ](value: &serde_json::Value) -> (r: Option<
    &str,
>)
    ensures
        match r {
            Some(t) => json_as_text(json_view(*value)) == Some(t@),
            None => json_as_text(json_view(*value)) is None,
        },
;

/// `serde_json::Value::from` of a unit: null.
#[verifier::external_body]
pub(crate) fn json_null() -> (value: serde_json::Value)
    ensures
        json_view(value) == Json::Null,
{
    serde_json::Value::from(())
}

/// `serde_json::Value::from` of a boolean: that boolean.
#[verifier::external_body]
pub(crate) fn json_bool(b: bool) -> (value: serde_json::Value)
    ensures
        json_view(value) == Json::Bool(b),
{
    serde_json::Value::from(b)
}

/// `serde_json::Value::from` of an unsigned integer: that number.
#[verifier::external_body]
pub(crate) fn json_unsigned(n: u64) -> (value: serde_json::Value)
    ensures
        json_view(value) == Json::Unsigned(n),
{
    serde_json::Value::from(n)
}

/// `serde_json::Value::from` of a text: that text.
#[verifier::external_body]
pub(crate) fn json_text(text: &str) -> (value: serde_json::Value)
    ensures
        json_view(value) == Json::Text(text@),
{
    serde_json::Value::from(text)
}

/// `serde_json::Value::from` of a vector of values: the array of them, in order.
#[verifier::external_body]
pub(crate) fn json_array(items: Vec<serde_json::Value>) -> (value: serde_json::Value)
    ensures
        json_view(value) == Json::Array(
            items@.map_values(|item: serde_json::Value| json_view(item)),
        ),
{
    serde_json::Value::from(items)
}

/// An assignment through `serde_json::Value::index_mut` with a text as the key:
/// the object then holds `field` under `key`, and its other fields stay. Null
/// counts as an object without fields; any other value would panic.
#[verifier::external_body]
pub(crate) fn set_field(value: &mut serde_json::Value, key: &str, field: serde_json::Value)
    requires
        json_view(*old(value)) is Null || json_view(*old(value)) is Object,
    ensures
        json_view(*final(value)) == (match json_view(*old(value)) {
            Json::Object(fields) => Json::Object(fields.insert(key@, json_view(field))),
            _ => Json::Object(Map::empty().insert(key@, json_view(field))),
        }),
{
    value[key] = field;
}

} // verus!
