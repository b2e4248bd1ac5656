//! The `serde_json` values the library carries: its errors, and JSON objects
//! with the names of their members.

use vstd::prelude::*;
use serde_json::Error as JsonError;
use serde_json::Map as JsonMap;
use serde_json::Value as JsonValue;

verus! {

/// JSON errors from `serde_json`, carried by the crate's own error type.
#[verifier::external_type_specification]
#[verifier::external_body]
pub struct ExJsonError(JsonError);

/// A JSON object of `serde_json`: the non-registered claims of a token.
#[verifier::external_type_specification]
#[verifier::external_body]
#[verifier::reject_recursive_types(K)]
#[verifier::reject_recursive_types(V)]
pub struct ExJsonMap<K, V>(JsonMap<K, V>);

/// A JSON value of `serde_json`.
#[verifier::external_type_specification]
#[verifier::external_body]
pub struct ExJsonValue(JsonValue);

/// The member names of a JSON object.
pub uninterp spec fn json_object_keys(map: JsonMap<String, JsonValue>) -> Set<Seq<char>>;

/// An empty JSON object.
///
/// Calls `serde_json::Map::new`, documented to make a new empty map.
#[verifier::external_body]
pub(crate) fn json_object_new() -> (map: JsonMap<String, JsonValue>)
    ensures
        json_object_keys(map) == Set::<Seq<char>>::empty(),
{
    JsonMap::new()
}

/// A copy of a JSON object.
///
/// Calls `<serde_json::Map as Clone>::clone`; the copy has the same members.
#[verifier::external_body]
pub(crate) fn json_object_clone(map: &JsonMap<String, JsonValue>) -> (res: JsonMap<String, JsonValue>)
    ensures
        json_object_keys(res) == json_object_keys(*map),
{
    map.clone()
}

/// The member of a JSON object with the given name.
///
/// Calls `serde_json::Map::get`, which returns the value stored under `key`,
/// if there is one. What the value holds is not stated here.
#[verifier::external_body]
pub(crate) fn json_object_get<'a>(map: &'a JsonMap<String, JsonValue>, key: &str) -> (res: Option<
    &'a JsonValue,
>)
    ensures
        res is Some <==> json_object_keys(*map).contains(key@),
{
    map.get(key)
}

} // verus!
