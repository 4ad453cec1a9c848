//! Trusted access to `serde_json::Value`. A JSON value is opaque to the
//! verifier, so each reader here only copies one field out as a plain
//! value; every decision about what the fields mean is made by verified
//! code on the copies.

use vstd::prelude::*;

verus! {

#[verifier::external_type_specification]
#[verifier::external_body]
pub struct ExJsonValue(serde_json::Value);

/// Relies on serde_json::Value::get and Value::as_str: the string at `key`
/// of a JSON object, copied out; `None` when the key is missing or the
/// value is not a JSON string.
#[verifier::external_body]
pub fn json_get_str(v: &serde_json::Value, key: &str) -> Option<String> {
    v.get(key).and_then(|x| x.as_str()).map(|s| s.to_string())
}

/// Relies on serde_json::Value::get and Value::as_bool.
#[verifier::external_body]
pub fn json_get_bool(v: &serde_json::Value, key: &str) -> Option<bool> {
    v.get(key).and_then(|x| x.as_bool())
}

/// Relies on serde_json::Value::get and Value::as_u64.
#[verifier::external_body]
pub fn json_get_u64(v: &serde_json::Value, key: &str) -> Option<u64> {
    v.get(key).and_then(|x| x.as_u64())
}

/// Relies on serde_json::Value::get: whether a JSON object has `key`.
#[verifier::external_body]
pub fn json_has_key(v: &serde_json::Value, key: &str) -> bool {
    v.get(key).is_some()
}

/// Relies on serde_json::Value::get and Value::clone: the value at `key`,
/// copied out.
#[verifier::external_body]
pub fn json_get(v: &serde_json::Value, key: &str) -> Option<serde_json::Value> {
    v.get(key).cloned()
}

/// Relies on serde_json::Value::as_array and Vec::clone: the elements when
/// the value is a JSON array.
#[verifier::external_body]
pub fn json_as_array(v: &serde_json::Value) -> Option<Vec<serde_json::Value>> {
    v.as_array().cloned()
}

/// The shape found at a key expected to hold an array of strings.
pub enum JsonStrArray {
    /// The key is absent.
    Missing,
    /// The key is present but its value is not a JSON array.
    NotAnArray,
    /// The elements, each copied out when it is a JSON string.
    Items(Vec<Option<String>>),
}

/// Relies on serde_json::Value::get, Value::as_array and Value::as_str:
/// reports the shape at `key` and copies each element out as a plain
/// optional string, deciding nothing.
#[verifier::external_body]
pub fn json_get_str_array(v: &serde_json::Value, key: &str) -> JsonStrArray {
    match v.get(key) {
        None => JsonStrArray::Missing,
        Some(a) => match a.as_array() {
            None => JsonStrArray::NotAnArray,
            Some(items) => JsonStrArray::Items(
                items.iter().map(|x| x.as_str().map(|s| s.to_string())).collect(),
            ),
        },
    }
}

/// Relies on serde_json::from_str: reads a JSON document from text,
/// yielding JSON null when the text does not parse.
#[verifier::external_body]
pub fn parse_json_text(s: &str) -> serde_json::Value {
    serde_json::from_str(s).unwrap_or(serde_json::Value::Null)
}

} // verus!
