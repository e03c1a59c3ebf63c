//! Trusted access to serde_json values. A parsed value is opaque here: the
//! verified classifier reads it only through these wrappers and takes its
//! own decisions on what they return.

use vstd::prelude::*;

verus! {

#[verifier::external_type_specification]
#[verifier::external_body]
pub struct ExValue(serde_json::Value);

/// Relies on serde_json::from_str::<Value>: parses one JSON document,
/// yielding None exactly when the text is not valid JSON.
#[verifier::external_body]
pub(crate) fn parse_value(line: &str) -> (r: Option<serde_json::Value>) {
    serde_json::from_str::<serde_json::Value>(line).ok()
}

/// Relies on serde_json::Value::get: the value under `key` if `v` is a JSON
/// object holding that key, else None.
#[verifier::external_body]
pub(crate) fn value_get<'a>(v: &'a serde_json::Value, key: &str) -> (r: Option<&'a serde_json::Value>) {
    v.get(key)
}

/// Relies on serde_json::Value::as_str: the payload if `v` is a JSON string,
/// else None.
#[verifier::external_body]
pub(crate) fn value_as_string(v: &serde_json::Value) -> (r: Option<String>) {
    match v.as_str() {
        Some(s) => Some(s.to_owned()),
        None => None,
    }
}

/// Relies on serde_json::Value::as_array: the elements if `v` is a JSON
/// array, else None.
#[verifier::external_body]
pub(crate) fn value_as_array<'a>(v: &'a serde_json::Value) -> (r: Option<&'a Vec<serde_json::Value>>) {
    v.as_array()
}

} // verus!
