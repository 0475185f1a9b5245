//! Trusted surface over serde_json.
//!
//! The distributed query's responses and the topology configuration
//! arrive as JSON documents.  Parsing them is serde_json's work; the
//! wrappers here only hand the parsed values over as plain data, and
//! every decision about what the values mean is made by verified code
//! that takes them as arguments.

use vstd::prelude::*;

verus! {

#[verifier::external_type_specification]
#[verifier::external_body]
pub struct ExValue(serde_json::Value);

#[verifier::external_type_specification]
#[verifier::external_body]
#[verifier::reject_recursive_types(K)]
#[verifier::reject_recursive_types(V)]
pub struct ExJsonMap<K, V>(serde_json::Map<K, V>);

/// Relies on serde_json::from_slice: parses the bytes as one JSON
/// document, `None` where they are not valid JSON.
#[verifier::external_body]
pub(crate) fn json_from_slice(bytes: &[u8]) -> (r: Option<serde_json::Value>) {
    serde_json::from_slice::<serde_json::Value>(bytes).ok()
}

/// Relies on serde_json::Value::get: the member of a JSON object under
/// `key`, `None` for other value kinds or a missing key.
#[verifier::external_body]
pub(crate) fn json_get<'a>(v: &'a serde_json::Value, key: &str) -> (r: Option<&'a serde_json::Value>) {
    v.get(key)
}

/// Relies on serde_json::Value::as_str: the text of a JSON string.
#[verifier::external_body]
pub(crate) fn json_as_str<'a>(v: &'a serde_json::Value) -> (r: Option<&'a str>) {
    v.as_str()
}

/// Relies on serde_json::Value::as_array: the elements of a JSON array.
#[verifier::external_body]
pub(crate) fn json_as_array<'a>(v: &'a serde_json::Value) -> (r: Option<&'a Vec<serde_json::Value>>) {
    v.as_array()
}

/// Relies on serde_json::Value::as_i64: the value of a JSON integer
/// that fits an i64.
#[verifier::external_body]
pub(crate) fn json_as_i64(v: &serde_json::Value) -> (r: Option<i64>) {
    v.as_i64()
}

/// Relies on serde_json::Value::as_f64 and f64::to_bits: the bit
/// pattern of a JSON number read as a 64-bit float.
#[verifier::external_body]
pub(crate) fn json_as_f64_bits(v: &serde_json::Value) -> (r: Option<u64>) {
    v.as_f64().map(|x| x.to_bits())
}

/// Relies on serde_json::Value::as_object: the member map of a JSON
/// object.
#[verifier::external_body]
pub(crate) fn json_as_object<'a>(v: &'a serde_json::Value) -> (r: Option<
    &'a serde_json::Map<String, serde_json::Value>,
>) {
    v.as_object()
}

/// Relies on serde_json::Map::keys: the member names of a JSON object.
#[verifier::external_body]
pub(crate) fn json_map_keys(m: &serde_json::Map<String, serde_json::Value>) -> (r: Vec<String>) {
    m.keys().cloned().collect()
}

/// Relies on serde_json::Map::get: the member under `key`.
#[verifier::external_body]
pub(crate) fn json_map_get<'a>(
    m: &'a serde_json::Map<String, serde_json::Value>,
    key: &str,
) -> (r: Option<&'a serde_json::Value>) {
    m.get(key)
}

} // verus!
