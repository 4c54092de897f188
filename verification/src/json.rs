//! The JSON calls the websocket layer makes.
//!
//! Websocket frames arrive as JSON text; `serde_json` parses and navigates
//! them.  The parsed value is opaque here — what this library verifies is
//! everything done with the strings read out of it.

use vstd::prelude::*;

verus! {

#[verifier::external_type_specification]
#[verifier::external_body]
pub struct ExValue(serde_json::Value);

/// Parses JSON text into a value, or nothing when the text is not valid JSON.
///
/// Relies on `serde_json::from_str`.
#[verifier::external_body]
pub(crate) fn parse_json(text: &str) -> (r: Option<serde_json::Value>) {
    serde_json::from_str(text).ok()
}

/// The field of a JSON object under `key`, or nothing when the value is not an
/// object or has no such field.
///
/// Relies on `serde_json::Value::get`.
#[verifier::external_body]
pub(crate) fn json_get<'a>(value: &'a serde_json::Value, key: &str) -> (r: Option<&'a serde_json::Value>) {
    value.get(key)
}

/// The value serialized back to compact JSON text.
///
/// Relies on the `Display` implementation of `serde_json::Value`.
#[verifier::external_body]
pub(crate) fn json_to_string(value: &serde_json::Value) -> (r: String) {
    value.to_string()
}

} // verus!
