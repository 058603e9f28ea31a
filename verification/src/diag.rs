//! Best-effort diagnostics over relayed payloads.
//!
//! Each frame body is expected to be a JSON document, but the relay
//! never rejects one for being otherwise: the bytes pass through
//! unmodified, and this module only extracts the `action` and `task_id`
//! fields for logging when they can be had. Extraction is total — it
//! returns a summary for every input and so can never affect the
//! relay's control flow.

use vstd::prelude::*;

verus! {

/// serde_json's dynamic JSON value, carried opaquely.
#[verifier::external_type_specification]
#[verifier::external_body]
pub struct ExJsonValue(serde_json::Value);

/// Relies on serde_json::from_slice: `Some` exactly when the bytes are
/// a well-formed JSON document, which nothing here depends on.
#[verifier::external_body]
fn parse_json(bytes: &Vec<u8>) -> Option<serde_json::Value> {
    match serde_json::from_slice::<serde_json::Value>(bytes.as_slice()) {
        Ok(value) => Some(value),
        Err(_) => None,
    }
}

/// Relies on serde_json::Value::get: the value under the given key when
/// `value` is a JSON object holding one.
#[verifier::external_body]
fn json_field<'a>(value: &'a serde_json::Value, key: &str) -> Option<&'a serde_json::Value> {
    value.get(key)
}

/// Relies on serde_json::Value::as_str: the content when `value` is a
/// JSON string.
#[verifier::external_body]
fn json_as_string(value: &serde_json::Value) -> Option<String> {
    match value.as_str() {
        Some(s) => Some(s.to_owned()),
        None => None,
    }
}

/// The string under `key`, when the document is an object holding a
/// string there.
fn json_string_field(value: &serde_json::Value, key: &str) -> Option<String> {
    match json_field(value, key) {
        Some(field) => json_as_string(field),
        None => None,
    }
}

/// What a relayed payload looks like, as far as logging cares: the
/// `action` and `task_id` fields, where the payload is a JSON object
/// that has them as strings.
pub struct FrameSummary {
    pub action: Option<String>,
    pub task_id: Option<String>,
}

/// Summarizes a payload for logging. Total on every byte sequence:
/// whatever the bytes hold, the relay gets a summary back and never an
/// error, so malformed JSON can only ever cost log detail.
pub fn summarize_frame(bytes: &Vec<u8>) -> FrameSummary {
    match parse_json(bytes) {
        Some(value) => FrameSummary {
            action: json_string_field(&value, "action"),
            task_id: json_string_field(&value, "task_id"),
        },
        None => FrameSummary { action: None, task_id: None },
    }
}

} // verus!
