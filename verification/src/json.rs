//! Thin access layer over `serde_json`'s dynamic value type.
//!
//! The webhook envelope and the vendor error envelope arrive as JSON whose
//! nested objects are only loosely typed.  This module declares
//! `serde_json::Value` so that the parsing code in the rest of the library
//! can walk a parsed document and project it onto the crate's own typed
//! model.  A `Value` is opaque here: nothing about the content of a
//! document is assumed, every projection simply hands back what the
//! accessor returned.

use vstd::prelude::*;

verus! {

#[verifier::external_type_specification]
#[verifier::external_body]
pub struct ExValue(serde_json::Value);

/// Whether `serde_json::from_str::<Value>` accepts a text as a JSON
/// document: a function of the text alone (the parser's one limit, its
/// fixed recursion depth, depends on nothing outside the text either).
pub uninterp spec fn parses_as_json(s: Seq<char>) -> bool;

/// Relies on `serde_json::from_str::<Value>`: parses text as a JSON
/// document, succeeding exactly when the text is well-formed JSON
/// (`parses_as_json`); a failure carries the parser's description of it.
#[verifier::external_body]
pub(crate) fn parse_value(s: &str) -> (r: Result<serde_json::Value, String>)
    ensures
        r is Ok <==> parses_as_json(s@),
{
    serde_json::from_str(s).map_err(|e| e.to_string())
}

/// Relies on `serde_json::Value::get`: looks a key up in a JSON object,
/// `None` when the value is not an object or has no such key.
#[verifier::external_body]
pub(crate) fn value_get<'a>(v: &'a serde_json::Value, key: &str) -> Option<&'a serde_json::Value> {
    v.get(key)
}

/// Relies on `serde_json::Value::as_str`: the content of a JSON string
/// value, `None` for any other kind of value.
#[verifier::external_body]
pub(crate) fn value_as_string(v: &serde_json::Value) -> Option<String> {
    v.as_str().map(|s| s.to_string())
}

/// Relies on `serde_json::Value::as_array`: the elements of a JSON array,
/// `None` for any other kind of value.
#[verifier::external_body]
pub(crate) fn value_as_array<'a>(v: &'a serde_json::Value) -> Option<&'a Vec<serde_json::Value>> {
    v.as_array()
}

/// Relies on `serde_json::Value::as_i64`: the value of a JSON integer that
/// fits in an `i64`, `None` otherwise.
#[verifier::external_body]
pub(crate) fn value_as_i64(v: &serde_json::Value) -> Option<i64> {
    v.as_i64()
}

/// Relies on `serde_json::Value::as_bool`: the value of a JSON boolean,
/// `None` for any other kind of value.
#[verifier::external_body]
pub(crate) fn value_as_bool(v: &serde_json::Value) -> Option<bool> {
    v.as_bool()
}

/// Relies on `serde_json::Value::as_number` and `serde_json::Number`'s
/// `Display`: the decimal text of a JSON number, `None` for any other kind
/// of value.
#[verifier::external_body]
pub(crate) fn value_number_text(v: &serde_json::Value) -> Option<String> {
    v.as_number().map(|n| n.to_string())
}

/// Relies on `serde_json::Value::is_null`.
#[verifier::external_body]
pub(crate) fn value_is_null(v: &serde_json::Value) -> bool {
    v.is_null()
}

/// Looks `key` up in `v` and reads it as a string.
pub(crate) fn get_string(v: &serde_json::Value, key: &str) -> Option<String> {
    match value_get(v, key) {
        Some(x) => value_as_string(x),
        None => None,
    }
}

/// Looks `key` up in `v` and reads it as a boolean.
pub(crate) fn get_bool(v: &serde_json::Value, key: &str) -> Option<bool> {
    match value_get(v, key) {
        Some(x) => value_as_bool(x),
        None => None,
    }
}

/// Looks `key` up in `v` and reads it as the decimal text of a number.
pub(crate) fn get_number_text(v: &serde_json::Value, key: &str) -> Option<String> {
    match value_get(v, key) {
        Some(x) => value_number_text(x),
        None => None,
    }
}

/// An optional string field: absent or null gives `Ok(None)`, a string
/// gives its content, any other kind of value is a shape mismatch.
pub(crate) fn field_opt_string(v: &serde_json::Value, key: &str) -> Result<Option<String>, ()> {
    match value_get(v, key) {
        None => Ok(None),
        Some(x) => {
            if value_is_null(x) {
                Ok(None)
            } else {
                match value_as_string(x) {
                    Some(s) => Ok(Some(s)),
                    None => Err(()),
                }
            }
        },
    }
}

/// A required string field: absent, null or non-string is a shape mismatch.
pub(crate) fn field_string(v: &serde_json::Value, key: &str) -> Result<String, ()> {
    match value_get(v, key) {
        None => Err(()),
        Some(x) => match value_as_string(x) {
            Some(s) => Ok(s),
            None => Err(()),
        },
    }
}

/// A required 32-bit integer field.
pub(crate) fn field_i32(v: &serde_json::Value, key: &str) -> Result<i32, ()> {
    match value_get(v, key) {
        None => Err(()),
        Some(x) => match value_as_i64(x) {
            Some(n) => {
                if i32::MIN as i64 <= n && n <= i32::MAX as i64 {
                    Ok(n as i32)
                } else {
                    Err(())
                }
            },
            None => Err(()),
        },
    }
}

/// An optional 32-bit integer field: absent or null gives `Ok(None)`.
pub(crate) fn field_opt_i32(v: &serde_json::Value, key: &str) -> Result<Option<i32>, ()> {
    match value_get(v, key) {
        None => Ok(None),
        Some(x) => {
            if value_is_null(x) {
                Ok(None)
            } else {
                match value_as_i64(x) {
                    Some(n) => {
                        if i32::MIN as i64 <= n && n <= i32::MAX as i64 {
                            Ok(Some(n as i32))
                        } else {
                            Err(())
                        }
                    },
                    None => Err(()),
                }
            }
        },
    }
}

/// An optional boolean field: absent or null gives `Ok(None)`.
pub(crate) fn field_opt_bool(v: &serde_json::Value, key: &str) -> Result<Option<bool>, ()> {
    match value_get(v, key) {
        None => Ok(None),
        Some(x) => {
            if value_is_null(x) {
                Ok(None)
            } else {
                match value_as_bool(x) {
                    Some(b) => Ok(Some(b)),
                    None => Err(()),
                }
            }
        },
    }
}

} // verus!
