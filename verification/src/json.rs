//! The crate's model of generic structured data, and the trusted generic
//! parse behind it.
//!
//! Payloads that miss the canonical schema are handed to a generic structured
//! parse (an outside JSON parser) before the loose tier looks at them.  The
//! parse result is mirrored into [`JsonValue`], a type of this crate that the
//! verified loose mapping can read.

use vstd::prelude::*;

verus! {

/// Structured data as this crate models it.  A number that fits `i64` is
/// carried as `Int`; any other number is carried as `OtherNumber`, which the
/// loose mapping never reads.  Object members stand in the order the generic
/// parse hands them out, one entry per member name.
#[derive(Debug)]
pub enum JsonValue {
    Null,
    Bool(bool),
    Int(i64),
    OtherNumber,
    Str(String),
    Arr(Vec<JsonValue>),
    Obj(Vec<(String, JsonValue)>),
}

/// What the generic structured parse returns on given bytes: `None` where
/// the bytes are not well-formed structured data, else the parsed document.
/// The result is a function of the bytes alone.
pub uninterp spec fn generic_json_of(bytes: Seq<u8>) -> Option<JsonValue>;

/// Relies on `serde_json::from_slice::<serde_json::Value>`: whether bytes
/// parse as structured data, and what document they parse to, depend on the
/// bytes alone.
#[verifier::external_body]
pub(crate) fn parse_generic(payload: &Vec<u8>) -> (r: Option<JsonValue>)
    ensures
        r == generic_json_of(payload@),
{
    match serde_json::from_slice::<serde_json::Value>(payload.as_slice()) {
        Ok(v) => Some(value_to_model(v)),
        Err(_) => None,
    }
}

#[verifier::external_type_specification]
#[verifier::external_body]
pub struct ExSerdeJsonValue(serde_json::Value);

/// Relies on the variants of `serde_json::Value`: each is carried over to
/// the corresponding [`JsonValue`] variant, fields moved as they stand.
#[verifier::external_body]
fn value_to_model(v: serde_json::Value) -> JsonValue {
    match v {
        serde_json::Value::Null => JsonValue::Null,
        serde_json::Value::Bool(b) => JsonValue::Bool(b),
        serde_json::Value::Number(n) => match n.as_i64() {
            Some(i) => JsonValue::Int(i),
            None => JsonValue::OtherNumber,
        },
        serde_json::Value::String(s) => JsonValue::Str(s),
        serde_json::Value::Array(a) => JsonValue::Arr(
            a.into_iter().map(value_to_model).collect(),
        ),
        serde_json::Value::Object(m) => JsonValue::Obj(
            m.into_iter().map(|(k, member)| (k, value_to_model(member))).collect(),
        ),
    }
}

} // verus!
