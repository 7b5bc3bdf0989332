//! The structured-metadata value and its canonical text, supplied by the
//! `serde_json` collaborator and taken on trust here.

use vstd::prelude::*;
use serde_json::Value;

verus! {

#[verifier::external_type_specification]
#[verifier::external_body]
pub struct ExValue(serde_json::Value);

#[verifier::external_type_specification]
#[verifier::external_body]
pub struct ExJsonError(serde_json::Error);

/// The canonical compact text of a structured value, a function of the
/// value alone.
pub uninterp spec fn json_text_of(v: Value) -> Seq<char>;

/// The structured value that a text parses to, or `None` where the text
/// is not valid structured-value text; a function of the text alone.
pub uninterp spec fn json_value_of(s: Seq<char>) -> Option<Value>;

/// Serializes a structured value to its canonical compact text.
///
/// Relies on `serde_json`: `Value::to_string` prints the value's compact
/// text, determined by the value alone, and whenever `from_str` accepts
/// that text it parses back to an equal value. Acceptance is not owed:
/// the parser enforces a recursion depth limit that the printer does
/// not, so the text of a deeply nested value can be rejected.
#[verifier::external_body]
pub fn to_text(v: &Value) -> (r: String)
    ensures
        r@ == json_text_of(*v),
        json_value_of(r@) matches Some(w) ==> w == *v,
{
    v.to_string()
}

/// Parses a text as a structured value.
///
/// Relies on `serde_json::from_str::<Value>`: whether a text parses, and
/// to which value, is determined by the text alone.
#[verifier::external_body]
pub fn parse(s: &str) -> (r: Result<Value, serde_json::Error>)
    ensures
        match r {
            Ok(v) => json_value_of(s@) == Some(v),
            Err(_) => json_value_of(s@) is None,
        },
{
    serde_json::from_str(s)
}

/// The null structured value.
///
/// Relies on `serde_json`: `Value::Null` is the value that the text
/// `null` parses to, and that prints as that text.
#[verifier::external_body]
pub fn null_value() -> (r: Value)
    ensures
        json_value_of("null"@) == Some(r),
        json_text_of(r) == "null"@,
{
    Value::Null
}

} // verus!
