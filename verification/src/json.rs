//! Trusted boundary to the outside JSON services: parsing a text into a
//! `serde_json::Value`, reading that value's shape, and compiling and
//! applying a JSON Schema through the `jsonschema` crate.
//!
//! A `Value` and a compiled `Validator` are opaque here: nothing is claimed
//! about what is inside one, and every decision the runner takes on them is
//! made by verified code on what these calls hand back.

use vstd::prelude::*;

verus! {

#[verifier::external_type_specification]
#[verifier::external_body]
pub struct ExValue(serde_json::Value);

/// A compiled schema, reused read-only across every entry of one suite.
/// Holds the outside crate's validator; opaque to the verifier.
#[verifier::external_body]
pub struct CompiledSchema {
    inner: jsonschema::Validator,
}

/// Whether `serde_json`'s parser accepts a text. Acceptance is a function of
/// the text alone, so the name stands for that fixed yes/no verdict.
pub uninterp spec fn parses_as_json(text: Seq<char>) -> bool;

/// Relies on serde_json::from_str: parses a text into a JSON value, `Ok`
/// exactly on the texts its grammar accepts, `Err` carrying its diagnostic.
#[verifier::external_body]
pub(crate) fn parse_json(text: &str) -> (r: Result<serde_json::Value, String>)
    ensures
        r is Ok <==> parses_as_json(text@),
{
    serde_json::from_str(text).map_err(|e| e.to_string())
}

/// Relies on jsonschema::validator_for: compiles a schema document into a
/// reusable validator, `Err` carrying its diagnostic when the schema is
/// rejected. Its documentation warns that it may panic when called inside an
/// async runtime while it fetches a remote reference; this library is fully
/// synchronous, so that path is never reached. Compilation may resolve
/// external references from disk or network, so its outcome is not a
/// function of the document alone and gets no name.
#[verifier::external_body]
pub(crate) fn compile_validator(schema: &serde_json::Value) -> (r: Result<CompiledSchema, String>) {
    match jsonschema::validator_for(schema) {
        Ok(v) => Ok(CompiledSchema { inner: v }),
        Err(e) => Err(e.to_string()),
    }
}

/// Relies on jsonschema::Validator::validate: whether the compiled schema
/// accepts the instance.
#[verifier::external_body]
pub(crate) fn validate_ok(validator: &CompiledSchema, instance: &serde_json::Value) -> (r: bool) {
    validator.inner.validate(instance).is_ok()
}

/// Relies on serde_json::Value::get: the member of an object under a key, if
/// the value is an object and has one.
#[verifier::external_body]
pub(crate) fn json_get<'a>(value: &'a serde_json::Value, key: &str) -> (r: Option<
    &'a serde_json::Value,
>) {
    value.get(key)
}

/// Relies on serde_json::Value::as_array: the elements, if the value is an
/// array.
#[verifier::external_body]
pub(crate) fn json_as_array<'a>(value: &'a serde_json::Value) -> (r: Option<
    &'a Vec<serde_json::Value>,
>) {
    value.as_array()
}

/// Relies on serde_json::Value::as_str: the text, if the value is a string.
#[verifier::external_body]
pub(crate) fn json_as_str<'a>(value: &'a serde_json::Value) -> (r: Option<&'a str>) {
    value.as_str()
}

} // verus!
