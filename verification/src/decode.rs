//! Trusted declarations for the external structured-data decoders. Only
//! the calls into the decoding crates live here; everything around them
//! is verified against the contracts below.

use vstd::prelude::*;

verus! {

#[verifier::external_type_specification]
#[verifier::external_body]
pub struct ExYamlValue(serde_yaml::Value);

#[verifier::external_type_specification]
#[verifier::external_body]
pub struct ExJsonValue(serde_json::Value);

/// Whether YAML deserialization of these bytes into a generic value
/// succeeds. Decoding is a function of the bytes alone.
pub uninterp spec fn is_yaml(bytes: Seq<u8>) -> bool;

/// Whether JSON deserialization of this text into a generic value
/// succeeds. Decoding is a function of the text alone.
pub uninterp spec fn is_json(text: Seq<char>) -> bool;

/// Relies on serde_yaml::from_slice deserializing a generic
/// serde_yaml::Value: it returns Ok exactly when the bytes are a
/// well-formed YAML document, and that depends on the bytes alone.
#[verifier::external_body]
pub(crate) fn yaml_from_slice(bytes: &[u8]) -> (r: Result<serde_yaml::Value, String>)
    ensures
        r is Ok <==> is_yaml(bytes@),
{
    serde_yaml::from_slice(bytes).map_err(|e| e.to_string())
}

/// Relies on serde_json::from_str deserializing a generic
/// serde_json::Value: it returns Ok exactly when the text is a
/// well-formed JSON document, and that depends on the text alone.
#[verifier::external_body]
pub(crate) fn json_from_str(text: &str) -> (r: Result<serde_json::Value, String>)
    ensures
        r is Ok <==> is_json(text@),
{
    serde_json::from_str(text).map_err(|e| e.to_string())
}

} // verus!
