//! Trusted boundary to the JSON library.
//!
//! Caller-supplied metadata values are arbitrary JSON values; this crate
//! carries them through opaquely and never looks inside them. The two
//! conversions below build the JSON values for the raster's dimensions and
//! projection string; their results are named, not described, since the JSON
//! value representation is the JSON library's own.

use vstd::prelude::*;

verus! {

#[verifier::external_type_specification]
#[verifier::external_body]
pub struct ExValue(serde_json::Value);

/// The JSON number value that the JSON library builds for `n`.
pub uninterp spec fn json_of_usize(n: usize) -> serde_json::Value;

/// The JSON string value that the JSON library builds for the string `s`.
pub uninterp spec fn json_of_str(s: Seq<char>) -> serde_json::Value;

/// Relies on serde_json's `From<usize> for Value`: wraps `n` as a JSON
/// number; the result depends on `n` alone.
#[verifier::external_body]
pub(crate) fn value_from_usize(n: usize) -> (v: serde_json::Value)
    ensures
        v == json_of_usize(n),
{
    serde_json::Value::from(n)
}

/// Relies on serde_json's `From<String> for Value`: wraps `s` as a JSON
/// string; the result depends on the characters of `s` alone.
#[verifier::external_body]
pub(crate) fn value_from_string(s: String) -> (v: serde_json::Value)
    ensures
        v == json_of_str(s@),
{
    serde_json::Value::from(s)
}

} // verus!
