//! The boundary to `serde_json`: the declarations that let a parsed JSON
//! value and a decode error pass through the library, and the one call
//! that parses response bytes.

use vstd::prelude::*;

verus! {

/// `serde_json::Value`, declared so that a parsed response can be carried
/// through the library. The library never looks inside such a value.
#[verifier::external_type_specification]
#[verifier::external_body]
pub struct ExValue(serde_json::Value);

/// `serde_json::Error`, declared so that a decode failure can carry its
/// underlying cause (see [`crate::errors::Failure::Decode`]).
#[verifier::external_type_specification]
#[verifier::external_body]
pub struct ExJsonError(serde_json::Error);

/// The JSON document denoted by `bytes`: `Some` of the parsed value
/// exactly when `bytes` is a well-formed JSON text in UTF-8.
pub uninterp spec fn json_parsed(bytes: Seq<u8>) -> Option<serde_json::Value>;

/// Relies on `serde_json::from_slice`: whether the bytes parse, and to
/// what value, depends on the bytes alone.
#[verifier::external_body]
pub(crate) fn parse_json(bytes: &[u8]) -> (r: Result<serde_json::Value, serde_json::Error>)
    ensures
        r is Ok <==> json_parsed(bytes@) is Some,
        r is Ok ==> r->Ok_0 == json_parsed(bytes@)->Some_0,
{
    serde_json::from_slice(bytes)
}

} // verus!
