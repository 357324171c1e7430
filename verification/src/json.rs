//! Trusted boundary to the JSON parser and the base64 decoder of the outside
//! crates.  Each wrapper makes one outside call; verified code does all the
//! walking and checking of what comes back.

use vstd::prelude::*;

verus! {

#[verifier::external_type_specification]
#[verifier::external_body]
pub struct ExJsonValue(serde_json::Value);

#[verifier::external_type_specification]
#[verifier::external_body]
pub struct ExJsonError(serde_json::Error);

/// Whether `serde_json::from_str::<serde_json::Value>` accepts the text:
/// the parse succeeds or fails as a function of the text alone.  What a
/// parsed document holds stays behind the opaque value.
pub uninterp spec fn spec_json_parses(s: Seq<char>) -> bool;

/// Relies on `serde_json::from_str::<serde_json::Value>`: parses one JSON
/// document from a string, succeeding exactly on the texts the parser
/// accepts.  What the document means is read off the returned value by
/// verified code.
#[verifier::external_body]
pub(crate) fn json_from_str(s: &str) -> (r: Result<serde_json::Value, serde_json::Error>)
    ensures
        r is Ok <==> spec_json_parses(s@),
{
    serde_json::from_str(s)
}

/// Whether `serde_json::from_slice::<serde_json::Value>` accepts the bytes:
/// the parse succeeds or fails as a function of the bytes alone.
pub uninterp spec fn spec_json_bytes_parse(b: Seq<u8>) -> bool;

/// Relies on `serde_json::from_slice::<serde_json::Value>`: parses one JSON
/// document from bytes, succeeding exactly on the byte strings the parser
/// accepts.
#[verifier::external_body]
pub(crate) fn json_from_slice(b: &[u8]) -> (r: Result<serde_json::Value, serde_json::Error>)
    ensures
        r is Ok <==> spec_json_bytes_parse(b@),
{
    serde_json::from_slice(b)
}

/// Relies on `serde_json::Value::is_object`.
#[verifier::external_body]
pub(crate) fn json_is_object(v: &serde_json::Value) -> bool {
    v.is_object()
}

/// Relies on `serde_json::Value::get`: looks a field up on a JSON object;
/// `None` on a missing field or on a non-object.
#[verifier::external_body]
pub(crate) fn json_get<'a>(v: &'a serde_json::Value, key: &str) -> Option<&'a serde_json::Value> {
    v.get(key)
}

/// Relies on `serde_json::Value::is_null`.
#[verifier::external_body]
pub(crate) fn json_is_null(v: &serde_json::Value) -> bool {
    v.is_null()
}

/// Relies on `serde_json::Value::as_str`: `Some` exactly for a JSON string.
#[verifier::external_body]
pub(crate) fn json_as_string(v: &serde_json::Value) -> Option<String> {
    match v.as_str() {
        Some(s) => Some(s.to_owned()),
        None => None,
    }
}

/// Relies on `serde_json::Value::as_array`: `Some` exactly for a JSON array.
#[verifier::external_body]
pub(crate) fn json_as_array<'a>(v: &'a serde_json::Value) -> Option<&'a Vec<serde_json::Value>> {
    v.as_array()
}

/// Relies on `serde_json::Value::as_u64`: `Some` exactly for a non-negative
/// integer that fits in a `u64`.
#[verifier::external_body]
pub(crate) fn json_as_u64(v: &serde_json::Value) -> Option<u64> {
    v.as_u64()
}

/// What `base64::decode` yields on a given input: `None` where the input is
/// not valid base64, otherwise the decoded bytes.  The result is a function
/// of the input characters alone.
pub uninterp spec fn spec_base64_decoding(s: Seq<char>) -> Option<Seq<u8>>;

/// Relies on `base64::decode`: decodes standard base64; the result depends
/// on the input characters alone.
#[verifier::external_body]
pub(crate) fn b64_decode(s: &str) -> (r: Option<Vec<u8>>)
    ensures
        r is Some <==> spec_base64_decoding(s@) is Some,
        r matches Some(v) ==> v@ == spec_base64_decoding(s@).unwrap(),
{
    match base64::decode(s.as_bytes()) {
        Ok(v) => Some(v),
        Err(_) => None,
    }
}

} // verus!
