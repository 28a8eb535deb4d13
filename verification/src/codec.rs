//! The wire codec boundary: request and response payloads cross the module
//! boundary in a compact binary self-describing format. The codec is a
//! collaborator, relied on rather than verified; each direction is a fixed
//! function of its input alone, named below so contracts can speak of it.

use vstd::prelude::*;

verus! {

/// The JSON text that decoding a wire-format payload yields: a function of
/// the bytes alone.
pub uninterp spec fn msgpack_json_text(bytes: Seq<u8>) -> Seq<char>;

/// The wire-format bytes that encoding a JSON text yields: a function of
/// the text alone.
pub uninterp spec fn json_msgpack_bytes(text: Seq<char>) -> Seq<u8>;

/// The texts the wire codec accepts: the success domain of
/// [`json_to_msgpack`]. Both of that wrapper's steps are deterministic, so
/// whether encoding succeeds is decided by the text alone.
pub uninterp spec fn msgpack_encodable(text: Seq<char>) -> bool;

/// Relies on `rmp_serde::from_slice` and `serde_json::to_string`: decodes a
/// wire-format payload and renders it as JSON text. Both steps are
/// deterministic, so the text is a function of the bytes alone; nothing is
/// returned when the payload does not decode to JSON-representable data.
#[verifier::external_body]
pub fn msgpack_to_json(bytes: &[u8]) -> (r: Option<String>)
    ensures
        r matches Some(s) ==> s@ == msgpack_json_text(bytes@),
{
    let value: rmpv::Value = match rmp_serde::from_slice(bytes) {
        Ok(v) => v,
        Err(_) => return None,
    };
    serde_json::to_string(&value).ok()
}

/// Relies on `serde_json::from_str` and `rmp_serde::encode::to_vec`: parses
/// JSON text and encodes the parsed value into the wire format. Both steps
/// are deterministic, so the bytes are a function of the text alone; nothing
/// is returned when the text is not valid JSON.
#[verifier::external_body]
pub fn json_to_msgpack(json: &str) -> (r: Option<Vec<u8>>)
    ensures
        r is Some <==> msgpack_encodable(json@),
        r matches Some(b) ==> b@ == json_msgpack_bytes(json@),
{
    let value: serde_json::Value = match serde_json::from_str(json) {
        Ok(v) => v,
        Err(_) => return None,
    };
    rmp_serde::encode::to_vec(&value).ok()
}

} // verus!
