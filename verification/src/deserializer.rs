//! The envelope decoder: skip the magic byte, validate UTF-8, parse JSON,
//! and strip an adjacent type wrapper if one is present.

use vstd::prelude::*;
use vstd::string::StringSliceAdditionalSpecFns;

use crate::json::{unwrap_adjacent, SpecJson};
use crate::jsonio::json_parse;
use crate::mapper::HybridObjectMapper;

verus! {

/// The UTF-8 error type of the standard library, declared so that it can be
/// carried in results.
#[verifier::external_type_specification]
#[verifier::external_body]
pub struct ExUtf8Error(core::str::Utf8Error);

/// Relies on std::str::from_utf8: succeeds exactly on valid UTF-8 input and
/// returns the string slice of those bytes.
#[verifier::external_body]
fn bytes_to_str(bytes: &[u8]) -> (r: Result<&str, core::str::Utf8Error>)
    ensures
        r matches Ok(s) ==> vstd::utf8::valid_utf8(bytes@) && s.spec_bytes() == bytes@,
        r is Err ==> !vstd::utf8::valid_utf8(bytes@),
{
    core::str::from_utf8(bytes)
}

/// What decoding an envelope yields: `None` where any step fails, else the
/// parsed tree with an adjacent type wrapper stripped.
pub open spec fn decoded_envelope(b: Seq<u8>) -> Option<SpecJson> {
    if b.len() < 1 {
        None
    } else {
        let body = b.subrange(1, b.len() as int);
        if !vstd::utf8::valid_utf8(body) {
            None
        } else {
            match json_parse(vstd::utf8::decode_utf8(body)) {
                Some(u) => Some(unwrap_adjacent(u)),
                None => None,
            }
        }
    }
}

/// Errors raised while decoding an envelope.
#[derive(Debug)]
pub enum SerializationError {
    /// The incoming payload is too short to skip the header byte.
    PayloadTooShort,
    /// The payload after the header byte is not valid UTF-8.
    InvalidUtf8(core::str::Utf8Error),
    /// The payload text is not well-formed JSON.
    Json(serde_json::Error),
}

/// Stateless decoder; parses the JSON body after skipping the first byte of
/// the payload, through a `HybridObjectMapper`.
pub struct KafkaDeserializer {
    mapper: HybridObjectMapper,
}

impl KafkaDeserializer {
    /// A decoder over a default-configured mapper.
    pub fn new() -> (r: Self) {
        KafkaDeserializer { mapper: HybridObjectMapper::new() }
    }

    /// A decoder over a preconfigured mapper.
    pub fn with_mapper(mapper: HybridObjectMapper) -> (r: Self) {
        KafkaDeserializer { mapper }
    }

    /// Decode payload bytes into a JSON tree. The first byte is skipped
    /// without being checked; the rest must be UTF-8 JSON. An adjacent type
    /// wrapper at the top level is stripped. Fails with `PayloadTooShort`
    /// exactly on an empty buffer, `InvalidUtf8` exactly where the body is
    /// not UTF-8, and `Json` exactly where the text is not well-formed JSON.
    ///
    /// The `topic` parameter is accepted for interface symmetry and does not
    /// influence the result.
    pub fn deserialize(&self, _topic: &str, bytes: &[u8]) -> (r: Result<
        crate::json::JsonTree,
        SerializationError,
    >)
        ensures
            (r is Ok) == (decoded_envelope(bytes@) is Some),
            r matches Ok(t) ==> decoded_envelope(bytes@) == Some(t@),
            r matches Err(e) ==> match e {
                SerializationError::PayloadTooShort => bytes@.len() == 0,
                SerializationError::InvalidUtf8(_) => bytes@.len() >= 1
                    && !vstd::utf8::valid_utf8(bytes@.subrange(1, bytes@.len() as int)),
                SerializationError::Json(_) => bytes@.len() >= 1 && vstd::utf8::valid_utf8(
                    bytes@.subrange(1, bytes@.len() as int),
                ) && json_parse(
                    vstd::utf8::decode_utf8(bytes@.subrange(1, bytes@.len() as int)),
                ) is None,
            },
    {
        if bytes.len() < 1 {
            return Err(SerializationError::PayloadTooShort);
        }
        let payload = &bytes[1..bytes.len()];
        let s = match bytes_to_str(payload) {
            Ok(s) => s,
            Err(e) => {
                return Err(SerializationError::InvalidUtf8(e));
            },
        };
        proof {
            vstd::utf8::encode_utf8_decode_utf8(s@);
        }
        match self.mapper.deserialize_with_type(s) {
            Ok(t) => Ok(t),
            Err(e) => Err(SerializationError::Json(e)),
        }
    }
}

} // verus!
