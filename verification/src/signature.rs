//! Content signing helpers: HMAC signatures and SHA-1 digests, rendered as
//! lowercase hexadecimal.

use vstd::prelude::*;
use vstd::string::StringSliceAdditionalSpecFns;
use hmac::Mac;
use sha1::Digest;

verus! {

/// Constant header name used for passing a content signature in requests
/// or responses.
pub const CONTENT_SIGNATURE_HEADER: &'static str = "X-Monky-Content-Signature";

/// Errors that can occur during HMAC operations.
#[derive(Debug)]
pub enum HmacError {
    /// The provided key was rejected by the HMAC implementation.
    InvalidKey,
}

/// The HMAC-SHA256 tag of a message under a key.
pub uninterp spec fn hmac_sha256(key: Seq<u8>, msg: Seq<u8>) -> Seq<u8>;

/// The HMAC-SHA1 tag of a message under a key.
pub uninterp spec fn hmac_sha1(key: Seq<u8>, msg: Seq<u8>) -> Seq<u8>;

/// The SHA-1 digest of a message.
pub uninterp spec fn sha1_digest(msg: Seq<u8>) -> Seq<u8>;

/// The lowercase hexadecimal digit for a value below sixteen.
pub open spec fn hex_digit(v: u8) -> char {
    if v < 10 {
        (v + 48) as char
    } else {
        (v + 87) as char
    }
}

/// The lowercase hexadecimal rendering of a byte sequence: two digits per
/// byte, high nibble first.
pub open spec fn hex_of(b: Seq<u8>) -> Seq<char>
    decreases b.len(),
{
    if b.len() == 0 {
        Seq::empty()
    } else {
        seq![hex_digit(b[0] / 16), hex_digit(b[0] % 16)] + hex_of(b.subrange(1, b.len() as int))
    }
}

/// Hexadecimal rendering yields two characters per byte.
pub proof fn lemma_hex_of_len(b: Seq<u8>)
    ensures
        hex_of(b).len() == 2 * b.len(),
    decreases b.len(),
{
    if b.len() > 0 {
        lemma_hex_of_len(b.subrange(1, b.len() as int));
    }
}

/// Relies on hex::encode: renders bytes as lowercase hexadecimal, two
/// digits per byte, high nibble first.
#[verifier::external_body]
fn hex_encode(bytes: &[u8]) -> (r: String)
    ensures
        r@ == hex_of(bytes@),
{
    hex::encode(bytes)
}

/// Relies on hmac with sha2's SHA-256: computes the 32-byte HMAC-SHA256 tag
/// of the content under the key. Every key length is accepted.
#[verifier::external_body]
pub fn get_hmac_sha256_bytes(key: &[u8], content: &[u8]) -> (r: Result<Vec<u8>, HmacError>)
    ensures
        r is Ok,
        r matches Ok(b) ==> b@ == hmac_sha256(key@, content@) && b@.len() == 32,
{
    let mut mac = hmac::Hmac::<sha2::Sha256>::new_from_slice(key)
        .map_err(|_| HmacError::InvalidKey)?;
    mac.update(content);
    Ok(mac.finalize().into_bytes().to_vec())
}

/// Relies on hmac with sha1: computes the 20-byte HMAC-SHA1 tag of the
/// content under the key. Every key length is accepted.
#[verifier::external_body]
pub fn get_hmac_sha1_bytes(key: &[u8], content: &[u8]) -> (r: Result<Vec<u8>, HmacError>)
    ensures
        r is Ok,
        r matches Ok(b) ==> b@ == hmac_sha1(key@, content@) && b@.len() == 20,
{
    let mut mac = hmac::Hmac::<sha1::Sha1>::new_from_slice(key)
        .map_err(|_| HmacError::InvalidKey)?;
    mac.update(content);
    Ok(mac.finalize().into_bytes().to_vec())
}

/// Relies on sha1: computes the 20-byte SHA-1 digest of the data.
#[verifier::external_body]
pub(crate) fn sha1_bytes(data: &[u8]) -> (r: Vec<u8>)
    ensures
        r@ == sha1_digest(data@),
        r@.len() == 20,
{
    sha1::Sha1::digest(data).to_vec()
}

/// The HMAC-SHA256 signature of `content` under `key`, as lowercase
/// hexadecimal.
pub fn get_signature(key: &str, content: &str) -> (r: Result<String, HmacError>)
    ensures
        r matches Ok(s) && s@ == hex_of(
            hmac_sha256(vstd::utf8::encode_utf8(key@), vstd::utf8::encode_utf8(content@)),
        ) && s@.len() == 64,
{
    match get_hmac_sha256_bytes(key.as_bytes(), content.as_bytes()) {
        Ok(bytes) => {
            proof {
                lemma_hex_of_len(bytes@);
            }
            Ok(hex_encode(bytes.as_slice()))
        },
        Err(e) => Err(e),
    }
}

/// The SHA-1 digest of `content`, as lowercase hexadecimal.
pub fn get_sha1(content: &str) -> (r: String)
    ensures
        r@ == hex_of(sha1_digest(vstd::utf8::encode_utf8(content@))),
        r@.len() == 40,
{
    let digest = sha1_bytes(content.as_bytes());
    proof {
        lemma_hex_of_len(digest@);
    }
    hex_encode(digest.as_slice())
}

/// The HMAC-SHA1 signature of `content` under `key`, as lowercase
/// hexadecimal.
pub fn get_hmac(key: &str, content: &str) -> (r: Result<String, HmacError>)
    ensures
        r matches Ok(s) && s@ == hex_of(
            hmac_sha1(vstd::utf8::encode_utf8(key@), vstd::utf8::encode_utf8(content@)),
        ) && s@.len() == 40,
{
    match get_hmac_sha1_bytes(key.as_bytes(), content.as_bytes()) {
        Ok(bytes) => {
            proof {
                lemma_hex_of_len(bytes@);
            }
            Ok(hex_encode(bytes.as_slice()))
        },
        Err(e) => Err(e),
    }
}

} // verus!
