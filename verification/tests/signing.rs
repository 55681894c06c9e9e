use hmac::Mac;
use monky_utilities::signature::{get_hmac, get_sha1, get_signature};

fn compute_expected_hmac_sha256(key: &[u8], content: &[u8]) -> String {
    let mut mac = hmac::Hmac::<sha2::Sha256>::new_from_slice(key).expect("Invalid key");
    mac.update(content);
    hex::encode(mac.finalize().into_bytes())
}

fn compute_expected_hmac_sha1(key: &[u8], content: &[u8]) -> String {
    let mut mac = hmac::Hmac::<sha1::Sha1>::new_from_slice(key).expect("Invalid key");
    mac.update(content);
    hex::encode(mac.finalize().into_bytes())
}

#[test]
fn test_get_signature_valid() {
    let key = "secretkey";
    let content = "Hello, world!";
    let expected = compute_expected_hmac_sha256(key.as_bytes(), content.as_bytes());
    let signature = get_signature(key, content).expect("Failed to get signature");
    assert_eq!(signature, expected);
}

#[test]
fn test_get_signature_invalid_key() {
    let key = "";
    let content = "data";
    let result = get_signature(key, content);
    assert!(result.is_ok());
    assert!(!result.unwrap().is_empty());
}

#[test]
fn test_get_sha1() {
    let content = "hello";
    let sha1_hash = get_sha1(content);
    let expected = "aaf4c61ddcc5e8a2dabede0f3b482cd9aea9434d";
    assert_eq!(sha1_hash, expected);
}

#[test]
fn test_get_hmac_valid() {
    let key = "mykey";
    let content = "some content";
    let expected = compute_expected_hmac_sha1(key.as_bytes(), content.as_bytes());
    let hmac = get_hmac(key, content).expect("Failed to get HMAC");
    assert_eq!(hmac, expected);
}

#[test]
fn test_get_hmac_invalid_key() {
    let key = "";
    let content = "sample";
    let result = get_hmac(key, content);
    assert!(result.is_ok());
    assert!(!result.unwrap().is_empty());
}
