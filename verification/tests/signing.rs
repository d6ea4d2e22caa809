use k256::ecdsa::signature::Verifier;
use k256::ecdsa::{RecoveryId, Signature, SigningKey, VerifyingKey};
use sha3::{Digest, Keccak256};
use tinycloud_session::error::ErrorKind;
use tinycloud_session::signing::{ethereum_prefixed_message, sign_ethereum_message, sign_secp256k1};

// The key 0x4c0883a69102937d6231471b5dbb6204fe5129617082792ae468d01a3f362318.
const KEY_BASE64: &str = "TAiDppECk31iMUcbXbtiBP5RKWFwgnkq5GjQGj82Ixg=";

fn signing_key() -> SigningKey {
    let bytes = hex::decode("4c0883a69102937d6231471b5dbb6204fe5129617082792ae468d01a3f362318").unwrap();
    SigningKey::from_slice(&bytes).unwrap()
}

#[test]
fn prefixed_message_has_marker_length_and_text() {
    assert_eq!(ethereum_prefixed_message("Some data"), b"\x19Ethereum Signed Message:\n9Some data".to_vec());
    assert_eq!(ethereum_prefixed_message(""), b"\x19Ethereum Signed Message:\n0".to_vec());
    let long = "x".repeat(1234);
    let mut expected = b"\x19Ethereum Signed Message:\n1234".to_vec();
    expected.extend_from_slice(long.as_bytes());
    assert_eq!(ethereum_prefixed_message(&long), expected);
    // the length counts bytes, not characters
    assert_eq!(ethereum_prefixed_message("é"), "\x19Ethereum Signed Message:\n2é".as_bytes().to_vec());
}

#[test]
fn ethereum_signature_of_a_known_message() {
    let signature = sign_ethereum_message("Some data", KEY_BASE64).unwrap();
    assert_eq!(
        signature,
        "b91467e570a6466aa9e9876cbcd013baba02900b8979d43fe208a4a4f339f5fd\
         6007e74cd82e037b800186422fc2da167c747ef045e5d18a5f5d4300f8e1a029\
         1c"
    );
}

#[test]
fn ethereum_signature_recovers_the_signer() {
    let message = "Sign-in request #42";
    let text = sign_ethereum_message(message, KEY_BASE64).unwrap();
    assert_eq!(text.len(), 130);
    let bytes = hex::decode(&text).unwrap();
    assert_eq!(bytes.len(), 65);
    let v = bytes[64];
    assert!(v == 27 || v == 28);
    let signature = Signature::from_slice(&bytes[..64]).unwrap();
    let id = RecoveryId::from_byte(v - 27).unwrap();
    let prefixed = format!("\x19Ethereum Signed Message:\n{}{}", message.len(), message);
    let hash = Keccak256::digest(prefixed.as_bytes());
    let recovered = VerifyingKey::recover_from_prehash(&hash, &signature, id).unwrap();
    assert_eq!(recovered, *signing_key().verifying_key());
}

#[test]
fn plain_signature_is_64_bytes_and_verifies() {
    let message = b"hello world";
    let bytes = sign_secp256k1(message, KEY_BASE64).unwrap();
    assert_eq!(bytes.len(), 64);
    let signature = Signature::from_slice(&bytes).unwrap();
    assert!(signing_key().verifying_key().verify(message, &signature).is_ok());
    assert_eq!(sign_secp256k1(message, KEY_BASE64).unwrap(), bytes);
    assert_ne!(sign_secp256k1(b"hello world!", KEY_BASE64).unwrap(), bytes);
}

#[test]
fn key_that_is_no_base64_is_refused() {
    let err = sign_secp256k1(b"m", "not base64!").unwrap_err();
    assert_eq!(err.kind, ErrorKind::Signing);
    assert!(err.detail.starts_with("Invalid base64 encoding for private key: "));
    let err = sign_ethereum_message("m", "not base64!").unwrap_err();
    assert_eq!(err.kind, ErrorKind::Signing);
    assert!(err.detail.starts_with("Invalid base64 encoding for private key: "));
}

#[test]
fn key_of_the_wrong_length_or_value_is_refused() {
    // three bytes
    let err = sign_secp256k1(b"m", "AAEC").unwrap_err();
    assert_eq!(err.kind, ErrorKind::Signing);
    assert!(err.detail.starts_with("Invalid secp256k1 private key: "));
    // thirty-two zero bytes: zero is no key
    let err = sign_ethereum_message("m", "AAAAAAAAAAAAAAAAAAAAAAAAAAAAAAAAAAAAAAAAAAA=").unwrap_err();
    assert_eq!(err.kind, ErrorKind::Signing);
    assert!(err.detail.starts_with("Invalid secp256k1 private key: "));
}
