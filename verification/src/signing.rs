//! Signing with a secp256k1 key that is not held in the key store: plain
//! ECDSA signatures, and signatures of Ethereum's prefixed messages.
use crate::encoding::{base64_decoded, decode_base64, encode_hex, hex_encoded};
use crate::error::{ErrorKind, Failure, SessionError};
use crate::text::{decimal_digits, join2, push_bytes, push_decimal};
use k256::ecdsa::signature::Signer;
use k256::ecdsa::{Signature, SigningKey};
use sha3::{Digest, Keccak256};
use vstd::prelude::*;
use vstd::utf8::encode_utf8;

verus! {

/// The Keccak-256 digest of the bytes.
pub uninterp spec fn keccak256_digest(data: Seq<u8>) -> Seq<u8>;

/// What `k256` says of bytes that are to be a secp256k1 signing key: nothing
/// where they are one, else the text of its error.
pub uninterp spec fn signing_key_error(key: Seq<u8>) -> Option<Seq<char>>;

/// The deterministic ECDSA signature of a message under a secp256k1 key, as
/// `r` and `s` in 64 bytes, or the text of `k256`'s error.
pub uninterp spec fn ecdsa_signature(key: Seq<u8>, message: Seq<u8>) -> Result<Seq<u8>, Seq<char>>;

/// The deterministic ECDSA signature of a hash under a secp256k1 key, as
/// `r` and `s` in 64 bytes, with the id by which the public key is recovered
/// from it, or the text of `k256`'s error.
pub uninterp spec fn recoverable_signature(key: Seq<u8>, prehash: Seq<u8>) -> Result<(Seq<u8>, u8), Seq<char>>;

/// `Keccak256::digest` of the `sha3` crate: the digest, 32 bytes long.
#[verifier::external_body]
fn keccak256(data: &[u8]) -> (digest: Vec<u8>)
    ensures
        digest@ == keccak256_digest(data@),
        digest@.len() == 32,
{
    Keccak256::digest(data).to_vec()
}

/// `SigningKey::from_slice` of `k256`: its error for the bytes, if it has
/// one.
#[verifier::external_body]
fn check_signing_key(key: &[u8]) -> (err: Option<String>)
    ensures
        crate::text::opt_view(err) == signing_key_error(key@),
{
    SigningKey::from_slice(key).err().map(|e| e.to_string())
}

/// `Signer::try_sign` of `k256`, with the key that `SigningKey::from_slice`
/// makes of the bytes: the signature, 64 bytes long. Bytes that are no key
/// give the error that `SigningKey::from_slice` has for them.
#[verifier::external_body]
fn sign_message(key: &[u8], message: &[u8]) -> (r: Result<Vec<u8>, String>)
    ensures
        match r {
            Ok(signature) => ecdsa_signature(key@, message@) == Ok::<Seq<u8>, Seq<char>>(signature@)
                && signature@.len() == 64,
            Err(detail) => ecdsa_signature(key@, message@) == Err::<Seq<u8>, Seq<char>>(detail@),
        },
        signing_key_error(key@) matches Some(detail) ==> r is Err && r->Err_0@ == detail,
{
    let key = SigningKey::from_slice(key).map_err(|e| e.to_string())?;
    let signature: Signature = key.try_sign(message).map_err(|e| e.to_string())?;
    Ok(signature.to_bytes().to_vec())
}

/// `SigningKey::sign_prehash_recoverable` of `k256`, with the key that
/// `SigningKey::from_slice` makes of the bytes: the signature, 64 bytes long,
/// and the recovery id, which is at most 3. Bytes that are no key give the
/// error that `SigningKey::from_slice` has for them.
#[verifier::external_body]
fn sign_prehash(key: &[u8], prehash: &[u8]) -> (r: Result<(Vec<u8>, u8), String>)
    ensures
        match r {
            Ok((signature, id)) => recoverable_signature(key@, prehash@) == Ok::<(Seq<u8>, u8), Seq<char>>(
                (signature@, id),
            ) && signature@.len() == 64 && id <= 3,
            Err(detail) => recoverable_signature(key@, prehash@) == Err::<(Seq<u8>, u8), Seq<char>>(detail@),
        },
        signing_key_error(key@) matches Some(detail) ==> r is Err && r->Err_0@ == detail,
{
    let key = SigningKey::from_slice(key).map_err(|e| e.to_string())?;
    let (signature, id) = key.sign_prehash_recoverable(prehash).map_err(|e| e.to_string())?;
    Ok((signature.to_bytes().to_vec(), id.to_byte()))
}

/// The failure for a key that is no base64 text.
pub open spec fn invalid_key_encoding(detail: Seq<char>) -> Failure {
    Failure { kind: ErrorKind::Signing, detail: "Invalid base64 encoding for private key: "@ + detail }
}

/// The failure for bytes that are no secp256k1 key.
pub open spec fn invalid_signing_key(detail: Seq<char>) -> Failure {
    Failure { kind: ErrorKind::Signing, detail: "Invalid secp256k1 private key: "@ + detail }
}

/// The failure of the signing itself.
pub open spec fn signing_failed(detail: Seq<char>) -> Failure {
    Failure { kind: ErrorKind::Signing, detail: "Signing failed: "@ + detail }
}

/// The key that a base64 text stands for, or why it stands for none.
pub open spec fn signing_key_of(key_base64: Seq<char>) -> Result<Seq<u8>, Failure> {
    match base64_decoded(key_base64) {
        Err(detail) => Err(invalid_key_encoding(detail)),
        Ok(key) => match signing_key_error(key) {
            Some(detail) => Err(invalid_signing_key(detail)),
            None => Ok(key),
        },
    }
}

/// What `sign_secp256k1` returns.
pub open spec fn secp256k1_result(message: Seq<u8>, key_base64: Seq<char>) -> Result<Seq<u8>, Failure> {
    match signing_key_of(key_base64) {
        Err(failure) => Err(failure),
        Ok(key) => match ecdsa_signature(key, message) {
            Ok(signature) => Ok(signature),
            Err(detail) => Err(signing_failed(detail)),
        },
    }
}

/// The marker that Ethereum puts before a message that is to be signed.
pub open spec fn ethereum_marker() -> Seq<u8> {
    encode_utf8("\x19Ethereum Signed Message:\n"@)
}

/// The bytes that Ethereum signs for a message: the marker, the number of the
/// message's bytes in decimal, and the message.
pub open spec fn ethereum_prefixed(message: Seq<u8>) -> Seq<u8> {
    ethereum_marker() + decimal_digits(message.len()) + message
}

/// The signature of the message's prefixed form under the key that the
/// base64 text stands for, with its recovery id, where the text stands for a
/// key.
pub open spec fn ethereum_signature(message: Seq<char>, key_base64: Seq<char>) -> Result<
    (Seq<u8>, u8),
    Seq<char>,
> {
    recoverable_signature(
        signing_key_of(key_base64)->Ok_0,
        keccak256_digest(ethereum_prefixed(encode_utf8(message))),
    )
}

/// What `sign_ethereum_message` returns: the hexadecimal text of the 64
/// bytes of the signature of the prefixed message's Keccak-256 digest,
/// followed by one byte, the recovery id plus 27.
pub open spec fn ethereum_result(message: Seq<char>, key_base64: Seq<char>) -> Result<Seq<char>, Failure> {
    match signing_key_of(key_base64) {
        Err(failure) => Err(failure),
        Ok(_) => match ethereum_signature(message, key_base64) {
            Ok((signature, id)) => Ok(hex_encoded(signature.push((id + 27) as u8))),
            Err(detail) => Err(signing_failed(detail)),
        },
    }
}

/// The model of a result that carries bytes.
pub open spec fn bytes_result_view(r: Result<Vec<u8>, SessionError>) -> Result<Seq<u8>, Failure> {
    match r {
        Ok(bytes) => Ok(bytes@),
        Err(e) => Err(e@),
    }
}

/// The model of a result that carries a text.
pub open spec fn text_result_view(r: Result<String, SessionError>) -> Result<Seq<char>, Failure> {
    match r {
        Ok(text) => Ok(text@),
        Err(e) => Err(e@),
    }
}

/// The key that the base64 text stands for.
fn decode_signing_key(key_base64: &str) -> (r: Result<Vec<u8>, SessionError>)
    ensures
        bytes_result_view(r) == signing_key_of(key_base64@),
{
    match decode_base64(key_base64) {
        Err(detail) => Err(
            SessionError::new(
                ErrorKind::Signing,
                join2("Invalid base64 encoding for private key: ", detail.as_str()),
            ),
        ),
        Ok(key) => match check_signing_key(key.as_slice()) {
            Some(detail) => Err(
                SessionError::new(ErrorKind::Signing, join2("Invalid secp256k1 private key: ", detail.as_str())),
            ),
            None => Ok(key),
        },
    }
}

/// Signs the message with the secp256k1 key that the base64 text stands for:
/// the signature as `r` and `s`, 64 bytes.
pub fn sign_secp256k1(message: &[u8], private_key_base64: &str) -> (r: Result<Vec<u8>, SessionError>)
    ensures
        bytes_result_view(r) == secp256k1_result(message@, private_key_base64@),
        r matches Ok(signature) ==> signature@.len() == 64,
{
    let key = match decode_signing_key(private_key_base64) {
        Ok(key) => key,
        Err(e) => {
            return Err(e);
        },
    };
    match sign_message(key.as_slice(), message) {
        Ok(signature) => Ok(signature),
        Err(detail) => Err(SessionError::new(ErrorKind::Signing, join2("Signing failed: ", detail.as_str()))),
    }
}

/// The bytes that Ethereum signs for the message.
pub fn ethereum_prefixed_message(message: &str) -> (bytes: Vec<u8>)
    ensures
        bytes@ == ethereum_prefixed(encode_utf8(message@)),
{
    let text = message.as_bytes();
    let mut bytes: Vec<u8> = Vec::new();
    push_bytes(&mut bytes, "\x19Ethereum Signed Message:\n".as_bytes());
    push_decimal(&mut bytes, text.len());
    push_bytes(&mut bytes, text);
    assert(bytes@ =~= ethereum_prefixed(encode_utf8(message@)));
    bytes
}

/// Signs the message as Ethereum does, with the secp256k1 key that the
/// base64 text stands for: 65 bytes in hexadecimal, `r`, `s` and the recovery
/// id plus 27. The recovery id is at most 3, so the last byte is one of 27
/// to 30.
pub fn sign_ethereum_message(message: &str, private_key_base64: &str) -> (r: Result<String, SessionError>)
    ensures
        text_result_view(r) == ethereum_result(message@, private_key_base64@),
        r matches Ok(text) ==> {
            &&& text@.len() == 130
            &&& ethereum_signature(message@, private_key_base64@) matches Ok((signature, id))
            &&& signature.len() == 64
            &&& id <= 3
            &&& 27 <= (id + 27) as u8 <= 30
            &&& text@ == hex_encoded(signature.push((id + 27) as u8))
        },
{
    let prefixed = ethereum_prefixed_message(message);
    let digest = keccak256(prefixed.as_slice());
    let key = match decode_signing_key(private_key_base64) {
        Ok(key) => key,
        Err(e) => {
            return Err(e);
        },
    };
    match sign_prehash(key.as_slice(), digest.as_slice()) {
        Ok((signature, id)) => {
            let mut bytes = signature;
            bytes.push(id + 27);
            Ok(encode_hex(bytes.as_slice()))
        },
        Err(detail) => Err(SessionError::new(ErrorKind::Signing, join2("Signing failed: ", detail.as_str()))),
    }
}

} // verus!
