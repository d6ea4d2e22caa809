//! Keys in transit: a key travels as the JSON text of a JSON Web Key, in
//! base64 where the channel takes text only.
use crate::encoding::{base64_decoded, base64_encoded, decode_base64, encode_base64, text_from_utf8};
use crate::encoding::utf8_error_text;
use crate::error::{ErrorKind, Failure, SessionError};
use crate::key_material::{described_key, key_from_json, key_view, KeyView};
use crate::manager::{jwk_text, SessionManager};
use crate::signing::text_result_view;
use crate::store::{id_result_view, import_pending, import_result, import_state};
use crate::text::{join2, opt_view};
use ssi_jwk::JWK;
use vstd::prelude::*;
use vstd::utf8::{decode_utf8, encode_utf8, valid_utf8};

verus! {

/// The failure for a key that is no base64 text.
pub open spec fn invalid_base64(detail: Seq<char>) -> Failure {
    Failure { kind: ErrorKind::Serialization, detail: "Invalid base64 encoding: "@ + detail }
}

/// The failure for a key whose bytes are no UTF-8.
pub open spec fn invalid_utf8(detail: Seq<char>) -> Failure {
    Failure { kind: ErrorKind::Serialization, detail: "Invalid UTF-8 in JWK: "@ + detail }
}

/// The failure for a text that describes no key.
pub open spec fn invalid_jwk(detail: Seq<char>) -> Failure {
    Failure { kind: ErrorKind::Serialization, detail: "Invalid JWK format: "@ + detail }
}

/// The failure for an export where no key is to be had.
pub open spec fn no_key_to_export() -> Failure {
    Failure { kind: ErrorKind::KeyNotFound, detail: "Key not found"@ }
}

/// Why a JSON text describes no key, if it describes none.
pub open spec fn described_key_failure(jwk: Seq<char>) -> Option<Failure> {
    match described_key(jwk) {
        Err(detail) => Some(invalid_jwk(detail)),
        Ok(_) => None,
    }
}

/// The key that a JSON text describes, where it describes one.
pub open spec fn described_view(jwk: Seq<char>) -> KeyView {
    KeyView { label: described_key(jwk)->Ok_0.1, material: described_key(jwk)->Ok_0.0 }
}

/// Why a base64 text stands for no key, if it stands for none: it is no
/// base64, or its bytes are no UTF-8, or their text describes no key.
pub open spec fn encoded_key_failure(base64_jwk: Seq<char>) -> Option<Failure> {
    match base64_decoded(base64_jwk) {
        Err(detail) => Some(invalid_base64(detail)),
        Ok(bytes) => if !valid_utf8(bytes) {
            Some(invalid_utf8(utf8_error_text(bytes)))
        } else {
            described_key_failure(decode_utf8(bytes))
        },
    }
}

/// What an export in base64 comes to for the JSON text that was to be had:
/// the base64 of the text's bytes.
pub open spec fn encoded_export(json: Option<Seq<char>>) -> Result<Seq<char>, Failure> {
    match json {
        Some(text) => Ok(base64_encoded(encode_utf8(text))),
        None => Err(no_key_to_export()),
    }
}

/// The JSON text that a base64 text stands for, where it stands for one.
pub open spec fn encoded_text(base64_jwk: Seq<char>) -> Seq<char> {
    decode_utf8(base64_decoded(base64_jwk)->Ok_0)
}

/// The key that the base64 text stands for.
pub fn decode_key(base64_jwk: &str) -> (r: Result<JWK, SessionError>)
    ensures
        match r {
            Ok(key) => encoded_key_failure(base64_jwk@) is None && key_view(key) == described_view(
                encoded_text(base64_jwk@),
            ),
            Err(e) => encoded_key_failure(base64_jwk@) == Some(e@),
        },
{
    let bytes = match decode_base64(base64_jwk) {
        Ok(bytes) => bytes,
        Err(detail) => {
            return Err(
                SessionError::new(ErrorKind::Serialization, join2("Invalid base64 encoding: ", detail.as_str())),
            );
        },
    };
    let ghost raw = bytes@;
    let text = match text_from_utf8(bytes) {
        Ok(text) => text,
        Err(detail) => {
            return Err(
                SessionError::new(ErrorKind::Serialization, join2("Invalid UTF-8 in JWK: ", detail.as_str())),
            );
        },
    };
    proof {
        vstd::utf8::encode_utf8_decode_utf8(text@);
        assert(text@ == decode_utf8(raw));
    }
    match key_from_json(text.as_str()) {
        Ok(key) => Ok(key),
        Err(detail) => Err(
            SessionError::new(ErrorKind::Serialization, join2("Invalid JWK format: ", detail.as_str())),
        ),
    }
}

/// Stores the key that the JSON text describes under the id, or under the
/// default id where none is given, unless the id is already held.
pub fn import_key_from_jwk(manager: &mut SessionManager, jwk: &str, key_id: Option<String>) -> (r: Result<
    String,
    SessionError,
>)
    ensures
        final(manager).grants() == old(manager).grants(),
        final(manager).pending_sessions() == match described_key_failure(jwk@) {
            Some(_) => old(manager).pending_sessions(),
            None => import_pending(old(manager).keys(), old(manager).pending_sessions(), opt_view(key_id), false),
        },
        match described_key_failure(jwk@) {
            Some(failure) => id_result_view(r) == Err::<Seq<char>, Failure>(failure) && final(manager).keys()
                == old(manager).keys(),
            None => id_result_view(r) == import_result(old(manager).keys(), opt_view(key_id), false)
                && final(manager).keys() == import_state(
                old(manager).keys(),
                described_view(jwk@),
                opt_view(key_id),
                false,
            ),
        },
{
    match key_from_json(jwk) {
        Ok(key) => manager.import_session_key(key, key_id, false),
        Err(detail) => Err(
            SessionError::new(ErrorKind::Serialization, join2("Invalid JWK format: ", detail.as_str())),
        ),
    }
}

/// Stores the key that the base64 text stands for under the id, or under the
/// default id where none is given, unless the id is already held.
pub fn import_key_from_base64(manager: &mut SessionManager, base64_jwk: String, key_id: Option<String>) -> (r:
    Result<String, SessionError>)
    ensures
        final(manager).grants() == old(manager).grants(),
        final(manager).pending_sessions() == match encoded_key_failure(base64_jwk@) {
            Some(_) => old(manager).pending_sessions(),
            None => import_pending(old(manager).keys(), old(manager).pending_sessions(), opt_view(key_id), false),
        },
        match encoded_key_failure(base64_jwk@) {
            Some(failure) => id_result_view(r) == Err::<Seq<char>, Failure>(failure) && final(manager).keys()
                == old(manager).keys(),
            None => id_result_view(r) == import_result(old(manager).keys(), opt_view(key_id), false)
                && final(manager).keys() == import_state(
                old(manager).keys(),
                described_view(encoded_text(base64_jwk@)),
                opt_view(key_id),
                false,
            ),
        },
{
    match decode_key(base64_jwk.as_str()) {
        Ok(key) => manager.import_session_key(key, key_id, false),
        Err(e) => Err(e),
    }
}

/// As `import_key_from_base64`, for a text that was read from the
/// environment.
pub fn import_key_from_env_value(manager: &mut SessionManager, env_value: String, key_id: Option<String>) -> (r:
    Result<String, SessionError>)
    ensures
        final(manager).grants() == old(manager).grants(),
        final(manager).pending_sessions() == match encoded_key_failure(env_value@) {
            Some(_) => old(manager).pending_sessions(),
            None => import_pending(old(manager).keys(), old(manager).pending_sessions(), opt_view(key_id), false),
        },
        match encoded_key_failure(env_value@) {
            Some(failure) => id_result_view(r) == Err::<Seq<char>, Failure>(failure) && final(manager).keys()
                == old(manager).keys(),
            None => id_result_view(r) == import_result(old(manager).keys(), opt_view(key_id), false)
                && final(manager).keys() == import_state(
                old(manager).keys(),
                described_view(encoded_text(env_value@)),
                opt_view(key_id),
                false,
            ),
        },
{
    import_key_from_base64(manager, env_value, key_id)
}

/// The key held under the id, as the base64 of its JSON text.
pub fn export_key_as_base64(manager: &SessionManager, key_id: Option<String>) -> (r: Result<
    String,
    SessionError,
>)
    ensures
        text_result_view(r) == encoded_export(jwk_text(manager.keys(), opt_view(key_id))),
{
    match manager.jwk(key_id) {
        Some(text) => Ok(encode_base64(text.as_str().as_bytes())),
        None => Err(SessionError::new(ErrorKind::KeyNotFound, String::from_str("Key not found"))),
    }
}

} // verus!
