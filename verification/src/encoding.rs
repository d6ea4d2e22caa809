//! Bytes and the texts that stand for them: hexadecimal, base64 and UTF-8.
use crate::error::{ErrorKind, Failure, SessionError};
use crate::text::join2;
use base64::engine::general_purpose::STANDARD;
use base64::Engine;
use hex::FromHex;
use vstd::prelude::*;
use vstd::slice::slice_subrange;
use vstd::utf8::{encode_utf8, valid_utf8};

verus! {

/// The value of a hexadecimal digit, in either case.
pub open spec fn hex_digit_value(digit: u8) -> Option<u8> {
    if 48 <= digit <= 57 {
        Some((digit - 48) as u8)
    } else if 97 <= digit <= 102 {
        Some((digit - 87) as u8)
    } else if 65 <= digit <= 70 {
        Some((digit - 55) as u8)
    } else {
        None
    }
}

/// Whether every byte is a hexadecimal digit.
pub open spec fn all_hex_digits(digits: Seq<u8>) -> bool {
    forall|i: int| 0 <= i < digits.len() ==> hex_digit_value(#[trigger] digits[i]) is Some
}

/// The bytes that the digits stand for, two digits to a byte, the high half
/// first.
pub open spec fn hex_decoded(digits: Seq<u8>) -> Seq<u8> {
    Seq::new(
        digits.len() / 2,
        |i: int| (hex_digit_value(digits[2 * i])->Some_0 * 16 + hex_digit_value(digits[2 * i + 1])->Some_0) as u8,
    )
}

/// The lower-case hexadecimal digit of a value below sixteen.
pub open spec fn hex_digit(value: int) -> char {
    if value < 10 {
        (value + 48) as u8 as char
    } else {
        (value + 87) as u8 as char
    }
}

/// The lower-case hexadecimal text of the bytes, two digits to a byte, the
/// high half first.
pub open spec fn hex_encoded(bytes: Seq<u8>) -> Seq<char> {
    Seq::new(
        2 * bytes.len(),
        |i: int| if i % 2 == 0 {
            hex_digit(bytes[i / 2] as int / 16)
        } else {
            hex_digit(bytes[i / 2] as int % 16)
        },
    )
}

/// The text of the `hex` crate's error for digits that are not forty
/// hexadecimal digits.
pub uninterp spec fn hex_error_text(digits: Seq<u8>) -> Seq<char>;

/// What the `base64` crate's standard engine decodes a text to: the bytes, or
/// the text of its error.
pub uninterp spec fn base64_decoded(text: Seq<char>) -> Result<Seq<u8>, Seq<char>>;

/// The text that the `base64` crate's standard engine encodes bytes to.
pub uninterp spec fn base64_encoded(bytes: Seq<u8>) -> Seq<char>;

/// The text of std's error for bytes that are not UTF-8.
pub uninterp spec fn utf8_error_text(bytes: Seq<u8>) -> Seq<char>;

/// `<[u8; 20]>::from_hex` of the `hex` crate: forty hexadecimal digits give
/// the twenty bytes they stand for; anything else gives the crate's error.
#[verifier::external_body]
fn decode_hex_20(digits: &[u8]) -> (r: Result<[u8; 20], String>)
    ensures
        match r {
            Ok(bytes) => digits@.len() == 40 && all_hex_digits(digits@) && bytes@ == hex_decoded(digits@),
            Err(detail) => !(digits@.len() == 40 && all_hex_digits(digits@)) && detail@ == hex_error_text(
                digits@,
            ),
        },
{
    <[u8; 20]>::from_hex(digits).map_err(|e| e.to_string())
}

/// `hex::encode`: the lower-case hexadecimal text of the bytes.
#[verifier::external_body]
pub(crate) fn encode_hex(bytes: &[u8]) -> (text: String)
    ensures
        text@ == hex_encoded(bytes@),
{
    hex::encode(bytes)
}

/// `Engine::decode` of the `base64` crate's standard engine.
#[verifier::external_body]
pub(crate) fn decode_base64(text: &str) -> (r: Result<Vec<u8>, String>)
    ensures
        match r {
            Ok(bytes) => base64_decoded(text@) == Ok::<Seq<u8>, Seq<char>>(bytes@),
            Err(detail) => base64_decoded(text@) == Err::<Seq<u8>, Seq<char>>(detail@),
        },
{
    STANDARD.decode(text).map_err(|e| e.to_string())
}

/// `Engine::encode` of the `base64` crate's standard engine.
#[verifier::external_body]
pub(crate) fn encode_base64(bytes: &[u8]) -> (text: String)
    ensures
        text@ == base64_encoded(bytes@),
{
    STANDARD.encode(bytes)
}

/// `String::from_utf8`: the text whose UTF-8 encoding the bytes are, or the
/// text of std's error where they are no UTF-8.
#[verifier::external_body]
pub(crate) fn text_from_utf8(bytes: Vec<u8>) -> (r: Result<String, String>)
    ensures
        match r {
            Ok(text) => valid_utf8(bytes@) && encode_utf8(text@) == bytes@,
            Err(detail) => !valid_utf8(bytes@) && detail@ == utf8_error_text(bytes@),
        },
{
    String::from_utf8(bytes).map_err(|e| e.to_string())
}

/// The digits of an address: the bytes of its text, without the marker `0x`
/// where they begin with it.
pub open spec fn address_digits(text: Seq<u8>) -> Seq<u8> {
    if text.len() >= 2 && text[0] == 48 && text[1] == 120 {
        text.subrange(2, text.len() as int)
    } else {
        text
    }
}

/// Whether the bytes of a text are an address: forty hexadecimal digits, with
/// or without the marker `0x` before them.
pub open spec fn is_address(text: Seq<u8>) -> bool {
    address_digits(text).len() == 40 && all_hex_digits(address_digits(text))
}

/// The failure for a text that is no address.
pub open spec fn invalid_address(text: Seq<char>, digits: Seq<u8>) -> Failure {
    Failure {
        kind: ErrorKind::InvalidAddress,
        detail: "failed to parse '"@ + text + "' as a hexstring: "@ + hex_error_text(digits),
    }
}

/// What decoding an address gives: its twenty bytes, or the failure.
pub open spec fn address_result(text: Seq<char>) -> Result<Seq<u8>, Failure> {
    let digits = address_digits(encode_utf8(text));
    if is_address(encode_utf8(text)) {
        Ok(hex_decoded(digits))
    } else {
        Err(invalid_address(text, digits))
    }
}

/// The model of a decoded address.
pub open spec fn address_result_view(r: Result<[u8; 20], SessionError>) -> Result<Seq<u8>, Failure> {
    match r {
        Ok(bytes) => Ok(bytes@),
        Err(e) => Err(e@),
    }
}

/// Decodes the twenty bytes of an address from its hexadecimal text, with or
/// without the marker `0x` before the digits.
pub fn hex_to_bytes(hex: &str) -> (r: Result<[u8; 20], SessionError>)
    ensures
        address_result_view(r) == address_result(hex@),
{
    let bytes = hex.as_bytes();
    let digits = if bytes.len() >= 2 && bytes[0] == 48 && bytes[1] == 120 {
        slice_subrange(bytes, 2, bytes.len())
    } else {
        bytes
    };
    match decode_hex_20(digits) {
        Ok(address) => Ok(address),
        Err(detail) => {
            let mut text = join2("failed to parse '", hex);
            text.append("' as a hexstring: ");
            text.append(detail.as_str());
            Err(SessionError::new(ErrorKind::InvalidAddress, text))
        },
    }
}

} // verus!
