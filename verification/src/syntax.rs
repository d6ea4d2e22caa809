//! Whether a text is what a field of a message must be. The grammars are
//! those of the crates that later write the message: each check asks the
//! crate, and the answer has a name that the contracts speak of.
use crate::text::{is_alphanumeric, opt_view};
use iri_string::types::UriString;
use siwe::TimeStamp;
use std::collections::HashMap;
use vstd::prelude::*;

verus! {

/// What `UriString`'s parser says of a text: nothing where the text is an
/// RFC 3986 URI, else the text of its error.
pub uninterp spec fn uri_error(text: Seq<char>) -> Option<Seq<char>>;

/// What `http::uri::Authority`'s parser says of a text: nothing where the
/// text is a URI authority, else the text of its error.
pub uninterp spec fn authority_error(text: Seq<char>) -> Option<Seq<char>>;

/// What `siwe::TimeStamp`'s parser says of a text: nothing where the text is
/// an RFC 3339 date and time, else the text of its error.
pub uninterp spec fn timestamp_error(text: Seq<char>) -> Option<Seq<char>>;

/// What `serde_json` reads from a text that is to be a JSON object: its
/// members by name, each as the JSON text of its value, or the text of the
/// parser's error.
pub uninterp spec fn json_object(text: Seq<char>) -> Result<Map<Seq<char>, Seq<char>>, Seq<char>>;

/// The parser's error for a text that is to be a JSON object, if it has one.
pub open spec fn json_object_error(text: Seq<char>) -> Option<Seq<char>> {
    match json_object(text) {
        Ok(_) => None,
        Err(detail) => Some(detail),
    }
}

/// Whether the text can be a nonce that was made here: seventeen ASCII
/// letters and digits.
pub open spec fn is_fresh_nonce(text: Seq<char>) -> bool {
    &&& text.len() == 17
    &&& forall|i: int| 0 <= i < text.len() ==> is_alphanumeric(#[trigger] text[i])
}

/// `siwe::generate_nonce`: seventeen random ASCII letters and digits.
#[verifier::external_body]
pub(crate) fn fresh_nonce() -> (nonce: String)
    ensures
        is_fresh_nonce(nonce@),
{
    siwe::generate_nonce()
}

/// `UriString::from_str`: the parser's error for the text, if it has one.
#[verifier::external_body]
pub(crate) fn check_uri(text: &str) -> (err: Option<String>)
    ensures
        opt_view(err) == uri_error(text@),
{
    text.parse::<UriString>().err().map(|e| e.to_string())
}

/// `http::uri::Authority::from_str`: the parser's error for the text, if it
/// has one.
#[verifier::external_body]
pub(crate) fn check_authority(text: &str) -> (err: Option<String>)
    ensures
        opt_view(err) == authority_error(text@),
{
    text.parse::<http::uri::Authority>().err().map(|e| e.to_string())
}

/// `siwe::TimeStamp::from_str`: the parser's error for the text, if it has
/// one.
#[verifier::external_body]
pub(crate) fn check_timestamp(text: &str) -> (err: Option<String>)
    ensures
        opt_view(err) == timestamp_error(text@),
{
    text.parse::<TimeStamp>().err().map(|e| e.to_string())
}

/// `serde_json::from_str` for a map from member names to JSON values: the
/// parser's error for the text, if it has one.
#[verifier::external_body]
pub(crate) fn check_json_object(text: &str) -> (err: Option<String>)
    ensures
        match err {
            Some(detail) => json_object(text@) == Err::<Map<Seq<char>, Seq<char>>, Seq<char>>(detail@),
            None => json_object(text@) is Ok,
        },
{
    serde_json::from_str::<HashMap<String, serde_json::Value>>(text).err().map(|e| e.to_string())
}

} // verus!
