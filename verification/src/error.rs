//! The failures that the library reports: a kind and a readable detail.
use vstd::prelude::*;

verus! {

/// What went wrong.
#[derive(Clone, Copy, Debug, PartialEq, Eq, Structural)]
pub enum ErrorKind {
    /// A key is already stored under the id.
    DuplicateKey,
    /// No key is stored under the id.
    KeyNotFound,
    /// Neither the caller nor the session names a key id.
    MissingKeyId,
    /// A fresh key could not be generated.
    KeyGeneration,
    /// The namespace of a grant is not well formed.
    InvalidNamespace,
    /// An action of a grant is not well formed.
    ActionEncoding,
    /// A value has no JSON form, or a text is not the JSON that was asked for.
    Serialization,
    /// The signer's identity is not a URI.
    InvalidUri,
    /// The domain is not a URI authority.
    InvalidDomain,
    /// The address is not twenty bytes in hex.
    InvalidAddress,
    /// A timestamp is not an RFC 3339 date and time.
    TimestampParse,
    /// A resource is not a URI.
    ResourceUri,
    /// No identity could be derived from a key.
    IdentityDerivation,
    /// A problem with the key or the encoding in the signing utility.
    Signing,
}

/// A failure: its kind, and a detail for people to read.
#[derive(Debug, PartialEq, Eq)]
pub struct SessionError {
    pub kind: ErrorKind,
    pub detail: String,
}

/// The model of a failure: its kind and the characters of its detail.
pub struct Failure {
    pub kind: ErrorKind,
    pub detail: Seq<char>,
}

impl View for SessionError {
    type V = Failure;

    open spec fn view(&self) -> Failure {
        Failure { kind: self.kind, detail: self.detail@ }
    }
}

impl SessionError {
    /// A failure of the given kind with the given detail.
    pub fn new(kind: ErrorKind, detail: String) -> (e: SessionError)
        ensures
            e@ == (Failure { kind, detail: detail@ }),
    {
        SessionError { kind, detail }
    }

    /// The detail, for a caller that shows or logs it.
    pub fn message(&self) -> (text: String)
        ensures
            text@ == self@.detail,
    {
        self.detail.clone()
    }
}

} // verus!
