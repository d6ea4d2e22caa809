//! Key material. A key is a JSON Web Key of the `ssi-jwk` crate: a JSON
//! object, that is a collection of named members. One member, `kid`, is the
//! key's label; the others are its material. The library sets the label and
//! carries the material as it was given. What is computed from a key (its
//! JSON text, its decentralized identifier) comes from the outside crates,
//! through the functions of this module.
use did_method_key::DIDKey;
use ssi_jwk::JWK;
use vstd::prelude::*;

verus! {

#[verifier::external_type_specification]
#[verifier::external_body]
pub struct ExJwk(JWK);

/// The label that a key carries: its member `kid`, if it has one.
pub uninterp spec fn jwk_label(key: JWK) -> Option<Seq<char>>;

/// The material that a key holds: its members other than the label, by
/// name, each as the JSON text of its value.
pub uninterp spec fn jwk_material(key: JWK) -> Map<Seq<char>, Seq<char>>;

/// The JSON text of the key with this material and this label, or the text
/// of the serializer's error.
pub uninterp spec fn jwk_json(material: Map<Seq<char>, Seq<char>>, label: Option<Seq<char>>) -> Result<
    Seq<char>,
    Seq<char>,
>;

/// The `did:key` identifier of the key with this material, or the text of
/// the error for a key that has no such identifier.
pub uninterp spec fn did_key_of(material: Map<Seq<char>, Seq<char>>) -> Result<Seq<char>, Seq<char>>;

/// What `serde_json` reads from a text that is to describe a JSON Web Key:
/// the material and the label of the key, or the text of the parser's error.
pub uninterp spec fn described_key(text: Seq<char>) -> Result<
    (Map<Seq<char>, Seq<char>>, Option<Seq<char>>),
    Seq<char>,
>;

/// The model of a key: its label and its material.
pub ghost struct KeyView {
    pub label: Option<Seq<char>>,
    pub material: Map<Seq<char>, Seq<char>>,
}

impl KeyView {
    /// The key with the same material and the label `id`.
    pub open spec fn labelled(self, id: Seq<char>) -> KeyView {
        KeyView { label: Some(id), material: self.material }
    }
}

/// The model of the key.
pub open spec fn key_view(key: JWK) -> KeyView {
    KeyView { label: jwk_label(key), material: jwk_material(key) }
}

/// The characters of a text or of the text of an error.
pub open spec fn outcome_view(r: Result<String, String>) -> Result<Seq<char>, Seq<char>> {
    match r {
        Ok(text) => Ok(text@),
        Err(detail) => Err(detail@),
    }
}

/// `JWK::generate_ed25519`: a fresh Ed25519 key pair. Built without `ring`,
/// as `ssi-jwk` is here, the generator has no failing path, so a key always
/// comes back. The key is random; whichever it is, it has no label, and it
/// is of a kind that has a `did:key` identifier.
#[verifier::external_body]
pub(crate) fn generate_ed25519() -> (key: Result<JWK, String>)
    ensures
        key is Ok,
        key matches Ok(k) ==> jwk_label(k) is None && did_key_of(jwk_material(k)) is Ok,
{
    JWK::generate_ed25519().map_err(|e| e.to_string())
}

/// `JWK::clone`: a copy that equals the key it was made from.
#[verifier::external_body]
pub(crate) fn clone_key(key: &JWK) -> (copy: JWK)
    ensures
        copy == *key,
{
    key.clone()
}

/// Sets the field `key_id` of the key: its label is then `key_id`, and its
/// material is what it was.
#[verifier::external_body]
pub(crate) fn label_key(key: JWK, key_id: &str) -> (labelled: JWK)
    ensures
        jwk_label(labelled) == Some(key_id@),
        jwk_material(labelled) == jwk_material(key),
{
    let mut labelled = key;
    labelled.key_id = Some(key_id.to_string());
    labelled
}

/// `serde_json::to_string` on the key: its JSON text, or the text of the
/// serializer's error.
#[verifier::external_body]
pub(crate) fn key_to_json(key: &JWK) -> (text: Result<String, String>)
    ensures
        outcome_view(text) == jwk_json(jwk_material(*key), jwk_label(*key)),
{
    serde_json::to_string(key).map_err(|e| e.to_string())
}

/// `serde_json::from_str` for a `JWK`: the key that the JSON text describes,
/// or the text of the parser's error.
#[verifier::external_body]
pub(crate) fn key_from_json(text: &str) -> (key: Result<JWK, String>)
    ensures
        match key {
            Ok(k) => described_key(text@) == Ok::<(Map<Seq<char>, Seq<char>>, Option<Seq<char>>), Seq<char>>(
                (jwk_material(k), jwk_label(k)),
            ),
            Err(detail) => described_key(text@) == Err::<
                (Map<Seq<char>, Seq<char>>, Option<Seq<char>>),
                Seq<char>,
            >(detail@),
        },
{
    serde_json::from_str::<JWK>(text).map_err(|e| e.to_string())
}

/// `DIDKey::generate`: the `did:key` identifier of the key's public half, or
/// the text of the error for a key that has no such identifier.
#[verifier::external_body]
pub(crate) fn did_of_key(key: &JWK) -> (did: Result<String, String>)
    ensures
        outcome_view(did) == did_key_of(jwk_material(*key)),
{
    DIDKey::generate(key).map(|d| d.to_string()).map_err(|e| e.to_string())
}

} // verus!
