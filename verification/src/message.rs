//! The sign-in message: its fields are checked one after the other, the
//! grants are put into it, and its text is written.
use crate::capability::{grants_view, Grant, GrantView};
use crate::encoding::{address_result, hex_to_bytes};
use crate::error::{ErrorKind, Failure, SessionError};
use crate::recap::{delegated, encode_grants, lemma_one_extra_field, recap_message_text, render_message};
use crate::recap::SiweFields;
use crate::signing::text_result_view;
use crate::syntax::{authority_error, check_authority, check_timestamp, check_uri, timestamp_error, uri_error};
use crate::text::{join2, join3, opt_view, texts_view};
use vstd::prelude::*;

verus! {

/// What a caller asks to have signed.
pub struct SiweConfig {
    /// The address that signs, twenty bytes in hexadecimal, with or without
    /// the marker `0x`.
    pub address: String,
    /// The chain that the session is bound to.
    pub chain_id: u64,
    /// The authority that asks for the signature.
    pub domain: String,
    /// A token against replay; a random one is made where none is given.
    pub nonce: Option<String>,
    /// The time of issue.
    pub issued_at: String,
    /// The time from which the message is no longer valid.
    pub expiration_time: Option<String>,
    /// The time from which the message is valid.
    pub not_before: Option<String>,
    /// An identifier of the request.
    pub request_id: Option<String>,
    /// URIs to be resolved as part of the authentication. An entry that the
    /// host could not hand over as text is `None`.
    pub resources: Option<Vec<Option<String>>>,
    /// What the user is told to sign, in one line.
    pub statement: Option<String>,
}

/// The model of a request.
pub struct SiweConfigView {
    pub address: Seq<char>,
    pub chain_id: u64,
    pub domain: Seq<char>,
    pub nonce: Option<Seq<char>>,
    pub issued_at: Seq<char>,
    pub expiration_time: Option<Seq<char>>,
    pub not_before: Option<Seq<char>>,
    pub request_id: Option<Seq<char>>,
    pub resources: Seq<Option<Seq<char>>>,
    pub statement: Option<Seq<char>>,
}

/// The characters of each entry of a list of optional texts, in its order.
pub open spec fn entries_view(entries: Seq<Option<String>>) -> Seq<Option<Seq<char>>> {
    Seq::new(entries.len(), |i: int| opt_view(entries[i]))
}

/// The texts of a list whose every entry is a text.
pub open spec fn entry_texts(entries: Seq<Option<Seq<char>>>) -> Seq<Seq<char>> {
    Seq::new(entries.len(), |i: int| entries[i]->Some_0)
}

impl View for SiweConfig {
    type V = SiweConfigView;

    open spec fn view(&self) -> SiweConfigView {
        SiweConfigView {
            address: self.address@,
            chain_id: self.chain_id,
            domain: self.domain@,
            nonce: opt_view(self.nonce),
            issued_at: self.issued_at@,
            expiration_time: opt_view(self.expiration_time),
            not_before: opt_view(self.not_before),
            request_id: opt_view(self.request_id),
            resources: match self.resources {
                Some(list) => entries_view(list@),
                None => Seq::empty(),
            },
            statement: opt_view(self.statement),
        }
    }
}

/// The failure for a signer that is no URI.
pub open spec fn invalid_uri(detail: Seq<char>) -> Failure {
    Failure { kind: ErrorKind::InvalidUri, detail: "Failed to convert URI string to RiString: "@ + detail }
}

/// The failure for a domain that is no authority.
pub open spec fn invalid_domain(detail: Seq<char>) -> Failure {
    Failure { kind: ErrorKind::InvalidDomain, detail: "failed to parse the domain as an authority: "@ + detail }
}

/// The failure for a field that is no timestamp; the detail begins with the
/// field's name.
pub open spec fn invalid_timestamp(field: Seq<char>, detail: Seq<char>) -> Failure {
    Failure {
        kind: ErrorKind::TimestampParse,
        detail: field + ": unable to parse timestamp from string: "@ + detail,
    }
}

/// The failure for a resource that is no URI.
pub open spec fn invalid_resource_uri(detail: Seq<char>) -> Failure {
    Failure { kind: ErrorKind::ResourceUri, detail: "unable to parse resource as uri: "@ + detail }
}

/// The failure for a resource that is no text.
pub open spec fn resource_not_text() -> Failure {
    Failure { kind: ErrorKind::ResourceUri, detail: "error converting UTF-16 to UTF-8"@ }
}

/// What the check of one resource finds: it is no text, or its text is no
/// URI, or nothing.
pub open spec fn resource_failure(entry: Option<Seq<char>>) -> Option<Failure> {
    match entry {
        None => Some(resource_not_text()),
        Some(text) => match uri_error(text) {
            Some(detail) => Some(invalid_resource_uri(detail)),
            None => None,
        },
    }
}

/// The failure for grants that cannot be encoded.
pub open spec fn grants_not_encodable() -> Failure {
    Failure { kind: ErrorKind::ActionEncoding, detail: "unable to encode the grants"@ }
}

/// The failure of the writing of the message.
pub open spec fn message_not_built() -> Failure {
    Failure { kind: ErrorKind::Serialization, detail: "unable to build siwe message"@ }
}

/// What the check of an optional timestamp finds.
pub open spec fn optional_timestamp_error(text: Option<Seq<char>>) -> Option<Seq<char>> {
    match text {
        Some(t) => timestamp_error(t),
        None => None,
    }
}

/// Whether `i` is the place of the first resource that is no URI.
pub open spec fn first_invalid_resource_at(resources: Seq<Option<Seq<char>>>, i: int) -> bool {
    &&& 0 <= i < resources.len()
    &&& resource_failure(resources[i]) is Some
    &&& forall|j: int| 0 <= j < i ==> resource_failure(#[trigger] resources[j]) is None
}

/// Whether every resource is a URI.
pub open spec fn all_resources_valid(resources: Seq<Option<Seq<char>>>) -> bool {
    forall|i: int| 0 <= i < resources.len() ==> resource_failure(#[trigger] resources[i]) is None
}

/// The first resource that is no URI, where there is one.
pub open spec fn first_invalid_resource(resources: Seq<Option<Seq<char>>>) -> Option<Seq<char>> {
    resources[choose|i: int| first_invalid_resource_at(resources, i)]
}

/// What checking the fields finds, in the order of the checks: the signer,
/// the domain, the address, the three timestamps, the resources. The first
/// thing found wrong is reported.
pub open spec fn field_failure(config: SiweConfigView, signer_uri: Seq<char>) -> Option<Failure> {
    if uri_error(signer_uri) is Some {
        Some(invalid_uri(uri_error(signer_uri)->Some_0))
    } else if authority_error(config.domain) is Some {
        Some(invalid_domain(authority_error(config.domain)->Some_0))
    } else if address_result(config.address) is Err {
        Some(address_result(config.address)->Err_0)
    } else if timestamp_error(config.issued_at) is Some {
        Some(invalid_timestamp("issuedAt"@, timestamp_error(config.issued_at)->Some_0))
    } else if optional_timestamp_error(config.expiration_time) is Some {
        Some(invalid_timestamp("expirationTime"@, optional_timestamp_error(config.expiration_time)->Some_0))
    } else if optional_timestamp_error(config.not_before) is Some {
        Some(invalid_timestamp("notBefore"@, optional_timestamp_error(config.not_before)->Some_0))
    } else if !all_resources_valid(config.resources) {
        resource_failure(first_invalid_resource(config.resources))
    } else {
        None
    }
}

/// The text of the message with the given nonce, or the failure: that of the
/// fields first, then that of the grants, then that of the writing.
pub open spec fn message_result(
    config: SiweConfigView,
    signer_uri: Seq<char>,
    grants: Seq<GrantView>,
    nonce: Seq<char>,
) -> Result<Seq<char>, Failure> {
    match field_failure(config, signer_uri) {
        Some(failure) => Err(failure),
        None => match delegated(grants) {
            None => Err(grants_not_encodable()),
            Some(held) => match recap_message_text(
                held.default_actions,
                held.targeted_actions,
                held.extra_fields,
                config.domain,
                address_result(config.address)->Ok_0,
                config.statement,
                signer_uri,
                config.chain_id,
                nonce,
                config.issued_at,
                config.expiration_time,
                config.not_before,
                config.request_id,
                entry_texts(config.resources),
            ) {
                Some(text) => Ok(text),
                None => Err(message_not_built()),
            },
        },
    }
}

/// A copy of an optional text.
fn clone_opt(text: &Option<String>) -> (copy: Option<String>)
    ensures
        opt_view(copy) == opt_view(*text),
{
    match text {
        Some(t) => Some(t.clone()),
        None => None,
    }
}

/// The failure of a timestamp field, if it is no timestamp.
fn check_timestamp_field(field: &str, text: &str) -> (r: Option<SessionError>)
    ensures
        match r {
            Some(e) => timestamp_error(text@) is Some && e@ == invalid_timestamp(
                field@,
                timestamp_error(text@)->Some_0,
            ),
            None => timestamp_error(text@) is None,
        },
{
    match check_timestamp(text) {
        Some(detail) => Some(
            SessionError::new(
                ErrorKind::TimestampParse,
                join3(field, ": unable to parse timestamp from string: ", detail.as_str()),
            ),
        ),
        None => None,
    }
}

/// The failure of an optional timestamp field, if it is there and no
/// timestamp.
fn check_optional_timestamp(field: &str, text: &Option<String>) -> (r: Option<SessionError>)
    ensures
        match r {
            Some(e) => optional_timestamp_error(opt_view(*text)) is Some && e@ == invalid_timestamp(
                field@,
                optional_timestamp_error(opt_view(*text))->Some_0,
            ),
            None => optional_timestamp_error(opt_view(*text)) is None,
        },
{
    match text {
        Some(t) => check_timestamp_field(field, t.as_str()),
        None => None,
    }
}

/// The texts of the resources, or the failure of the first that is no URI.
fn check_resources(resources: &Vec<Option<String>>) -> (r: Result<Vec<String>, SessionError>)
    ensures
        match r {
            Ok(texts) => all_resources_valid(entries_view(resources@)) && texts_view(texts@) == entry_texts(
                entries_view(resources@),
            ),
            Err(e) => !all_resources_valid(entries_view(resources@)) && Some(e@) == resource_failure(
                first_invalid_resource(entries_view(resources@)),
            ),
        },
{
    let ghost all = entries_view(resources@);
    let mut texts: Vec<String> = Vec::new();
    let mut i: usize = 0;
    while i < resources.len()
        invariant
            i <= resources@.len(),
            all == entries_view(resources@),
            texts@.len() == i,
            forall|j: int| 0 <= j < i ==> resource_failure(#[trigger] all[j]) is None,
            forall|j: int| 0 <= j < i ==> Some((#[trigger] texts@[j])@) == all[j],
        decreases resources@.len() - i,
    {
        let failure = match &resources[i] {
            None => Some(
                SessionError::new(ErrorKind::ResourceUri, String::from_str("error converting UTF-16 to UTF-8")),
            ),
            Some(text) => match check_uri(text.as_str()) {
                Some(detail) => Some(
                    SessionError::new(
                        ErrorKind::ResourceUri,
                        join2("unable to parse resource as uri: ", detail.as_str()),
                    ),
                ),
                None => {
                    texts.push(text.clone());
                    None
                },
            },
        };
        match failure {
            Some(e) => {
                proof {
                    assert(first_invalid_resource_at(all, i as int));
                    let chosen = choose|j: int| first_invalid_resource_at(all, j);
                    assert(first_invalid_resource_at(all, chosen));
                    assert(chosen == i);
                }
                return Err(e);
            },
            None => {},
        }
        i += 1;
    }
    assert(texts_view(texts@) =~= entry_texts(all));
    Ok(texts)
}

/// Builds the text of the sign-in message that delegates the grants to the
/// signer, with the given nonce.
pub fn build_message(config: &SiweConfig, signer_uri: &str, grants: &Vec<Grant>, nonce: &str) -> (r: Result<
    String,
    SessionError,
>)
    ensures
        text_result_view(r) == message_result(config@, signer_uri@, grants_view(grants@), nonce@),
{
    match check_uri(signer_uri) {
        Some(detail) => {
            return Err(
                SessionError::new(
                    ErrorKind::InvalidUri,
                    join2("Failed to convert URI string to RiString: ", detail.as_str()),
                ),
            );
        },
        None => {},
    }
    match check_authority(config.domain.as_str()) {
        Some(detail) => {
            return Err(
                SessionError::new(
                    ErrorKind::InvalidDomain,
                    join2("failed to parse the domain as an authority: ", detail.as_str()),
                ),
            );
        },
        None => {},
    }
    let address = match hex_to_bytes(config.address.as_str()) {
        Ok(address) => address,
        Err(e) => {
            return Err(e);
        },
    };
    match check_timestamp_field("issuedAt", config.issued_at.as_str()) {
        Some(e) => {
            return Err(e);
        },
        None => {},
    }
    match check_optional_timestamp("expirationTime", &config.expiration_time) {
        Some(e) => {
            return Err(e);
        },
        None => {},
    }
    match check_optional_timestamp("notBefore", &config.not_before) {
        Some(e) => {
            return Err(e);
        },
        None => {},
    }
    let resources = match &config.resources {
        Some(list) => match check_resources(list) {
            Ok(texts) => texts,
            Err(e) => {
                return Err(e);
            },
        },
        None => {
            assert(texts_view(Seq::<String>::empty()) =~= entry_texts(config@.resources));
            Vec::new()
        },
    };
    proof {
        lemma_one_extra_field(grants_view(grants@));
    }
    let builder = match encode_grants(grants) {
        Some(builder) => builder,
        None => {
            return Err(
                SessionError::new(ErrorKind::ActionEncoding, String::from_str("unable to encode the grants")),
            );
        },
    };
    let fields = SiweFields {
        domain: config.domain.clone(),
        address,
        statement: clone_opt(&config.statement),
        uri: String::from_str(signer_uri),
        chain_id: config.chain_id,
        nonce: String::from_str(nonce),
        issued_at: config.issued_at.clone(),
        expiration_time: clone_opt(&config.expiration_time),
        not_before: clone_opt(&config.not_before),
        request_id: clone_opt(&config.request_id),
        resources,
    };
    match render_message(&builder, fields) {
        Some(text) => Ok(text),
        None => Err(
            SessionError::new(ErrorKind::Serialization, String::from_str("unable to build siwe message")),
        ),
    }
}

} // verus!
