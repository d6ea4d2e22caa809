//! The session manager: one key store and one capability accumulator, and
//! the messages that delegate the accumulated grants to a stored key.
use crate::capability::{add_result, add_state, every_target, CapabilityAccumulator, GrantView};
use crate::capability::{extra_fields_result, extra_fields_state};
use crate::error::{ErrorKind, Failure, SessionError};
use crate::key_material::{did_key_of, did_of_key, generate_ed25519, jwk_json, key_to_json, key_view};
use crate::key_material::KeyView;
use crate::message::{build_message, message_result, SiweConfig, SiweConfigView};
use crate::signing::text_result_view;
use crate::store::{attach_pending, attach_result, attach_state, create_result, create_state, export_result};
use crate::store::{fresh_info, import_pending, labels_synchronized, rename_pending, PendingMap, SessionView};
use crate::store::{default_key_id, id_result_view, import_result, import_state, key_result_view};
use crate::store::{lists_id, no_id_twice, rename_result, rename_state, resolve_key_id, unit_result_view};
use crate::store::{KeyMap, KeyStore, Session, SessionInfo, SessionInfoView};
use crate::syntax::{fresh_nonce, is_fresh_nonce};
use crate::text::{join2, opt_view, texts_view};
use ssi_jwk::JWK;
use vstd::prelude::*;

verus! {

/// The keys of a signer and the grants that its next message delegates.
pub struct SessionManager {
    sessions: KeyStore,
    capability: CapabilityAccumulator,
}

/// The failure for a key that could not be generated.
pub open spec fn key_not_generated(detail: Seq<char>) -> Failure {
    Failure { kind: ErrorKind::KeyGeneration, detail: "failed to generate session key: "@ + detail }
}

/// The failure for a key that has no identifier.
pub open spec fn identity_not_derived(detail: Seq<char>) -> Failure {
    Failure {
        kind: ErrorKind::IdentityDerivation,
        detail: "unable to generate the DID of the session key: "@ + detail,
    }
}

/// What holds of every key that is generated here: it has an identifier.
pub open spec fn is_generated_key(key: KeyView) -> bool {
    did_key_of(key.material) is Ok
}

/// The store of a new manager whose default key is `key`: that key, under the
/// default id, and nothing else.
pub open spec fn initial_keys(key: KeyView) -> KeyMap {
    Map::<Seq<char>, SessionInfoView>::empty().insert(default_key_id(), fresh_info(key, default_key_id()))
}

/// The decentralized identifier of the key held under the id, or why there
/// is none: no key is held there, or the key has no identifier.
pub open spec fn did_result(keys: KeyMap, key_id: Option<Seq<char>>) -> Result<Seq<char>, Failure> {
    match export_result(keys, key_id) {
        Err(failure) => Err(failure),
        Ok(key) => match did_key_of(key.material) {
            Ok(did) => Ok(did),
            Err(detail) => Err(identity_not_derived(detail)),
        },
    }
}

/// The JSON text of the key held under the id; none where no key is held
/// there or the key has no JSON text.
pub open spec fn jwk_text(keys: KeyMap, key_id: Option<Seq<char>>) -> Option<Seq<char>> {
    match export_result(keys, key_id) {
        Err(_) => None,
        Ok(key) => match jwk_json(key.material, key.label) {
            Ok(text) => Some(text),
            Err(_) => None,
        },
    }
}

/// Who signs: the URI given, else the identifier of the key held under the
/// id.
pub open spec fn signer_of(keys: KeyMap, key_id: Option<Seq<char>>, custom_uri: Option<Seq<char>>) -> Result<
    Seq<char>,
    Failure,
> {
    match custom_uri {
        Some(uri) => Ok(uri),
        None => did_result(keys, key_id),
    }
}

/// Whether `nonce` can stand in a message for a request with the given
/// nonce: the given one where there is one, else a fresh one.
pub open spec fn nonce_fits(given: Option<Seq<char>>, nonce: Seq<char>) -> bool {
    match given {
        Some(n) => nonce == n,
        None => is_fresh_nonce(nonce),
    }
}

/// Whether `outcome` is what building the message comes to for the signer
/// `uri` and a nonce that fits the request.
pub open spec fn built_with(
    config: SiweConfigView,
    uri: Seq<char>,
    grants: Seq<GrantView>,
    nonce: Seq<char>,
    outcome: Result<Seq<char>, Failure>,
) -> bool {
    nonce_fits(config.nonce, nonce) && outcome == message_result(config, uri, grants, nonce)
}

/// Whether `outcome` is what building a message can come to: the failure of
/// the signer where there is none, else what building comes to for that
/// signer and a nonce that fits the request.
pub open spec fn is_build_outcome(
    keys: KeyMap,
    grants: Seq<GrantView>,
    config: SiweConfigView,
    key_id: Option<Seq<char>>,
    custom_uri: Option<Seq<char>>,
    outcome: Result<Seq<char>, Failure>,
) -> bool {
    match signer_of(keys, key_id, custom_uri) {
        Err(failure) => outcome == Err::<Seq<char>, Failure>(failure),
        Ok(uri) => exists|nonce: Seq<char>| #[trigger] built_with(config, uri, grants, nonce, outcome),
    }
}

impl SessionManager {
    /// What the key store holds under each id.
    pub closed spec fn keys(&self) -> KeyMap {
        self.sessions@
    }

    /// The sessions that are kept for ids that are not held.
    pub closed spec fn pending_sessions(&self) -> PendingMap {
        self.sessions.pending()
    }

    /// The grants that were accumulated, in their order.
    pub closed spec fn grants(&self) -> Seq<GrantView> {
        self.capability@
    }

    /// Tells that every key that is held is labelled with its id; it does
    /// nothing when it runs.
    pub fn labels_hold(&self)
        ensures
            labels_synchronized(self.keys()),
    {
        self.sessions.labels_hold();
    }

    /// A manager whose only key is `key`, under the default id, and that has
    /// no grants.
    pub fn with_default_key(key: JWK) -> (manager: SessionManager)
        ensures
            manager.keys() == initial_keys(key_view(key)),
            manager.pending_sessions() == Map::<Seq<char>, SessionView>::empty(),
            manager.grants() == Seq::<GrantView>::empty(),
            labels_synchronized(manager.keys()),
    {
        let mut sessions = KeyStore::empty();
        let _ = sessions.import(key, None, false);
        assert(sessions.pending() =~= Map::<Seq<char>, SessionView>::empty());
        SessionManager { sessions, capability: CapabilityAccumulator::new() }
    }

    /// A manager with one fresh key, under the default id, and no grants.
    pub fn new() -> (r: Result<SessionManager, SessionError>)
        ensures
            r matches Ok(manager) && {
                &&& manager.grants() == Seq::<GrantView>::empty()
                &&& manager.pending_sessions() == Map::<Seq<char>, SessionView>::empty()
                &&& labels_synchronized(manager.keys())
                &&& exists|key: KeyView| is_generated_key(key) && manager.keys() == #[trigger] initial_keys(key)
            },
    {
        match generate_ed25519() {
            Ok(key) => {
                let manager = SessionManager::with_default_key(key);
                assert(is_generated_key(key_view(key)) && manager.keys() == initial_keys(key_view(key)));
                Ok(manager)
            },
            Err(detail) => Err(
                SessionError::new(
                    ErrorKind::KeyGeneration,
                    join2("failed to generate session key: ", detail.as_str()),
                ),
            ),
        }
    }

    /// Drops every accumulated grant.
    pub fn reset_capability(&mut self)
        ensures
            final(self).grants() == Seq::<GrantView>::empty(),
            final(self).keys() == old(self).keys(),
            final(self).pending_sessions() == old(self).pending_sessions(),
    {
        self.capability.reset();
    }

    /// The accumulator, for reading the grants.
    pub fn capability(&self) -> (acc: &CapabilityAccumulator)
        ensures
            acc@ == self.grants(),
    {
        &self.capability
    }

    /// Grants each action of the batch on every target of the namespace, or
    /// nothing where the batch is refused: as `try_add_targeted_actions` on
    /// the target `*`.
    pub fn try_add_default_actions(&mut self, namespace: &str, default_actions: &Vec<String>) -> (r: Result<
        (),
        SessionError,
    >)
        ensures
            unit_result_view(r) == add_result(namespace@, every_target(), texts_view(default_actions@)),
            final(self).grants() == add_state(
                old(self).grants(),
                namespace@,
                every_target(),
                texts_view(default_actions@),
            ),
            final(self).keys() == old(self).keys(),
            final(self).pending_sessions() == old(self).pending_sessions(),
    {
        self.capability.with_default_actions(namespace, default_actions)
    }

    /// As `try_add_default_actions`; tells only whether the batch was added.
    pub fn add_default_actions(&mut self, namespace: &str, default_actions: Vec<String>) -> (added: bool)
        ensures
            added == add_result(namespace@, every_target(), texts_view(default_actions@)) is Ok,
            final(self).grants() == add_state(
                old(self).grants(),
                namespace@,
                every_target(),
                texts_view(default_actions@),
            ),
            final(self).keys() == old(self).keys(),
            final(self).pending_sessions() == old(self).pending_sessions(),
    {
        self.try_add_default_actions(namespace, &default_actions).is_ok()
    }

    /// Grants each action of the batch on the one target in the namespace,
    /// or nothing where the batch is refused.
    pub fn try_add_targeted_actions(&mut self, namespace: &str, target: &str, actions: &Vec<String>) -> (r:
        Result<(), SessionError>)
        ensures
            unit_result_view(r) == add_result(namespace@, target@, texts_view(actions@)),
            final(self).grants() == add_state(
                old(self).grants(),
                namespace@,
                target@,
                texts_view(actions@),
            ),
            final(self).keys() == old(self).keys(),
            final(self).pending_sessions() == old(self).pending_sessions(),
    {
        self.capability.with_targeted_actions(namespace, target, actions)
    }

    /// As `try_add_targeted_actions`; tells only whether the batch was added.
    pub fn add_targeted_actions(&mut self, namespace: &str, target: String, actions: Vec<String>) -> (added:
        bool)
        ensures
            added == add_result(namespace@, target@, texts_view(actions@)) is Ok,
            final(self).grants() == add_state(
                old(self).grants(),
                namespace@,
                target@,
                texts_view(actions@),
            ),
            final(self).keys() == old(self).keys(),
            final(self).pending_sessions() == old(self).pending_sessions(),
    {
        self.try_add_targeted_actions(namespace, target.as_str(), &actions).is_ok()
    }

    /// Attaches extra fields, the text of a JSON object, to the last grant
    /// that was added in the namespace.
    pub fn try_add_extra_fields(&mut self, namespace: &str, fields: &str) -> (r: Result<(), SessionError>)
        ensures
            unit_result_view(r) == extra_fields_result(old(self).grants(), namespace@, fields@),
            final(self).grants() == extra_fields_state(old(self).grants(), namespace@, fields@),
            final(self).keys() == old(self).keys(),
            final(self).pending_sessions() == old(self).pending_sessions(),
    {
        self.capability.with_extra_fields(namespace, fields)
    }

    /// As `try_add_extra_fields`; tells only whether the fields were attached.
    pub fn add_extra_fields(&mut self, namespace: &str, fields: &str) -> (added: bool)
        ensures
            added == extra_fields_result(old(self).grants(), namespace@, fields@) is Ok,
            final(self).grants() == extra_fields_state(old(self).grants(), namespace@, fields@),
            final(self).keys() == old(self).keys(),
            final(self).pending_sessions() == old(self).pending_sessions(),
    {
        self.try_add_extra_fields(namespace, fields).is_ok()
    }

    /// What is held under the id, if anything.
    pub fn session_info(&self, key_id: &str) -> (info: Option<&SessionInfo>)
        ensures
            match info {
                Some(held) => self.keys().dom().contains(key_id@) && held@ == self.keys()[key_id@]
                    && held@.key.label == Some(key_id@),
                None => !self.keys().dom().contains(key_id@),
            },
    {
        let id = String::from_str(key_id);
        self.sessions.get(&id)
    }

    /// Whether anything is held under the id.
    pub fn contains_key(&self, key_id: &str) -> (held: bool)
        ensures
            held == self.keys().dom().contains(key_id@),
    {
        self.sessions.contains_key(&String::from_str(key_id))
    }

    /// Stores the fresh key `key` under the id, or under the default id
    /// where none is given, unless the id is already held.
    pub fn create_session_key_with(&mut self, key: JWK, key_id: Option<String>) -> (r: Result<
        String,
        SessionError,
    >)
        ensures
            id_result_view(r) == create_result(old(self).keys(), opt_view(key_id)),
            final(self).keys() == create_state(old(self).keys(), key_view(key), opt_view(key_id)),
            final(self).pending_sessions() == import_pending(
                old(self).keys(),
                old(self).pending_sessions(),
                opt_view(key_id),
                false,
            ),
            final(self).grants() == old(self).grants(),
            labels_synchronized(final(self).keys()),
    {
        self.sessions.create(key, key_id)
    }

    /// Generates a key and stores it under the id, or under the default id
    /// where none is given. An id that is already held is refused before any
    /// key is generated.
    pub fn create_session_key(&mut self, key_id: Option<String>) -> (r: Result<String, SessionError>)
        ensures
            id_result_view(r) == create_result(old(self).keys(), opt_view(key_id)),
            match r {
                Ok(_) => exists|key: KeyView|
                    is_generated_key(key) && final(self).keys() == #[trigger] create_state(
                        old(self).keys(),
                        key,
                        opt_view(key_id),
                    ),
                Err(_) => final(self).keys() == old(self).keys(),
            },
            final(self).pending_sessions() == import_pending(
                old(self).keys(),
                old(self).pending_sessions(),
                opt_view(key_id),
                false,
            ),
            final(self).grants() == old(self).grants(),
            labels_synchronized(final(self).keys()),
    {
        let id = match &key_id {
            Some(id) => id.clone(),
            None => String::from_str("default"),
        };
        if self.sessions.contains_key(&id) {
            self.labels_hold();
            return Err(
                SessionError::new(ErrorKind::DuplicateKey, join2("key already exists: ", id.as_str())),
            );
        }
        match generate_ed25519() {
            Ok(key) => {
                let r = self.create_session_key_with(key, key_id);
                assert(is_generated_key(key_view(key)) && self.keys() == create_state(
                    old(self).keys(),
                    key_view(key),
                    opt_view(key_id),
                ));
                r
            },
            Err(detail) => Err(
                SessionError::new(
                    ErrorKind::KeyGeneration,
                    join2("failed to generate session key: ", detail.as_str()),
                ),
            ),
        }
    }

    /// Stores `key`, labelled with the id, under the id, or under the default
    /// id where none is given. An id that is already held is overridden only
    /// where `override_key_id` says so.
    pub fn import_session_key(&mut self, key: JWK, key_id: Option<String>, override_key_id: bool) -> (r:
        Result<String, SessionError>)
        ensures
            id_result_view(r) == import_result(old(self).keys(), opt_view(key_id), override_key_id),
            final(self).keys() == import_state(
                old(self).keys(),
                key_view(key),
                opt_view(key_id),
                override_key_id,
            ),
            final(self).pending_sessions() == import_pending(
                old(self).keys(),
                old(self).pending_sessions(),
                opt_view(key_id),
                override_key_id,
            ),
            final(self).grants() == old(self).grants(),
            labels_synchronized(final(self).keys()),
    {
        self.sessions.import(key, key_id, override_key_id)
    }

    /// The ids that are held, each once, in no particular order.
    pub fn list_session_keys(&self) -> (ids: Vec<String>)
        ensures
            no_id_twice(ids@),
            forall|id: Seq<char>| lists_id(ids@, id) <==> self.keys().dom().contains(id),
    {
        self.sessions.list()
    }

    /// Moves what is held under the old id, the session included, to the new
    /// one, and labels the key with the new id.
    pub fn rename_session_key_id(&mut self, old_key_id: String, new_key_id: String) -> (r: Result<
        (),
        SessionError,
    >)
        ensures
            unit_result_view(r) == rename_result(old(self).keys(), old_key_id@, new_key_id@),
            final(self).keys() == rename_state(old(self).keys(), old_key_id@, new_key_id@),
            final(self).pending_sessions() == rename_pending(
                old(self).keys(),
                old(self).pending_sessions(),
                old_key_id@,
                new_key_id@,
            ),
            final(self).grants() == old(self).grants(),
            labels_synchronized(final(self).keys()),
    {
        self.sessions.rename(old_key_id, new_key_id)
    }

    /// The key held under the id, or under the default id where none is
    /// given. Its label is the id.
    pub fn get_private_key(&self, key_id: Option<String>) -> (r: Result<JWK, SessionError>)
        ensures
            key_result_view(r) == export_result(self.keys(), opt_view(key_id)),
            r matches Ok(key) ==> key_view(key).label == Some(resolve_key_id(opt_view(key_id))),
    {
        self.sessions.export(key_id)
    }

    /// The decentralized identifier of the key held under the id, or under
    /// the default id where none is given.
    pub fn get_did(&self, key_id: Option<String>) -> (r: Result<String, SessionError>)
        ensures
            text_result_view(r) == did_result(self.keys(), opt_view(key_id)),
    {
        match self.get_private_key(key_id) {
            Ok(key) => match did_of_key(&key) {
                Ok(did) => Ok(did),
                Err(detail) => Err(
                    SessionError::new(
                        ErrorKind::IdentityDerivation,
                        join2("unable to generate the DID of the session key: ", detail.as_str()),
                    ),
                ),
            },
            Err(e) => Err(e),
        }
    }

    /// The JSON text of the key held under the id. There is none where no key
    /// is held under the id.
    pub fn jwk(&self, key_id: Option<String>) -> (text: Option<String>)
        ensures
            opt_view(text) == jwk_text(self.keys(), opt_view(key_id)),
    {
        match self.get_private_key(key_id) {
            Ok(key) => match key_to_json(&key) {
                Ok(text) => Some(text),
                Err(_) => None,
            },
            Err(_) => None,
        }
    }

    /// Attaches the session to the id given, else to the id that the session
    /// names. Where the id is not held, the session is kept for it beside the
    /// keys, and the id does not come to be held.
    pub fn update_session(&mut self, session: Session, key_id: Option<String>) -> (r: Result<
        (),
        SessionError,
    >)
        ensures
            unit_result_view(r) == attach_result(opt_view(key_id), session@),
            final(self).keys() == attach_state(old(self).keys(), opt_view(key_id), session@),
            final(self).pending_sessions() == attach_pending(
                old(self).keys(),
                old(self).pending_sessions(),
                opt_view(key_id),
                session@,
            ),
            final(self).grants() == old(self).grants(),
            labels_synchronized(final(self).keys()),
    {
        self.sessions.attach_session(key_id, session)
    }

    /// The session that is kept for an id that is not held, if there is one.
    pub fn pending_session(&self, key_id: &str) -> (session: Option<&Session>)
        ensures
            match session {
                Some(kept) => self.pending_sessions().dom().contains(key_id@) && kept@
                    == self.pending_sessions()[key_id@],
                None => !self.pending_sessions().dom().contains(key_id@),
            },
    {
        let id = String::from_str(key_id);
        self.sessions.pending_session(&id)
    }

    /// Builds the text of the sign-in message that delegates the accumulated
    /// grants. The signer is `custom_uri` where it is given, else the
    /// identifier of the key held under the id; the nonce is that of the
    /// request where it has one, else a fresh one.
    pub fn build(&self, config: &SiweConfig, key_id: Option<String>, custom_uri: Option<String>) -> (r:
        Result<String, SessionError>)
        ensures
            is_build_outcome(
                self.keys(),
                self.grants(),
                config@,
                opt_view(key_id),
                opt_view(custom_uri),
                text_result_view(r),
            ),
    {
        let ghost id_view = opt_view(key_id);
        let ghost custom_view = opt_view(custom_uri);
        let ghost signer = signer_of(self.keys(), id_view, custom_view);
        let uri = match custom_uri {
            Some(uri) => uri,
            None => match self.get_did(key_id) {
                Ok(did) => did,
                Err(e) => {
                    return Err(e);
                },
            },
        };
        let nonce = match &config.nonce {
            Some(nonce) => nonce.clone(),
            None => fresh_nonce(),
        };
        let r = build_message(config, uri.as_str(), self.capability.snapshot(), nonce.as_str());
        assert(signer == Ok::<Seq<char>, Failure>(uri@));
        assert(built_with(config@, uri@, self.grants(), nonce@, text_result_view(r)));
        assert(signer->Ok_0 == uri@);
        r
    }
}

} // verus!
