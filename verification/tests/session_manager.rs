use ssi_jwk::JWK;
use std::collections::HashSet;
use tinycloud_session::error::ErrorKind;
use tinycloud_session::manager::SessionManager;
use tinycloud_session::store::Session;

#[test]
fn test_new_session_key_manager() {
    let manager = SessionManager::new();
    assert!(manager.is_ok());
    let manager = manager.unwrap();
    let keys = manager.list_session_keys();
    assert_eq!(keys.len(), 1);
}

#[test]
fn test_create_session_key() {
    let mut manager = SessionManager::new().unwrap();
    let result = manager.create_session_key(Some("custom_key".to_string()));
    assert!(result.is_ok());
    assert!(manager.contains_key("custom_key"));
}

#[test]
fn test_create_duplicate_session_key() {
    let mut manager = SessionManager::new().unwrap();
    let _ = manager.create_session_key(Some("custom_key".to_string()));
    let result = manager.create_session_key(Some("custom_key".to_string()));
    assert!(result.is_err());
}

#[test]
fn test_import_session_key() {
    let mut manager = SessionManager::new().unwrap();
    let key = JWK::generate_ed25519().unwrap();
    let result = manager.import_session_key(key, Some("imported_key".to_string()), false);
    assert!(result.is_ok());
    assert!(manager.contains_key("imported_key"));
}

#[test]
fn test_list_session_keys() {
    let mut manager = SessionManager::new().unwrap();
    let _ = manager.create_session_key(Some("custom_key".to_string()));
    let keys = manager.list_session_keys();
    let mut key_set = HashSet::new();
    key_set.insert("default".to_string());
    key_set.insert("custom_key".to_string());
    assert_eq!(keys.into_iter().collect::<HashSet<_>>(), key_set);
}

#[test]
fn test_rename_session_key_id() {
    let mut manager = SessionManager::new().unwrap();
    let result = manager.rename_session_key_id("default".to_string(), "renamed_key".to_string());
    assert!(result.is_ok());
    assert!(!manager.contains_key("default"));
    assert!(manager.contains_key("renamed_key"));
}

#[test]
fn test_rename_nonexistent_session_key_id() {
    let mut manager = SessionManager::new().unwrap();
    let result = manager.rename_session_key_id("nonexistent_key".to_string(), "new_key".to_string());
    assert!(result.is_err());
}

#[test]
fn test_get_did() {
    let manager = SessionManager::new().unwrap();
    let result = manager.get_did(None);
    assert!(result.is_ok());
}

#[test]
fn test_get_private_key() {
    let manager = SessionManager::new().unwrap();
    let result = manager.get_private_key(None);
    assert!(result.is_ok());
}

#[test]
fn test_jwk() {
    let manager = SessionManager::new().unwrap();
    let result = manager.jwk(None);
    assert!(result.is_some());
    let jwk = result.unwrap();
    assert!(jwk.contains("crv\":\"Ed25519\""));
}

#[test]
fn test_import_existing_session_key_without_override() {
    let mut manager = SessionManager::new().unwrap();
    let key = JWK::generate_ed25519().unwrap();
    let result = manager.import_session_key(key.clone(), Some("imported_key".to_string()), false);
    assert!(result.is_ok());
    let result = manager.import_session_key(key, Some("imported_key".to_string()), false);
    assert!(result.is_err()); // expect error because override is false
}

#[test]
fn new_manager_holds_exactly_the_default_key() {
    let manager = SessionManager::new().unwrap();
    assert_eq!(manager.list_session_keys(), vec!["default".to_string()]);
    assert!(manager.get_private_key(None).is_ok());
    assert!(manager.capability().snapshot().is_empty());
}

#[test]
fn create_without_id_uses_the_default_id_and_is_refused() {
    let mut manager = SessionManager::new().unwrap();
    let err = manager.create_session_key(None).unwrap_err();
    assert_eq!(err.kind, ErrorKind::DuplicateKey);
    assert_eq!(err.detail, "key already exists: default");
    assert_eq!(manager.list_session_keys().len(), 1);
}

#[test]
fn duplicate_create_leaves_the_store_unchanged() {
    let mut manager = SessionManager::new().unwrap();
    assert_eq!(manager.create_session_key(Some("a".to_string())).unwrap(), "a");
    let before = manager.get_private_key(Some("a".to_string())).unwrap();
    let err = manager.create_session_key(Some("a".to_string())).unwrap_err();
    assert_eq!(err.kind, ErrorKind::DuplicateKey);
    assert_eq!(err.message(), "key already exists: a");
    assert_eq!(manager.list_session_keys().len(), 2);
    assert_eq!(manager.get_private_key(Some("a".to_string())).unwrap(), before);
}

#[test]
fn import_with_override_replaces_the_key() {
    let mut manager = SessionManager::new().unwrap();
    let first = JWK::generate_ed25519().unwrap();
    let second = JWK::generate_ed25519().unwrap();
    assert_eq!(manager.import_session_key(first.clone(), Some("k".to_string()), false).unwrap(), "k");
    let err = manager.import_session_key(second.clone(), Some("k".to_string()), false).unwrap_err();
    assert_eq!(err.kind, ErrorKind::DuplicateKey);
    let held = manager.get_private_key(Some("k".to_string())).unwrap();
    assert_eq!(held.params, first.params);
    assert_eq!(held.key_id, Some("k".to_string()));
    assert_eq!(manager.import_session_key(second.clone(), Some("k".to_string()), true).unwrap(), "k");
    let held = manager.get_private_key(Some("k".to_string())).unwrap();
    assert_eq!(held.params, second.params);
    assert_ne!(held.params, first.params);
    assert_eq!(held.key_id, Some("k".to_string()));
    assert_eq!(manager.list_session_keys().len(), 2);
}

#[test]
fn rename_moves_the_key_and_refuses_unknown_and_taken_ids() {
    let mut manager = SessionManager::new().unwrap();
    let key = manager.get_private_key(None).unwrap();
    manager.create_session_key(Some("other".to_string())).unwrap();

    let err = manager.rename_session_key_id("missing".to_string(), "x".to_string()).unwrap_err();
    assert_eq!(err.kind, ErrorKind::KeyNotFound);
    assert_eq!(err.detail, "Key missing does not exist.");
    let err = manager.rename_session_key_id("default".to_string(), "other".to_string()).unwrap_err();
    assert_eq!(err.kind, ErrorKind::DuplicateKey);
    assert_eq!(err.detail, "Key other already exists.");
    let mut ids = manager.list_session_keys();
    ids.sort();
    assert_eq!(ids, vec!["default".to_string(), "other".to_string()]);

    manager.rename_session_key_id("default".to_string(), "b".to_string()).unwrap();
    let mut ids = manager.list_session_keys();
    ids.sort();
    assert_eq!(ids, vec!["b".to_string(), "other".to_string()]);
    let moved = manager.get_private_key(Some("b".to_string())).unwrap();
    assert_eq!(moved.params, key.params);
    assert_eq!(key.key_id, Some("default".to_string()));
    assert_eq!(moved.key_id, Some("b".to_string()));
    let err = manager.get_private_key(None).unwrap_err();
    assert_eq!(err.kind, ErrorKind::KeyNotFound);
    assert_eq!(err.detail, "key not found: default");
}

#[test]
fn export_then_import_under_a_new_id_keeps_the_key() {
    let mut manager = SessionManager::new().unwrap();
    let exported = manager.get_private_key(None).unwrap();
    manager.import_session_key(exported.clone(), Some("copy".to_string()), false).unwrap();
    let copy = manager.get_private_key(Some("copy".to_string())).unwrap();
    assert_eq!(copy.params, exported.params);
    assert_eq!(copy.key_id, Some("copy".to_string()));
    assert_eq!(manager.get_private_key(None).unwrap(), exported);
    assert_eq!(manager.get_did(None).unwrap(), manager.get_did(Some("copy".to_string())).unwrap());
}

#[test]
fn stored_keys_carry_their_id_as_label() {
    let mut manager = SessionManager::new().unwrap();
    assert_eq!(manager.get_private_key(None).unwrap().key_id, Some("default".to_string()));
    manager.create_session_key(Some("made".to_string())).unwrap();
    assert_eq!(manager.get_private_key(Some("made".to_string())).unwrap().key_id, Some("made".to_string()));
    let mut labelled = JWK::generate_ed25519().unwrap();
    labelled.key_id = Some("its own label".to_string());
    manager.import_session_key(labelled, Some("given".to_string()), false).unwrap();
    assert_eq!(manager.session_info("given").unwrap().key.key_id, Some("given".to_string()));
}

#[test]
fn jwk_text_carries_the_id_as_its_label() {
    let mut manager = SessionManager::new().unwrap();
    manager.rename_session_key_id("default".to_string(), "moved".to_string()).unwrap();
    let text = manager.jwk(Some("moved".to_string())).unwrap();
    let parsed: JWK = serde_json::from_str(&text).unwrap();
    assert_eq!(parsed.key_id, Some("moved".to_string()));
    assert!(manager.jwk(None).is_none());
}

#[test]
fn did_of_an_ed25519_key_is_a_did_key() {
    let manager = SessionManager::new().unwrap();
    let did = manager.get_did(None).unwrap();
    assert!(did.starts_with("did:key:z6Mk"));
    let err = manager.get_did(Some("nobody".to_string())).unwrap_err();
    assert_eq!(err.kind, ErrorKind::KeyNotFound);
}

#[test]
fn did_of_a_symmetric_key_is_refused() {
    let mut manager = SessionManager::new().unwrap();
    let key: JWK = serde_json::from_str("{\"kty\":\"oct\",\"k\":\"AAECAw\"}").unwrap();
    manager.import_session_key(key, Some("sym".to_string()), false).unwrap();
    let err = manager.get_did(Some("sym".to_string())).unwrap_err();
    assert_eq!(err.kind, ErrorKind::IdentityDerivation);
    assert!(err.detail.starts_with("unable to generate the DID of the session key: "));
}

#[test]
fn session_is_attached_to_the_named_or_recovered_id() {
    let mut manager = SessionManager::new().unwrap();
    let nameless = Session { key_id: None, delegation: "proof".to_string() };
    let err = manager.update_session(nameless, None).unwrap_err();
    assert_eq!(err.kind, ErrorKind::MissingKeyId);
    assert_eq!(err.detail, "No key_id provided");

    assert!(manager.session_info("default").unwrap().session.is_none());

    let key = manager.get_private_key(None).unwrap();
    let named = Session { key_id: Some("default".to_string()), delegation: "proof".to_string() };
    manager.update_session(named, None).unwrap();
    assert_eq!(manager.get_private_key(None).unwrap(), key);
    assert_eq!(manager.list_session_keys().len(), 1);
    let held = manager.session_info("default").unwrap();
    assert_eq!(held.key, key);
    assert_eq!(held.session.as_ref().unwrap().delegation, "proof");

    let later = Session { key_id: None, delegation: "later proof".to_string() };
    manager.update_session(later, Some("default".to_string())).unwrap();
    let held = manager.session_info("default").unwrap();
    assert_eq!(held.key, key);
    assert_eq!(held.session.as_ref().unwrap().delegation, "later proof");

    assert!(manager.session_info("nowhere").is_none());
}

#[test]
fn session_for_an_id_that_is_not_held_is_kept_beside_the_keys() {
    let mut manager = SessionManager::new().unwrap();
    let other = Session { key_id: Some("default".to_string()), delegation: "proof".to_string() };
    assert!(manager.update_session(other, Some("elsewhere".to_string())).is_ok());
    let named = Session { key_id: Some("nowhere".to_string()), delegation: "other proof".to_string() };
    assert!(manager.update_session(named, None).is_ok());

    assert!(!manager.contains_key("elsewhere"));
    assert!(!manager.contains_key("nowhere"));
    assert_eq!(manager.list_session_keys(), vec!["default".to_string()]);
    assert!(manager.session_info("elsewhere").is_none());
    assert!(manager.session_info("default").unwrap().session.is_none());
    let err = manager.get_private_key(Some("elsewhere".to_string())).unwrap_err();
    assert_eq!(err.kind, ErrorKind::KeyNotFound);
    assert_eq!(err.detail, "key not found: elsewhere");
    for id in manager.list_session_keys() {
        assert!(manager.get_private_key(Some(id)).is_ok());
    }

    assert_eq!(manager.pending_session("elsewhere").unwrap().delegation, "proof");
    assert_eq!(manager.pending_session("nowhere").unwrap().delegation, "other proof");
    assert!(manager.pending_session("default").is_none());

    let later = Session { key_id: None, delegation: "later proof".to_string() };
    assert!(manager.update_session(later, Some("elsewhere".to_string())).is_ok());
    assert_eq!(manager.pending_session("elsewhere").unwrap().delegation, "later proof");
    assert_eq!(manager.pending_session("nowhere").unwrap().delegation, "other proof");
}

#[test]
fn only_a_session_without_any_id_is_refused() {
    let mut manager = SessionManager::new().unwrap();
    for (given, named) in [(Some("a"), Some("b")), (Some("a"), None), (None, Some("b")), (Some("default"), None)] {
        let session = Session { key_id: named.map(|s| s.to_string()), delegation: "proof".to_string() };
        assert!(manager.update_session(session, given.map(|s| s.to_string())).is_ok());
    }
    let session = Session { key_id: None, delegation: "proof".to_string() };
    let err = manager.update_session(session, None).unwrap_err();
    assert_eq!(err.kind, ErrorKind::MissingKeyId);
    assert_eq!(err.detail, "No key_id provided");
    assert_eq!(manager.list_session_keys(), vec!["default".to_string()]);
}

#[test]
fn a_key_that_is_stored_starts_without_the_session_kept_for_its_id() {
    let mut manager = SessionManager::new().unwrap();
    let early = Session { key_id: None, delegation: "early".to_string() };
    manager.update_session(early, Some("k".to_string())).unwrap();
    manager.create_session_key(Some("k".to_string())).unwrap();
    assert!(manager.session_info("k").unwrap().session.is_none());
    assert!(manager.pending_session("k").is_none());

    let waiting = Session { key_id: None, delegation: "waiting".to_string() };
    manager.update_session(waiting, Some("target".to_string())).unwrap();
    let moved = Session { key_id: None, delegation: "moved".to_string() };
    manager.update_session(moved, Some("k".to_string())).unwrap();
    manager.rename_session_key_id("k".to_string(), "target".to_string()).unwrap();
    assert_eq!(manager.session_info("target").unwrap().session.as_ref().unwrap().delegation, "moved");
    assert!(manager.pending_session("target").is_none());
}

#[test]
fn rename_takes_the_session_along_and_import_drops_it() {
    let mut manager = SessionManager::new().unwrap();
    let proof = Session { key_id: None, delegation: "proof".to_string() };
    manager.update_session(proof, Some("default".to_string())).unwrap();
    manager.rename_session_key_id("default".to_string(), "moved".to_string()).unwrap();
    assert_eq!(manager.session_info("moved").unwrap().session.as_ref().unwrap().delegation, "proof");
    let key = JWK::generate_ed25519().unwrap();
    manager.import_session_key(key, Some("moved".to_string()), true).unwrap();
    assert!(manager.session_info("moved").unwrap().session.is_none());
}
