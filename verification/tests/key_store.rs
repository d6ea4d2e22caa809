use ssi_jwk::JWK;
use tinycloud_session::error::ErrorKind;
use tinycloud_session::store::{KeyStore, Session};

fn key() -> JWK {
    JWK::generate_ed25519().unwrap()
}

#[test]
fn empty_store_holds_nothing() {
    let store = KeyStore::empty();
    assert!(store.list().is_empty());
    assert!(!store.contains_key(&"default".to_string()));
    assert!(store.get(&"default".to_string()).is_none());
    let err = store.export(None).unwrap_err();
    assert_eq!(err.kind, ErrorKind::KeyNotFound);
    assert_eq!(err.detail, "key not found: default");
}

#[test]
fn create_stores_under_the_given_or_the_default_id() {
    let mut store = KeyStore::empty();
    assert_eq!(store.create(key(), None).unwrap(), "default");
    assert_eq!(store.create(key(), Some("second".to_string())).unwrap(), "second");
    let mut ids = store.list();
    ids.sort();
    assert_eq!(ids, vec!["default".to_string(), "second".to_string()]);
    let err = store.create(key(), Some("second".to_string())).unwrap_err();
    assert_eq!(err.kind, ErrorKind::DuplicateKey);
    assert_eq!(err.detail, "key already exists: second");
    assert_eq!(store.list().len(), 2);
}

#[test]
fn import_overrides_only_when_allowed() {
    let mut store = KeyStore::empty();
    let first = key();
    let second = key();
    store.import(first.clone(), Some("k".to_string()), true).unwrap();
    assert!(store.import(second.clone(), Some("k".to_string()), false).is_err());
    assert_eq!(store.export(Some("k".to_string())).unwrap().params, first.params);
    assert_eq!(store.import(second.clone(), Some("k".to_string()), true).unwrap(), "k");
    assert_eq!(store.export(Some("k".to_string())).unwrap().params, second.params);
    assert_eq!(store.list(), vec!["k".to_string()]);
}

#[test]
fn rename_to_the_same_id_is_refused() {
    let mut store = KeyStore::empty();
    store.create(key(), Some("a".to_string())).unwrap();
    let err = store.rename("a".to_string(), "a".to_string()).unwrap_err();
    assert_eq!(err.kind, ErrorKind::DuplicateKey);
    assert!(store.contains_key(&"a".to_string()));
}

#[test]
fn attachment_replaces_the_earlier_one() {
    let mut store = KeyStore::empty();
    store.create(key(), Some("a".to_string())).unwrap();
    store.attach_session(Some("a".to_string()), Session { key_id: None, delegation: "one".to_string() }).unwrap();
    store.attach_session(None, Session { key_id: Some("a".to_string()), delegation: "two".to_string() }).unwrap();
    let held = store.get(&"a".to_string()).unwrap();
    assert_eq!(held.session.as_ref().unwrap().delegation, "two");
    assert_eq!(held.key.key_id, Some("a".to_string()));
    assert_eq!(store.list().len(), 1);
    // the id that is given goes before the one that the session names
    store.create(key(), Some("b".to_string())).unwrap();
    let third = Session { key_id: Some("a".to_string()), delegation: "three".to_string() };
    store.attach_session(Some("b".to_string()), third).unwrap();
    assert_eq!(store.get(&"a".to_string()).unwrap().session.as_ref().unwrap().delegation, "two");
    assert_eq!(store.get(&"b".to_string()).unwrap().session.as_ref().unwrap().delegation, "three");
}

#[test]
fn attachment_creates_no_entry() {
    let mut store = KeyStore::empty();
    store.create(key(), Some("a".to_string())).unwrap();
    let proof = Session { key_id: Some("a".to_string()), delegation: "one".to_string() };
    assert!(store.attach_session(Some("b".to_string()), proof).is_ok());
    let err = store.attach_session(None, Session { key_id: None, delegation: "one".to_string() }).unwrap_err();
    assert_eq!(err.kind, ErrorKind::MissingKeyId);
    assert_eq!(store.list(), vec!["a".to_string()]);
    assert!(!store.contains_key(&"b".to_string()));
    assert!(store.export(Some("b".to_string())).is_err());
    assert!(store.get(&"a".to_string()).unwrap().session.is_none());
    assert_eq!(store.pending_session(&"b".to_string()).unwrap().delegation, "one");
    assert!(store.pending_session(&"a".to_string()).is_none());
    store.labels_hold();
}
