use tinycloud_session::capability::{is_valid_action, CapabilityAccumulator};
use tinycloud_session::error::ErrorKind;
use tinycloud_session::manager::SessionManager;

fn texts(items: &[&str]) -> Vec<String> {
    items.iter().map(|s| s.to_string()).collect()
}

fn snapshot(acc: &CapabilityAccumulator) -> Vec<(String, String, String, Option<String>)> {
    acc.snapshot()
        .iter()
        .map(|g| (g.namespace.clone(), g.target.clone(), g.action.clone(), g.extra_fields.clone()))
        .collect()
}

#[test]
fn actions_are_made_of_action_characters() {
    for ok in ["read", "kv/put", "tinycloud.kv/get", "a-b_c.d+e*f/g", "9"] {
        assert!(is_valid_action(ok), "{}", ok);
    }
    for bad in ["", "read write", "a,b", "put\n", "ré"] {
        assert!(!is_valid_action(bad), "{}", bad);
    }
}

#[test]
fn default_actions_are_added_in_order_on_every_target() {
    let mut acc = CapabilityAccumulator::new();
    acc.with_default_actions("kv", &texts(&["read", "write"])).unwrap();
    let grants = acc.snapshot();
    assert_eq!(grants.len(), 2);
    assert_eq!(grants[0].namespace, "kv");
    assert_eq!(grants[0].target, "kv:*");
    assert_eq!(grants[0].action, "read");
    assert_eq!(grants[0].extra_fields, None);
    assert_eq!(grants[1].target, "kv:*");
    assert_eq!(grants[1].action, "write");
}

#[test]
fn targeted_actions_name_their_target_as_given() {
    let mut acc = CapabilityAccumulator::new();
    acc.with_default_actions("kv", &texts(&["read"])).unwrap();
    acc.with_targeted_actions("kv", "photos", &texts(&["list"])).unwrap();
    acc.with_targeted_actions("kepler", "ens:example.eth://default/kv/", &texts(&["get"])).unwrap();
    let grants = acc.snapshot();
    assert_eq!(grants.len(), 3);
    assert_eq!(grants[1].namespace, "kv");
    assert_eq!(grants[1].target, "kv:photos");
    assert_eq!(grants[1].action, "list");
    assert_eq!(grants[2].target, "kepler:ens:example.eth://default/kv/");
}

#[test]
fn the_target_star_is_every_target() {
    let mut by_default = CapabilityAccumulator::new();
    let mut by_target = CapabilityAccumulator::new();
    by_default.with_default_actions("kv", &texts(&["read", "write"])).unwrap();
    by_target.with_targeted_actions("kv", "*", &texts(&["read", "write"])).unwrap();
    assert_eq!(snapshot(&by_default), snapshot(&by_target));
    assert!(by_default.with_default_actions("not a uri", &texts(&["read"])).is_err());
    assert!(by_target.with_targeted_actions("not a uri", "*", &texts(&["read"])).is_err());
    assert_eq!(snapshot(&by_default), snapshot(&by_target));
}

#[test]
fn namespace_is_whatever_makes_the_resource_a_uri() {
    let mut acc = CapabilityAccumulator::new();
    for namespace in ["kv", "my.ns", "a+b", "a--b", "my-namespace", "urn:x", "https://example.com/a"] {
        assert!(acc.with_default_actions(namespace, &texts(&["read"])).is_ok(), "{}", namespace);
        assert!(acc.with_targeted_actions(namespace, "photos", &texts(&["read"])).is_ok(), "{}", namespace);
    }
    assert_eq!(acc.snapshot().len(), 14);
    assert_eq!(acc.snapshot()[2].namespace, "my.ns");
    assert_eq!(acc.snapshot()[2].target, "my.ns:*");
    assert_eq!(acc.snapshot()[3].target, "my.ns:photos");
    for namespace in ["", "7up", "-x", "not a uri", "é"] {
        let err = acc.with_default_actions(namespace, &texts(&["read"])).unwrap_err();
        assert_eq!(err.kind, ErrorKind::InvalidNamespace, "{}", namespace);
    }
    assert_eq!(acc.snapshot().len(), 14);
}

#[test]
fn empty_batch_adds_nothing_and_is_no_error() {
    let mut acc = CapabilityAccumulator::new();
    acc.with_default_actions("kv", &texts(&["read"])).unwrap();
    assert!(acc.with_default_actions("kv", &Vec::new()).is_ok());
    assert!(acc.with_default_actions("not a uri", &Vec::new()).is_ok());
    assert!(acc.with_targeted_actions("kv", "photos", &Vec::new()).is_ok());
    assert_eq!(acc.snapshot().len(), 1);
}

#[test]
fn invalid_namespace_is_refused_and_nothing_is_added() {
    let mut acc = CapabilityAccumulator::new();
    acc.with_default_actions("kv", &texts(&["read"])).unwrap();
    let before = snapshot(&acc);
    let err = acc.with_default_actions("not a uri", &texts(&["read"])).unwrap_err();
    assert_eq!(err.kind, ErrorKind::InvalidNamespace);
    assert_eq!(err.detail, "Failed to parse URI: Invalid IRI");
    assert_eq!(snapshot(&acc), before);
    assert_eq!(acc.snapshot().len(), 1);
    assert_eq!(acc.snapshot()[0].action, "read");
}

#[test]
fn resource_that_is_no_uri_is_refused() {
    let mut acc = CapabilityAccumulator::new();
    let err = acc.with_default_actions("7up", &texts(&["read"])).unwrap_err();
    assert_eq!(err.kind, ErrorKind::InvalidNamespace);
    assert_eq!(err.detail, "Failed to parse URI: Invalid IRI");
    let err = acc.with_targeted_actions("kv", "no spaces please", &texts(&["read"])).unwrap_err();
    assert_eq!(err.kind, ErrorKind::InvalidNamespace);
    assert!(acc.snapshot().is_empty());
}

#[test]
fn resource_is_checked_before_the_actions() {
    let mut acc = CapabilityAccumulator::new();
    let err = acc.with_default_actions("not a uri", &texts(&["not valid"])).unwrap_err();
    assert_eq!(err.kind, ErrorKind::InvalidNamespace);
}

#[test]
fn one_invalid_action_refuses_the_whole_batch() {
    let mut acc = CapabilityAccumulator::new();
    let err = acc.with_default_actions("kv", &texts(&["read", "not valid", "", "write"])).unwrap_err();
    assert_eq!(err.kind, ErrorKind::ActionEncoding);
    assert_eq!(err.detail, "Failed to add action: not valid");
    assert!(acc.snapshot().is_empty());
}

#[test]
fn extra_fields_go_to_the_last_grant_of_the_namespace() {
    let mut acc = CapabilityAccumulator::new();
    acc.with_default_actions("kv", &texts(&["read", "write"])).unwrap();
    acc.with_default_actions("files", &texts(&["list"])).unwrap();
    acc.with_extra_fields("kv", "{\"parent\":\"bafy\"}").unwrap();
    let grants = acc.snapshot();
    assert_eq!(grants[0].extra_fields, None);
    assert_eq!(grants[1].extra_fields, Some("{\"parent\":\"bafy\"}".to_string()));
    assert_eq!(grants[1].target, "kv:*");
    assert_eq!(grants[1].action, "write");
    assert_eq!(grants[2].extra_fields, None);
}

#[test]
fn extra_fields_must_be_a_json_object_in_a_known_namespace() {
    let mut acc = CapabilityAccumulator::new();
    acc.with_default_actions("kv", &texts(&["read"])).unwrap();
    let err = acc.with_extra_fields("kv", "[1, 2]").unwrap_err();
    assert_eq!(err.kind, ErrorKind::Serialization);
    assert!(err.detail.starts_with("extra fields are not a JSON object: "));
    let err = acc.with_extra_fields("files", "{}").unwrap_err();
    assert_eq!(err.kind, ErrorKind::InvalidNamespace);
    assert_eq!(err.detail, "no grant in namespace: files");
    assert_eq!(acc.snapshot()[0].extra_fields, None);
}

#[test]
fn reset_drops_every_grant_and_may_be_repeated() {
    let mut acc = CapabilityAccumulator::new();
    acc.with_default_actions("kv", &texts(&["read"])).unwrap();
    acc.reset();
    assert!(acc.snapshot().is_empty());
    acc.reset();
    assert!(acc.snapshot().is_empty());
}

#[test]
fn manager_reports_batches_as_added_or_not() {
    let mut manager = SessionManager::new().unwrap();
    assert!(manager.add_default_actions("kv", texts(&["read"])));
    assert!(manager.add_targeted_actions("kv", "photos".to_string(), texts(&["list"])));
    assert!(manager.add_default_actions("my.ns", texts(&["read"])));
    assert!(!manager.add_default_actions("not a uri", texts(&["read"])));
    assert!(!manager.add_targeted_actions("kv", "photos".to_string(), texts(&["bad action"])));
    assert!(manager.add_extra_fields("kv", "{\"n\":1}"));
    assert!(!manager.add_extra_fields("kv", "nonsense"));
    assert_eq!(manager.capability().snapshot().len(), 3);
    let err = manager.try_add_default_actions("kv", &texts(&["a b"])).unwrap_err();
    assert_eq!(err.kind, ErrorKind::ActionEncoding);
    manager.reset_capability();
    assert!(manager.capability().snapshot().is_empty());
    assert_eq!(manager.list_session_keys().len(), 1);
}
