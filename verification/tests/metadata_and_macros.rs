use std::hash::{Hash, Hasher};

use rust_bus::codegen::{
    check_database_handler, check_handler_signature, derives_to_add, hash_type_name, parse_mode,
    registration_fn_name, sanitize_type_name, HandlerMacroKind, HandlerMode,
};
use rust_bus::error::BusError;
use rust_bus::metadata::{type_mismatch_error, BusMetadata};

const ID: &str = "0190a3f0-7c3e-7d2a-9b1e-4f5a6b7c8d9e";

fn id_value() -> u128 {
    uuid::Uuid::parse_str(ID).unwrap().as_u128()
}

#[test]
fn metadata_extra_values_read_back_what_was_written() {
    let mut m = BusMetadata::empty();
    assert!(m.add("tenant", "\"acme\"".to_string()).is_ok());
    assert!(m.add("retries", "3".to_string()).is_ok());
    assert_eq!(m.get("tenant"), Some("\"acme\"".to_string()));
    assert_eq!(m.get("retries"), Some("3".to_string()));
    assert_eq!(m.get("missing"), None);
    assert!(m.add("tenant", "\"globex\"".to_string()).is_ok());
    assert_eq!(m.get("tenant"), Some("\"globex\"".to_string()));
    assert_eq!(m.get("retries"), Some("3".to_string()));
    assert_eq!(m.extra().len(), 2);
    assert_eq!(m.extra()[0].0, "tenant");
    assert_eq!(m.try_get("retries").unwrap(), "3");
    match m.try_get("absent") {
        Err(BusError::MetaData(msg)) => assert_eq!(msg, "Metadata key 'absent' not found"),
        other => panic!("unexpected {:?}", other),
    }
}

#[test]
fn metadata_identifiers_take_uuids() {
    let mut m = BusMetadata::empty();
    let text = format!("\"{}\"", ID);
    assert!(m.add("request_id", text.clone()).is_ok());
    assert_eq!(m.request_id(), Some(id_value()));
    assert_eq!(m.correlation_id(), None);
    assert!(m.add("correlation_id", text.clone()).is_ok());
    assert!(m.add("causation_id", text).is_ok());
    assert_eq!(m.correlation_id(), Some(id_value()));
    assert_eq!(m.causation_id(), Some(id_value()));
    assert!(m.extra().is_empty());
    assert_eq!(m.get("request_id"), None);
}

#[test]
fn metadata_identifier_that_is_no_uuid_is_refused() {
    let mut m = BusMetadata::new(Some(1), None, None, None);
    match m.add("request_id", "42".to_string()) {
        Err(BusError::MetaData(msg)) => {
            let detail = serde_json::from_value::<uuid::Uuid>(serde_json::Value::from(42)).unwrap_err();
            assert_eq!(
                msg,
                format!("Metadata key 'request_id' expects a valid UUID, but got: 42. Error: {}", detail)
            );
            assert!(!msg.contains("line"));
        }
        other => panic!("unexpected {:?}", other),
    }
    assert_eq!(m.request_id(), Some(1));
}

#[test]
fn metadata_built_with_extra_values() {
    let m = BusMetadata::new(None, Some(5), None, Some(vec![("k".to_string(), "true".to_string())]));
    assert_eq!(m.correlation_id(), Some(5));
    assert_eq!(m.get("k"), Some("true".to_string()));
    match type_mismatch_error("k", "invalid type") {
        BusError::MetaData(msg) => assert_eq!(msg, "Metadata type mismatch for 'k': invalid type"),
        other => panic!("unexpected {:?}", other),
    }
}

#[test]
fn type_names_are_hashed_with_the_default_hasher() {
    let mut hasher = std::collections::hash_map::DefaultHasher::new();
    "crate::Event".hash(&mut hasher);
    assert_eq!(hash_type_name("crate::Event"), hasher.finish());
    assert_eq!(hash_type_name("a"), hash_type_name("a"));
    assert_ne!(hash_type_name("a"), hash_type_name("b"));
}

#[test]
fn sanitized_names_hold_no_angle_brackets() {
    assert_eq!(sanitize_type_name("app::Wrapper<app::Event>"), "app_Wrapper_app_Event_");
    assert_eq!(sanitize_type_name(":a:::b"), ":a_:b");
    assert_eq!(sanitize_type_name(""), "");
    assert!(!sanitize_type_name("Vec<Option<u8>>").contains(|c| c == '<' || c == '>'));
}

#[test]
fn registration_function_names() {
    let name = registration_fn_name("__register_event_db_", "app::Handler<X>");
    assert_eq!(name, format!("__register_event_db_app_Handler_X__{}", hash_type_name("app::Handler<X>")));
}

#[test]
fn missing_derives_are_added_in_order() {
    assert_eq!(
        derives_to_add(&vec![]),
        vec!["::core::fmt::Debug", "::core::clone::Clone", "::serde::Serialize", "::serde::Deserialize"]
    );
    assert_eq!(
        derives_to_add(&vec!["Clone".to_string(), "Deserialize".to_string(), "PartialEq".to_string()]),
        vec!["::core::fmt::Debug", "::serde::Serialize"]
    );
    assert!(derives_to_add(&vec![
        "Serialize".to_string(),
        "Debug".to_string(),
        "Deserialize".to_string(),
        "Clone".to_string()
    ])
    .is_empty());
}

#[test]
fn handler_signatures() {
    assert_eq!(
        check_handler_signature(HandlerMacroKind::Plain, false, &vec![true, true]).unwrap_err(),
        "Issue: Handler must be an 'async' function.\nHow to fix: Add 'async' keyword before 'fn'."
    );
    assert_eq!(check_handler_signature(HandlerMacroKind::Plain, true, &vec![true, true]).unwrap(), 0);
    assert_eq!(
        check_handler_signature(HandlerMacroKind::Plain, true, &vec![true]).unwrap_err(),
        "Issue: Standard Handler requires exactly 2 arguments.\nExpected: (event: &Event, meta: &BusMetadata)"
    );
    assert_eq!(
        check_handler_signature(HandlerMacroKind::Plain, true, &vec![false, true]).unwrap_err(),
        "First argument must be a typed Event reference."
    );
    assert_eq!(check_handler_signature(HandlerMacroKind::Context, true, &vec![true, true]).unwrap(), 1);
    assert_eq!(
        check_handler_signature(HandlerMacroKind::Context, true, &vec![true, true, true]).unwrap_err(),
        "Issue: Context Handler requires exactly 2 arguments.\nExpected: (ctx: &YourContext, event: &YourEvent)"
    );
    assert_eq!(
        check_handler_signature(HandlerMacroKind::Context, true, &vec![false, true]).unwrap_err(),
        "First argument must be a typed Context reference."
    );
    assert_eq!(
        check_handler_signature(HandlerMacroKind::Context, true, &vec![true, false]).unwrap_err(),
        "Second argument must be a typed Event reference."
    );
    for kind in [HandlerMacroKind::Sea, HandlerMacroKind::SqlxPostgres, HandlerMacroKind::SqlxMySql] {
        assert_eq!(check_handler_signature(kind, true, &vec![true, true, true]).unwrap(), 1);
        assert_eq!(
            check_handler_signature(kind, true, &vec![true, true]).unwrap_err(),
            "Issue: DB Handler requires exactly 3 arguments.\nExpected: (txn: &Tx, event: &Event, meta: &BusMetadata)"
        );
        assert_eq!(
            check_handler_signature(kind, true, &vec![true, false, true]).unwrap_err(),
            "Second argument must be a typed Event reference."
        );
    }
}

#[test]
fn database_handler_blocks() {
    assert_eq!(
        check_database_handler(false, true, 1).unwrap(),
        "Issue: This attribute must be applied to an 'impl IEventHandlerDatabase' block."
    );
    assert_eq!(
        check_database_handler(true, false, 1).unwrap(),
        "Issue: Trait path is empty.\nHow to fix: Provide a valid trait implementation."
    );
    assert!(check_database_handler(true, true, 2).unwrap().starts_with("Issue: Expected exactly one generic argument"));
    assert_eq!(check_database_handler(true, true, 1), None);
}

#[test]
fn request_handler_modes() {
    assert_eq!(parse_mode(true, None).unwrap(), HandlerMode::Default);
    assert_eq!(parse_mode(false, Some("factory")).unwrap(), HandlerMode::Factory);
    assert_eq!(
        parse_mode(false, Some("other")).unwrap_err(),
        "Expected #[RegisterRequestHandler] or #[RegisterRequestHandler(factory)]"
    );
    assert!(parse_mode(false, None).is_err());
}
