//! Reconciler mapping, transport classification, and the URL and text
//! helpers.

use offline_sync::models::UserInfo;
use offline_sync::reconcile::handle_sync_response;
use offline_sync::reconcile::ReconcileAction;
use offline_sync::transport::bearer_header_value;
use offline_sync::transport::classify_response;
use offline_sync::transport::default_base_url;
use offline_sync::transport::full_url;
use offline_sync::transport::outcome_error_message;
use offline_sync::transport::probe_is_online;
use offline_sync::transport::u16_to_string;
use offline_sync::transport::ItemOutcome;

#[test]
fn create_response_carries_server_id() {
    let action = handle_sync_response(
        &"product_create".to_string(),
        &"{\"id\": 42, \"name\": \"Widget\"}".to_string(),
    );
    assert_eq!(action, ReconcileAction::RecordCreated { server_id: Some(42) });
}

#[test]
fn create_response_without_id_still_completes() {
    let action = handle_sync_response(&"user_create".to_string(), &"{\"ok\":true}".to_string());
    assert_eq!(action, ReconcileAction::RecordCreated { server_id: None });
    let action = handle_sync_response(&"order_create".to_string(), &"not json".to_string());
    assert_eq!(action, ReconcileAction::RecordCreated { server_id: None });
}

#[test]
fn update_delete_and_unknown_kinds_map_exhaustively() {
    for op in ["product_update", "user_update", "order_update"] {
        let action = handle_sync_response(&op.to_string(), &"{\"id\":1}".to_string());
        assert_eq!(action, ReconcileAction::ConfirmUpdated);
    }
    for op in ["product_delete", "user_delete", "order_delete"] {
        let action = handle_sync_response(&op.to_string(), &"{}".to_string());
        assert_eq!(action, ReconcileAction::ConfirmDeleted);
    }
    let action = handle_sync_response(&"stock_adjust".to_string(), &"{\"id\":9}".to_string());
    assert_eq!(action, ReconcileAction::NoChange);
}

#[test]
fn id_extraction_respects_json_structure() {
    // A nested or non-integer id is not a top-level in-range integer.
    let a = handle_sync_response(
        &"product_create".to_string(),
        &"{\"data\":{\"id\":7}}".to_string(),
    );
    assert_eq!(a, ReconcileAction::RecordCreated { server_id: None });
    let b = handle_sync_response(&"product_create".to_string(), &"{\"id\":\"7\"}".to_string());
    assert_eq!(b, ReconcileAction::RecordCreated { server_id: None });
    let c = handle_sync_response(&"product_create".to_string(), &"{\"id\":-3}".to_string());
    assert_eq!(c, ReconcileAction::RecordCreated { server_id: Some(-3) });
}

#[test]
fn probe_gate_accepts_only_2xx_responses() {
    assert!(probe_is_online(Some(200)));
    assert!(probe_is_online(Some(204)));
    assert!(probe_is_online(Some(299)));
    assert!(!probe_is_online(Some(199)));
    assert!(!probe_is_online(Some(301)));
    assert!(!probe_is_online(Some(404)));
    assert!(!probe_is_online(Some(500)));
    assert!(!probe_is_online(None));
}

#[test]
fn responses_classify_into_success_or_http_error() {
    match classify_response(201, "{\"id\":1}".to_string()) {
        ItemOutcome::Success { body } => assert_eq!(body, "{\"id\":1}"),
        other => panic!("2xx must classify as success, got {:?}", other),
    }
    match classify_response(404, "missing".to_string()) {
        ItemOutcome::HttpError { status, body } => {
            assert_eq!(status, 404);
            assert_eq!(body, "missing");
        }
        other => panic!("non-2xx must classify as an HTTP error, got {:?}", other),
    }
}

#[test]
fn status_codes_format_in_decimal() {
    assert_eq!(u16_to_string(0), "0");
    assert_eq!(u16_to_string(7), "7");
    assert_eq!(u16_to_string(10), "10");
    assert_eq!(u16_to_string(429), "429");
    assert_eq!(u16_to_string(65535), "65535");
}

#[test]
fn failure_texts_name_their_cause() {
    let http = ItemOutcome::HttpError { status: 500, body: "oops".to_string() };
    assert_eq!(outcome_error_message(&http), "HTTP 500 - oops");
    let transport = ItemOutcome::TransportFailure { message: "dns failure".to_string() };
    assert_eq!(outcome_error_message(&transport), "dns failure");
}

#[test]
fn requests_address_the_backend_base_url() {
    assert_eq!(default_base_url(), "https://api.isms.helevon.org/api/v1");
    let url = full_url(&default_base_url(), &"/products/".to_string());
    assert_eq!(url, "https://api.isms.helevon.org/api/v1/products/");
}

#[test]
fn bearer_credential_forms_the_header_value() {
    assert_eq!(
        bearer_header_value(&"abc123".to_string()),
        "Bearer abc123"
    );
}

#[test]
fn permission_check_matches_exact_names() {
    let user = UserInfo {
        id: 1,
        email: "cashier@example.com".to_string(),
        full_name: "Cash Ier".to_string(),
        role: "cashier".to_string(),
        permissions: vec!["sales_management".to_string(), "reports_view".to_string()],
    };
    assert!(user.has_permission(&"sales_management".to_string()));
    assert!(user.has_permission(&"reports_view".to_string()));
    assert!(!user.has_permission(&"user_management".to_string()));
    assert!(!user.has_permission(&"sales".to_string()));
}
