//! Encoder behavior on concrete outcomes, with real JSON serialization.

use rocket_route_result::FailureCause;
use rocket_route_result::JsonPayload;
use rocket_route_result::NoBody;
use rocket_route_result::RouteResult;
use rocket_route_result::Serializable;

fn id_payload() -> JsonPayload {
    let mut map = serde_json::Map::new();
    map.insert("id".to_string(), serde_json::Value::from(7));
    JsonPayload::from_value(&serde_json::Value::Object(map)).unwrap()
}

#[test]
fn success_encodes_status_and_json_body() {
    let e = RouteResult::Success(id_payload()).encode();
    assert_eq!(e.response.status, 200);
    assert_eq!(e.response.content_type.as_deref(), Some("application/json"));
    assert_eq!(e.response.body.as_deref(), Some("{\"id\":7}"));
    assert!(e.response.location.is_none());
    assert!(e.log.is_none());
}

#[test]
fn success_with_bodiless_payload_omits_body() {
    let e = RouteResult::Success(NoBody).encode();
    assert_eq!(e.response.status, 200);
    assert!(e.response.body.is_none());
    assert!(e.response.content_type.is_none());
    assert!(e.log.is_none());
}

#[test]
fn created_encodes_location_and_body() {
    let e = RouteResult::Created(id_payload(), "/items/7".to_string()).encode();
    assert_eq!(e.response.status, 201);
    assert_eq!(e.response.location.as_deref(), Some("/items/7"));
    assert_eq!(e.response.content_type.as_deref(), Some("application/json"));
    assert_eq!(e.response.body.as_deref(), Some("{\"id\":7}"));
}

#[test]
fn created_with_bodiless_payload_still_sends_null() {
    let e = RouteResult::Created(NoBody, "/things/1".to_string()).encode();
    assert_eq!(e.response.status, 201);
    assert_eq!(e.response.location.as_deref(), Some("/things/1"));
    assert_eq!(e.response.body.as_deref(), Some("null"));
}

#[test]
fn not_found_encodes_bare_404() {
    let e = RouteResult::<NoBody>::NotFound.encode();
    assert_eq!(e.response.status, 404);
    assert!(e.response.location.is_none());
    assert!(e.response.content_type.is_none());
    assert!(e.response.body.is_none());
    assert!(e.log.is_none());
}

#[test]
fn bad_request_without_detail_has_no_body() {
    let e = RouteResult::<NoBody>::BadRequest(None).encode();
    assert_eq!(e.response.status, 400);
    assert!(e.response.body.is_none());
    assert!(e.response.content_type.is_none());
}

#[test]
fn bad_request_with_detail_serializes_it() {
    let mut map = serde_json::Map::new();
    map.insert("field".to_string(), serde_json::Value::from("name"));
    map.insert("reason".to_string(), serde_json::Value::from("required"));
    let detail = JsonPayload::from_value(&serde_json::Value::Object(map)).unwrap();
    let e = RouteResult::<NoBody>::BadRequest(Some(detail)).encode();
    assert_eq!(e.response.status, 400);
    assert_eq!(e.response.content_type.as_deref(), Some("application/json"));
    assert_eq!(
        e.response.body.as_deref(),
        Some("{\"field\":\"name\",\"reason\":\"required\"}"),
    );
}

#[test]
fn forbidden_encodes_bare_401() {
    let e = RouteResult::<NoBody>::Forbidden.encode();
    assert_eq!(e.response.status, 401);
    assert!(e.response.body.is_none());
    assert!(e.response.content_type.is_none());
    assert!(e.log.is_none());
}

#[test]
fn internal_error_logs_message_and_trace() {
    let cause = FailureCause {
        message: "database exploded".to_string(),
        trace: Some("at handler, line 3".to_string()),
    };
    let e = RouteResult::<NoBody>::InternalError(cause).encode();
    assert_eq!(e.response.status, 500);
    assert!(e.response.body.is_none());
    assert!(e.response.content_type.is_none());
    let log = e.log.expect("exactly one log record");
    assert_eq!(log.message, "database exploded");
    assert_eq!(log.trace, "at handler, line 3");
}

#[test]
fn internal_error_without_trace_logs_marker() {
    let e = RouteResult::<NoBody>::InternalError(FailureCause::new("boom".to_string())).encode();
    assert_eq!(e.response.status, 500);
    let log = e.log.expect("exactly one log record");
    assert_eq!(log.message, "boom");
    assert_eq!(log.trace, "No backtrace available");
}

#[test]
fn payload_from_value_renders_once() {
    let payload = id_payload();
    assert_eq!(payload.serialize_json().unwrap(), "{\"id\":7}");
    assert_eq!(payload.debug_render(), "{\"id\":7}");
}
