use api::api_error;
use api::error;
use api::errors::{error_chain_fmt, response, ApiError, ApiErrorResponse};
use api::extract::{reject, rejection_text};
use api::route_errors::{ErrorChain, HealthCheckError, RouteError};

fn chain(message: &str, causes: &[&str]) -> ErrorChain {
    ErrorChain { message: message.to_string(), causes: causes.iter().map(|c| c.to_string()).collect() }
}

#[test]
fn error_chain_without_causes() {
    assert_eq!(error_chain_fmt("Failed to fetch coin", &vec![]), "Failed to fetch coin\n");
}

#[test]
fn error_chain_with_causes() {
    let causes = vec!["error returned from database".to_string(), "no such table: coins".to_string()];
    assert_eq!(
        error_chain_fmt("Failed to fetch coin", &causes),
        "Failed to fetch coin\nCaused by:\n\t0: error returned from database\n\t1: no such table: coins\n"
    );
}

#[test]
fn error_chain_numbers_many_causes() {
    let causes: Vec<String> = (0..12).map(|i| format!("c{i}")).collect();
    let text = error_chain_fmt("top", &causes);
    assert!(text.ends_with("\t10: c10\n\t11: c11\n"));
    assert_eq!(text.lines().count(), 14);
}

#[test]
fn envelope_status_kept_when_valid() {
    for status in [100u16, 200, 404, 409, 503, 999] {
        let e = ApiError { status, reason: String::new() };
        assert_eq!(e.response_status(), status);
    }
}

#[test]
fn envelope_status_replaced_when_invalid() {
    for status in [0u16, 42, 99, 1000, u16::MAX] {
        let e = ApiError { status, reason: String::new() };
        assert_eq!(e.response_status(), 500);
    }
}

#[test]
fn route_error_statuses_and_reasons() {
    let cases: Vec<(RouteError, u16, &str)> = vec![
        (RouteError::InvalidId, 404, "The provided id is invalid"),
        (RouteError::ValidationError("name is empty".to_string()), 400, "name is empty"),
        (RouteError::DuplicateCoin(42), 409, "You already possess coin_id 42"),
        (RouteError::DuplicateCoin(-7), 409, "You already possess coin_id -7"),
        (RouteError::ValueNotFound("Gold".to_string()), 500, "No price found for Gold. This should not happen"),
        (RouteError::UnknownPriceKey("Unknown price: copper".to_string()), 404, "Unknown price: copper"),
        (RouteError::UnexpectedError(chain("Failed to fetch prices", &["io"])), 500, "Failed to fetch prices"),
    ];
    for (e, status, reason) in cases {
        assert_eq!(e.status(), status);
        assert_eq!(e.reason(), reason);
        let envelope = response(&e);
        assert_eq!(envelope.status, status);
        assert_eq!(envelope.reason, reason);
        assert_eq!(envelope.response_status(), status);
    }
}

#[test]
fn route_error_debug_text_lists_causes() {
    let e = RouteError::UnexpectedError(chain("Failed to insert coin asset", &["UNIQUE constraint failed"]));
    assert_eq!(e.debug_text(), "Failed to insert coin asset\nCaused by:\n\t0: UNIQUE constraint failed\n");
    assert_eq!(RouteError::InvalidId.debug_text(), "The provided id is invalid\n");
}

#[test]
fn health_check_error_is_service_unavailable() {
    let e = HealthCheckError::UnexpectedError(chain("Failed to reach the database", &["pool timed out"]));
    assert_eq!(e.status(), 503);
    assert_eq!(e.reason(), "Failed to reach the database");
    assert_eq!(response(&e).response_status(), 503);
}

#[test]
fn reject_strips_position() {
    let e = reject(422, "Failed to deserialize the JSON body into the target type: missing field `name` at line 1 column 21");
    assert_eq!(e.status, 422);
    assert_eq!(e.reason, "Failed to deserialize the JSON body into the target type: missing field `name`");
}

#[test]
fn reject_cuts_at_first_marker_and_trims() {
    assert_eq!(rejection_text("bad value  \t at line 3 column 4 at line 9"), "bad value");
    assert_eq!(rejection_text("no position here \n "), "no position here");
    assert_eq!(rejection_text(" at line 1 column 1"), "");
    assert_eq!(rejection_text(""), "");
    assert_eq!(rejection_text("at line 2"), "at line 2");
}

#[test]
fn rejection_reason_is_stable_and_idempotent() {
    let a = rejection_text("expected value at line 1 column 2");
    let b = rejection_text("expected value at line 40 column 7");
    assert_eq!(a, b);
    assert_eq!(rejection_text(&a), a);
}

#[test]
fn first_version_errors() {
    let e = api_error::APIError::database_error();
    assert_eq!((e.code, e.reason.as_str()), (500, "Database error"));
    let e = api_error::APIError::unknown_query("copper");
    assert_eq!((e.code, e.reason.as_str()), (400, "Unknown query: copper"));
    let e = api_error::APIError::no_api_key();
    assert_eq!((e.code, e.reason.as_str()), (401, "\"key\" parameter is required"));
    let e = api_error::APIError::bad_api_key();
    assert_eq!((e.code, e.reason.as_str()), (401, "Invalid API Key"));
    let e = api_error::APIError::bad_id("12");
    assert_eq!((e.code, e.reason.as_str()), (404, "The provided id is invalid: 12"));
    let e = api_error::APIError::invalid_value("possessed must be >= 1");
    assert_eq!((e.code, e.reason.as_str()), (400, "Invalid value: possessed must be >= 1"));
}

#[test]
fn public_error_bodies() {
    let (status, body) = error::APIError::database_error();
    assert_eq!((status, body.reason.as_str()), (500, "Database error"));
    let (status, body) = error::APIError::unknown_query("copper");
    assert_eq!((status, body.reason.as_str()), (400, "Unknown query : copper"));
    let (status, body) = error::APIError::no_api_key();
    assert_eq!((status, body.reason.as_str()), (400, "\"key\" parameter is required"));
    let (status, body) = error::APIError::bad_api_key();
    assert_eq!((status, body.reason.as_str()), (401, "Invalid API Key"));
}
