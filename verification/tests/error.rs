use leaderboard_gateway::error::GatewayError;
use leaderboard_gateway::{Payload, Response};

fn all_errors() -> Vec<GatewayError> {
    vec![
        GatewayError::AuthMissing,
        GatewayError::BadRequest,
        GatewayError::UpstreamUnreachable,
        GatewayError::UpstreamError { status: 404 },
        GatewayError::UpstreamError { status: 500 },
        GatewayError::UpstreamError { status: 503 },
        GatewayError::UpstreamError { status: 302 },
        GatewayError::UpstreamError { status: 0 },
        GatewayError::UpstreamError { status: 65535 },
        GatewayError::UpstreamBodyInvalid,
    ]
}

#[test]
fn status_codes_follow_the_taxonomy() {
    assert_eq!(GatewayError::AuthMissing.status_code(), 401);
    assert_eq!(GatewayError::BadRequest.status_code(), 400);
    assert_eq!(GatewayError::UpstreamUnreachable.status_code(), 502);
    assert_eq!(GatewayError::UpstreamBodyInvalid.status_code(), 502);
}

#[test]
fn upstream_404_stays_404_and_the_rest_is_502() {
    assert_eq!(GatewayError::UpstreamError { status: 404 }.status_code(), 404);
    assert_eq!(GatewayError::UpstreamError { status: 400 }.status_code(), 502);
    assert_eq!(GatewayError::UpstreamError { status: 401 }.status_code(), 502);
    assert_eq!(GatewayError::UpstreamError { status: 403 }.status_code(), 502);
    assert_eq!(GatewayError::UpstreamError { status: 405 }.status_code(), 502);
    assert_eq!(GatewayError::UpstreamError { status: 500 }.status_code(), 502);
    assert_eq!(GatewayError::UpstreamError { status: 502 }.status_code(), 502);
    assert_eq!(GatewayError::UpstreamError { status: 301 }.status_code(), 502);
    assert_eq!(GatewayError::UpstreamError { status: 100 }.status_code(), 502);
}

#[test]
fn no_error_is_reported_as_500_or_as_success() {
    for error in all_errors() {
        let code = error.status_code();
        assert_ne!(code, 500);
        assert!(code == 400 || code == 401 || code == 404 || code == 502);
    }
}

#[test]
fn kinds_are_the_names_of_the_taxonomy() {
    assert_eq!(GatewayError::AuthMissing.kind(), "AuthMissing");
    assert_eq!(GatewayError::BadRequest.kind(), "BadRequest");
    assert_eq!(GatewayError::UpstreamUnreachable.kind(), "UpstreamUnreachable");
    assert_eq!(
        GatewayError::UpstreamError { status: 404 }.kind(),
        "UpstreamError"
    );
    assert_eq!(GatewayError::UpstreamBodyInvalid.kind(), "UpstreamBodyInvalid");
}

#[test]
fn messages_say_what_went_wrong() {
    assert_eq!(
        GatewayError::AuthMissing.message(),
        "missing or malformed bearer credential"
    );
    assert_eq!(
        GatewayError::BadRequest.message(),
        "the year query parameter is not an integer"
    );
    assert_eq!(
        GatewayError::UpstreamUnreachable.message(),
        "the upstream service could not be reached"
    );
    assert_eq!(
        GatewayError::UpstreamError { status: 404 }.message(),
        "the upstream service answered with status 404"
    );
    assert_eq!(
        GatewayError::UpstreamError { status: 0 }.message(),
        "the upstream service answered with status 0"
    );
    assert_eq!(
        GatewayError::UpstreamBodyInvalid.message(),
        "the upstream response is not valid JSON"
    );
}

#[test]
fn body_is_the_structured_text() {
    assert_eq!(
        GatewayError::AuthMissing.body(),
        "{\"error\":\"AuthMissing\",\"message\":\"missing or malformed bearer credential\"}"
    );
    assert_eq!(
        GatewayError::UpstreamError { status: 503 }.body(),
        "{\"error\":\"UpstreamError\",\"message\":\"the upstream service answered with status 503\"}"
    );
}

#[test]
fn every_body_is_json_with_error_and_message() {
    for error in all_errors() {
        let value: serde_json::Value = serde_json::from_str(&error.body()).unwrap();
        let object = value.as_object().unwrap();
        assert_eq!(object.len(), 2);
        assert_eq!(
            object.get("error").and_then(|v| v.as_str()),
            Some(error.kind())
        );
        assert_eq!(
            object.get("message").and_then(|v| v.as_str()),
            Some(error.message().as_str())
        );
    }
}

#[test]
fn failure_response_has_the_status_and_body_of_the_error() {
    for error in all_errors() {
        let response = Response::failure(error);
        assert_eq!(response.status, error.status_code());
        assert_eq!(response.payload, Payload::Text(error.body()));
    }
}
