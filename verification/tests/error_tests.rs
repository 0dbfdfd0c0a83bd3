//! Tests of the error model and the malformed-request payload decoding.

use saxobank::error::{BadRequestDecodeFailure, ErrorCode, parse_bad_request};

#[test]
fn test_serde_bad_request() {
    let body = "{\"ErrorCode\":\"InvalidRequestHeader\",\"Message\":\"foo\"}";
    let decoded = parse_bad_request(body).unwrap();
    assert_eq!(decoded.error_code(), &ErrorCode::InvalidRequestHeader);
    assert_eq!(decoded.message(), "foo");
    assert!(decoded.model_state().is_none());
    assert_eq!(decoded.error_code().wire_name(), "InvalidRequestHeader");
}

#[test]
fn test_serde_bad_request_modal_state() {
    let body = "{\"ErrorCode\":\"InvalidRequestHeader\",\"Message\":\"foo\",\"ModelState\":{\"$skip\":[\"Invalid $skip query parameter value: 2s\"]}}";
    let decoded = parse_bad_request(body).unwrap();
    assert_eq!(decoded.error_code(), &ErrorCode::InvalidRequestHeader);
    assert_eq!(decoded.message(), "foo");
    let model_state = decoded.model_state().as_ref().unwrap();
    assert_eq!(model_state.len(), 1);
    assert_eq!(model_state[0].0, "$skip");
    assert_eq!(
        model_state[0].1,
        vec!["Invalid $skip query parameter value: 2s".to_string()]
    );
}

#[test]
fn test_serde_error_code_unknown() {
    assert_eq!(ErrorCode::from_wire("Foo"), None);
    let body = "{\"ErrorCode\":\"Foo\",\"Message\":\"foo\"}";
    assert_eq!(
        parse_bad_request(body).unwrap_err(),
        BadRequestDecodeFailure::UnknownErrorCode
    );
}

#[test]
fn test_serde_model_state() {
    let body = "{\"ErrorCode\":\"InvalidModelState\",\"Message\":\"One or more properties of the request are invalid!\",\"ModelState\":{\"$skip\":[\"Invalid $skip query parameter value: 2s\"]}}";
    let decoded = parse_bad_request(body).unwrap();
    assert_eq!(decoded.error_code(), &ErrorCode::InvalidModelState);
    assert_eq!(
        decoded.message(),
        "One or more properties of the request are invalid!"
    );
}

#[test]
fn test_error_code_wire_names_round_trip() {
    let codes = [
        ErrorCode::InvalidRequest,
        ErrorCode::InvalidRequestHeader,
        ErrorCode::InvalidMediaTypeHeader,
        ErrorCode::InvalidAcceptLanguageHeader,
        ErrorCode::InvalidQueryParameters,
        ErrorCode::InvalidModelState,
        ErrorCode::TypeConversionError,
        ErrorCode::SubscriptionLimitExceeded,
        ErrorCode::RateLimitExceeded,
        ErrorCode::FeatureNotEnabled,
        ErrorCode::InternalTimeout,
        ErrorCode::UnsupportedSubscriptionFormat,
        ErrorCode::RequestNotAllowed,
        ErrorCode::DomainValidationError,
    ];
    for code in codes {
        assert_eq!(ErrorCode::from_wire(code.wire_name()), Some(code));
    }
}

#[test]
fn test_parse_bad_request_malformed_body() {
    assert_eq!(
        parse_bad_request("not json").unwrap_err(),
        BadRequestDecodeFailure::MalformedBody
    );
    assert_eq!(
        parse_bad_request("{\"Message\":\"foo\"}").unwrap_err(),
        BadRequestDecodeFailure::MalformedBody
    );
    assert_eq!(
        parse_bad_request("{\"ErrorCode\":\"InvalidRequest\"}").unwrap_err(),
        BadRequestDecodeFailure::MalformedBody
    );
}

#[test]
fn test_error_code_default() {
    assert_eq!(ErrorCode::default(), ErrorCode::InvalidRequest);
}
