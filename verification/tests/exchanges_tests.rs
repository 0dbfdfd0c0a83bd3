//! Tests of the exchanges listing shapes and their pagination.

use saxobank::client::decode_response;
use saxobank::error::SaxoError;
use saxobank::messages::reference_data::exchanges::{
    ExchangeSessionState, Response, parse_session,
};
use saxobank::{SaxoRequest, SaxoResponseOData};

#[test]
fn test_serde_exchange_session() {
    let body = "{\"EndTime\":\"2021-05-21T00:00:00Z\",\"StartTime\":\"2021-05-21T00:00:00Z\",\"State\":\"PreTrading\"}";
    let session = parse_session(body);
    assert!(session.is_ok());
    let session = session.unwrap();
    assert_eq!(session.state, Some(ExchangeSessionState::PreTrading));
    let start = session.start_time.unwrap();
    // 2021-05-21T00:00:00Z as seconds since the Unix epoch.
    assert_eq!(start.seconds, 1621555200);
    assert_eq!(start.nanos, 0);
}

#[test]
fn test_exchange_session_bad_timestamp_fails() {
    let body = "{\"EndTime\":\"yesterday\"}";
    assert!(parse_session(body).is_err());
}

#[test]
fn test_exchange_session_unknown_state_fails() {
    let body = "{\"State\":\"Dancing\"}";
    assert!(parse_session(body).is_err());
    assert_eq!(ExchangeSessionState::from_wire("Dancing"), None);
    assert_eq!(
        ExchangeSessionState::from_wire("AutomatedTrading"),
        Some(ExchangeSessionState::AutomatedTrading)
    );
}

#[test]
fn test_serde_exchanges() {
    let body = "{\"__next\":\"/openapi/....../?$top=1&$skip=1\",\"Data\":[{\"CountryCode\":\"ES\",\"Currency\":\"EUR\",\"ExchangeId\":\"SIBE\",\"IsoMic\":\"XMAD\",\"Mic\":\"XMCE\",\"Name\":\"BME Spanish Exchanges\",\"OperatingMic\":\"BMEX\",\"TimeZone\":4,\"TimeZoneOffset\":\"00:00:00\"}]}";
    let response_deserialized: Result<Response, SaxoError> = decode_response(200, body);
    assert!(response_deserialized.is_ok());
    let response = response_deserialized.unwrap();
    assert_eq!(response.next.as_deref(), Some("/openapi/....../?$top=1&$skip=1"));
    assert_eq!(response.data.len(), 1);
    let record = &response.data[0];
    assert_eq!(record.country_code.as_deref(), Some("ES"));
    assert_eq!(record.currency.as_deref(), Some("EUR"));
    assert_eq!(record.exchange_id.as_deref(), Some("SIBE"));
    assert_eq!(record.iso_mic.as_deref(), Some("XMAD"));
    assert_eq!(record.name.as_deref(), Some("BME Spanish Exchanges"));
    assert_eq!(record.operating_mic.as_deref(), Some("BMEX"));
    assert_eq!(record.time_zone, Some(4));
}

#[test]
fn test_exchanges_next_descriptor_renders_query() {
    let page = Response {
        count: None,
        next: Some("/foo/bar/?$top=123&$skip=42".to_string()),
        data: Vec::new(),
    };
    let next_request = page.next().unwrap();
    assert_eq!(next_request.argument().render(), "?$top=123&$skip=42");
}

#[test]
fn test_exchanges_next_absent_yields_none() {
    let page = Response { count: None, next: None, data: Vec::new() };
    assert!(page.next().is_none());
}

#[test]
fn test_exchanges_next_unparsable_yields_none() {
    let page = Response {
        count: None,
        next: Some("/foo/bar/?$top=2s".to_string()),
        data: Vec::new(),
    };
    assert!(page.next().is_none());
    let duplicated = Response {
        count: None,
        next: Some("/foo/bar/?$top=1&$top=2".to_string()),
        data: Vec::new(),
    };
    assert!(duplicated.next().is_none());
}

#[test]
fn test_exchanges_request_path() {
    assert_eq!(
        <saxobank::messages::reference_data::exchanges::Request as SaxoRequest>::endpoint(),
        "ref/v1/exchanges/"
    );
}

#[test]
fn test_exchanges_record_with_session_and_count() {
    let body = "{\"__count\":7,\"Data\":[{\"AllDay\":false,\"ExchangeId\":\"NYSE\",\"ExchangeSessions\":{\"StartTime\":\"1970-01-01T00:00:01Z\",\"State\":\"Closed\"}}]}";
    let response: Response = decode_response(200, body).unwrap();
    assert_eq!(response.count, Some(7));
    assert!(response.next.is_none());
    let record = &response.data[0];
    assert_eq!(record.all_day, Some(false));
    assert_eq!(record.exchange_id.as_deref(), Some("NYSE"));
    let session = record.exchange_sessions.unwrap();
    assert_eq!(session.start_time.unwrap().seconds, 1);
    assert_eq!(session.state, Some(ExchangeSessionState::Closed));
    assert!(session.end_time.is_none());
}

#[test]
fn test_exchanges_bad_record_fails_page() {
    // A record whose session member is present but malformed fails the
    // whole page, as a shape failure.
    let body = "{\"Data\":[{\"ExchangeSessions\":5}]}";
    let response: Result<Response, SaxoError> = decode_response(200, body);
    assert!(matches!(
        response.unwrap_err(),
        SaxoError::TransportError(_)
    ));
}
