//! Tests of the response decoder and of the client against a canned
//! transport.

use saxobank::ODataParams;
use saxobank::client::{HttpSend, SaxoClient, decode_response};
use saxobank::error::{ErrorCode, SaxoError};
use saxobank::messages::portfolio;
use saxobank::messages::reference_data::exchanges;

/// A transport that answers every request with one canned reply.
struct CannedSender {
    status: u16,
    body: String,
}

impl HttpSend for CannedSender {
    fn send_get(
        &self,
        _url: &str,
        _headers: &Vec<(String, String)>,
    ) -> Result<(u16, String), String> {
        Ok((self.status, self.body.clone()))
    }
}

/// A transport that must never be used.
struct NoSend;

impl HttpSend for NoSend {
    fn send_get(
        &self,
        _url: &str,
        _headers: &Vec<(String, String)>,
    ) -> Result<(u16, String), String> {
        panic!("a send was performed where none was expected");
    }
}

/// A transport that fails every request.
struct FailingSender;

impl HttpSend for FailingSender {
    fn send_get(
        &self,
        _url: &str,
        _headers: &Vec<(String, String)>,
    ) -> Result<(u16, String), String> {
        Err("connection refused".to_string())
    }
}

#[test]
fn test_parse_ok() {
    let api_response: Result<portfolio::users::Response, SaxoError> = decode_response(200, "{}");
    assert!(api_response.is_ok());
}

#[test]
fn test_parse_empty_object_yields_all_absent() {
    let resp: portfolio::users::Response = decode_response(200, "{}").unwrap();
    assert!(resp.client_key.is_none());
    assert!(resp.culture.is_none());
    assert!(resp.language.is_none());
    assert!(resp.last_login_status.is_none());
    assert!(resp.last_login_time.is_none());
    assert!(resp.legal_asset_types.is_none());
    assert!(resp.market_data_via_open_api_terms_accepted.is_none());
    assert!(resp.name.is_none());
    assert!(resp.time_zone_id.is_none());
    assert!(resp.user_id.is_none());
    assert!(resp.user_key.is_none());
}

#[test]
fn test_parse_unauthorized() {
    let api_response: Result<portfolio::users::Response, SaxoError> = decode_response(401, "{}");
    assert!(api_response.is_err());
    assert!(matches!(api_response.unwrap_err(), SaxoError::Unauthorized));
}

#[test]
fn test_parse_unauthorized_ignores_body() {
    let for_garbage: Result<portfolio::users::Response, SaxoError> =
        decode_response(401, "not json at all");
    assert!(matches!(for_garbage.unwrap_err(), SaxoError::Unauthorized));
    let for_error_shape: Result<portfolio::users::Response, SaxoError> =
        decode_response(401, "{\"ErrorCode\":\"InvalidRequest\",\"Message\":\"x\"}");
    assert!(matches!(
        for_error_shape.unwrap_err(),
        SaxoError::Unauthorized
    ));
}

#[test]
fn test_parse_bad_request() {
    let response_body = "{\"ErrorCode\":\"InvalidRequest\",\"Message\":\"Invalid request message\"}";
    let api_response: Result<portfolio::users::Response, SaxoError> =
        decode_response(400, response_body);
    assert!(api_response.is_err());
    if let SaxoError::BadRequest(c) = api_response.unwrap_err() {
        assert_eq!(c.error_code(), &ErrorCode::InvalidRequest);
        assert_eq!(c.message(), "Invalid request message");
    } else {
        assert!(false);
    }
}

#[test]
fn test_parse_bad_request_unknown_code() {
    let api_response: Result<portfolio::users::Response, SaxoError> =
        decode_response(400, "{\"ErrorCode\":\"Foo\",\"Message\":\"x\"}");
    match api_response.unwrap_err() {
        SaxoError::TransportError(diag) => assert_eq!(diag, "Unknown ErrorCode!"),
        _ => assert!(false),
    }
}

#[test]
fn test_parse_other_status_is_http_error() {
    let api_response: Result<portfolio::users::Response, SaxoError> =
        decode_response(404, "missing");
    match api_response.unwrap_err() {
        SaxoError::HttpError(status, diag) => {
            assert_eq!(status, 404);
            assert_eq!(diag, "missing");
        },
        _ => assert!(false),
    }
}

#[test]
fn test_parse_wrong_shape_is_transport_error() {
    let api_response: Result<portfolio::users::Response, SaxoError> = decode_response(200, "[]");
    assert!(matches!(
        api_response.unwrap_err(),
        SaxoError::TransportError(_)
    ));
}

#[test]
fn test_transport_failure_is_transport_error() {
    let client = SaxoClient::sim_with_sender(FailingSender, "");
    match client.get_port_user_info().unwrap_err() {
        SaxoError::TransportError(diag) => assert_eq!(diag, "connection refused"),
        _ => assert!(false),
    }
}

#[test]
fn test_get_port_user_info() {
    let body = "{\"Name\":\"Foo\",\"UserId\":\"Bar\",\"Language\":\"C++\"}";
    let client = SaxoClient::sim_with_sender(
        CannedSender { status: 200, body: body.to_string() },
        "",
    );
    let resp = client.get_port_user_info().unwrap();
    assert_eq!(resp.name.unwrap(), "Foo");
    assert_eq!(resp.user_id.unwrap(), "Bar");
    assert_eq!(resp.language.unwrap(), "C++");
}

#[test]
fn test_get_port_client_info_fields() {
    let body = "{\"ClientId\":\"42\",\"CurrencyDecimals\":2,\"AccountValueProtectionLimit\":95000.5,\"IsMarginTradingAllowed\":true,\"LegalAssetTypes\":[\"Stock\",\"Bond\"]}";
    let client = SaxoClient::sim_with_sender(
        CannedSender { status: 200, body: body.to_string() },
        "",
    );
    let resp = client.get_port_client_info().unwrap();
    assert_eq!(resp.client_id.unwrap(), "42");
    assert_eq!(resp.currency_decimals.unwrap(), 2);
    assert_eq!(resp.account_value_protection_limit.unwrap(), "95000.5");
    assert_eq!(resp.is_margin_trading_allowed.unwrap(), true);
    assert_eq!(
        resp.legal_asset_types.unwrap(),
        vec!["Stock".to_string(), "Bond".to_string()]
    );
    assert!(resp.name.is_none());
}

#[test]
fn test_get_odata_next() {
    let body = "{\"__next\":\"/foo/bar/?$top=123&$skip=42\",\"Data\":[{\"Foo\":\"Bar\"}]}";
    let client = SaxoClient::sim_with_sender(
        CannedSender { status: 200, body: body.to_string() },
        "",
    );
    let resp = client
        .get(exchanges::Request::new(ODataParams { top: Some(123), skip: Some(42) }))
        .unwrap();
    assert_eq!(resp.next.as_deref(), Some("/foo/bar/?$top=123&$skip=42"));
    assert_eq!(resp.data.len(), 1);
}

#[test]
fn test_next_handle() {
    let body = "{\"__next\":\"/foo/bar/?$top=1&$skip=1\",\"Data\":[]}";
    let client = SaxoClient::sim_with_sender(
        CannedSender { status: 200, body: body.to_string() },
        "",
    );
    let handle = client
        .get_ref_exchanges2(ODataParams { top: Some(1), skip: None })
        .unwrap();
    assert_eq!(handle.resp().next.as_deref(), Some("/foo/bar/?$top=1&$skip=1"));
    let following = handle.next().unwrap().unwrap();
    assert_eq!(
        following.resp().next.as_deref(),
        Some("/foo/bar/?$top=1&$skip=1")
    );
}

#[test]
fn test_get_next_no_link_performs_no_send() {
    let client = SaxoClient::sim_with_sender(NoSend, "");
    let page = exchanges::Response { count: None, next: None, data: Vec::new() };
    let outcome = client.get_next(&page);
    assert!(matches!(outcome, Ok(None)));
}

#[test]
fn test_get_next_unparsable_link_performs_no_send() {
    let client = SaxoClient::sim_with_sender(NoSend, "");
    let page = exchanges::Response {
        count: None,
        next: Some("/foo/bar/?$top=oops".to_string()),
        data: Vec::new(),
    };
    let outcome = client.get_next(&page);
    assert!(matches!(outcome, Ok(None)));
    let no_query = exchanges::Response {
        count: None,
        next: Some("no query component".to_string()),
        data: Vec::new(),
    };
    assert!(matches!(client.get_next(&no_query), Ok(None)));
}

#[test]
fn test_get_next_follows_link() {
    let body = "{\"Data\":[]}";
    let client = SaxoClient::sim_with_sender(
        CannedSender { status: 200, body: body.to_string() },
        "",
    );
    let page = exchanges::Response {
        count: None,
        next: Some("/foo/bar/?$top=2&$skip=4".to_string()),
        data: Vec::new(),
    };
    let following = client.get_next(&page).unwrap().unwrap();
    assert!(following.next.is_none());
    assert!(following.data.is_empty());
}
