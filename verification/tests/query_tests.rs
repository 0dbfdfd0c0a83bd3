//! Tests of query rendering, parsing, and their round trip.

use saxobank::{EndPointArgument, ODataParams};
use saxobank::query::{parse_next_link, parse_query};

#[test]
fn test_serde_o_data_params() {
    assert_eq!(
        parse_query("$top=123&$skip=42"),
        Some(ODataParams { top: Some(123), skip: Some(42) })
    );
    assert_eq!(parse_query(""), Some(ODataParams::default()));
}

#[test]
fn test_end_point_argument_display() {
    assert_eq!(EndPointArgument::Id("me").render(), "me");
    assert_eq!(EndPointArgument::OData(ODataParams::default()).render(), "?");
    assert_eq!(
        EndPointArgument::OData(ODataParams { top: Some(10), skip: None }).render(),
        "?$top=10"
    );
    assert_eq!(
        EndPointArgument::OData(ODataParams { top: None, skip: Some(42) }).render(),
        "?$skip=42"
    );
    assert_eq!(
        EndPointArgument::OData(ODataParams { top: Some(10), skip: Some(42) }).render(),
        "?$top=10&$skip=42"
    );
}

#[test]
fn test_round_trip_rendered_query() {
    for params in [
        ODataParams::default(),
        ODataParams { top: Some(0), skip: None },
        ODataParams { top: None, skip: Some(0) },
        ODataParams { top: Some(123), skip: Some(42) },
        ODataParams { top: Some(i32::MAX), skip: Some(1) },
        ODataParams { top: Some(-3), skip: Some(i32::MIN) },
    ] {
        let rendered = EndPointArgument::OData(params).render();
        assert_eq!(parse_next_link(&rendered), Some(params));
    }
}

#[test]
fn test_parse_query_ignores_unknown_keys() {
    assert_eq!(
        parse_query("foo=bar&$top=7"),
        Some(ODataParams { top: Some(7), skip: None })
    );
}

#[test]
fn test_parse_query_repeated_key_fails() {
    assert_eq!(parse_query("$top=1&$top=2"), None);
    assert_eq!(parse_query("$skip=1&$skip=1"), None);
}

#[test]
fn test_parse_query_malformed_value_fails() {
    assert_eq!(parse_query("$top=abc"), None);
    assert_eq!(parse_query("$top="), None);
    assert_eq!(parse_query("$top"), None);
    assert_eq!(parse_query("$skip=2s"), None);
}

#[test]
fn test_parse_query_value_out_of_range_fails() {
    assert_eq!(
        parse_query("$top=2147483647"),
        Some(ODataParams { top: Some(i32::MAX), skip: None })
    );
    assert_eq!(parse_query("$top=2147483648"), None);
    assert_eq!(
        parse_query("$skip=-2147483648"),
        Some(ODataParams { top: None, skip: Some(i32::MIN) })
    );
    assert_eq!(parse_query("$skip=-2147483649"), None);
}

#[test]
fn test_parse_next_link_extracts_query() {
    assert_eq!(
        parse_next_link("/foo/bar/?$top=123&$skip=42"),
        Some(ODataParams { top: Some(123), skip: Some(42) })
    );
    assert_eq!(parse_next_link("/foo/bar/"), None);
    assert_eq!(
        parse_next_link("/foo/bar/?$top=1#frag"),
        Some(ODataParams { top: Some(1), skip: None })
    );
}
