//! The error model: the closed set of failure outcomes of a fetch, and the
//! decoding of the structured malformed-request payload.

use vstd::prelude::*;

use crate::chars::str_eq;
use crate::json::{json_str_member, json_str_map_member, json_member_str, json_member_str_map};

verus! {

/// The reason a malformed-request ("bad request") reply carries, as the
/// upstream API spells it on the wire. The set is closed: a spelling
/// outside it is a decode failure, never defaulted.
#[derive(Debug, PartialEq, Eq, Structural, Clone, Copy)]
pub enum ErrorCode {
    /// It cannot be determined which part of the request is malformed.
    InvalidRequest,
    /// One or more request headers are invalid.
    InvalidRequestHeader,
    /// The Accept or Content-Type header carries an invalid media type.
    InvalidMediaTypeHeader,
    /// The Accept-Language header carries an invalid language.
    InvalidAcceptLanguageHeader,
    /// A query parameter is invalid.
    InvalidQueryParameters,
    /// The request's model state is invalid.
    InvalidModelState,
    /// A type conversion failed upstream.
    TypeConversionError,
    /// More subscriptions were requested than the upstream allows.
    SubscriptionLimitExceeded,
    /// A throttling policy quota was exceeded.
    RateLimitExceeded,
    /// The requested feature is disabled upstream.
    FeatureNotEnabled,
    /// A timeout occurred inside the upstream application.
    InternalTimeout,
    /// The requested subscription format is not supported.
    UnsupportedSubscriptionFormat,
    /// The request is not allowed.
    RequestNotAllowed,
    /// Domain validation failed upstream.
    DomainValidationError,
}

impl Default for ErrorCode {
    /// The code the upstream documents as its generic default.
    fn default() -> (r: Self)
        ensures
            r == ErrorCode::InvalidRequest,
    {
        ErrorCode::InvalidRequest
    }
}

/// The wire spelling of an error code.
pub open spec fn spec_wire_name(c: ErrorCode) -> Seq<char> {
    match c {
        ErrorCode::InvalidRequest => "InvalidRequest"@,
        ErrorCode::InvalidRequestHeader => "InvalidRequestHeader"@,
        ErrorCode::InvalidMediaTypeHeader => "InvalidMediaTypeHeader"@,
        ErrorCode::InvalidAcceptLanguageHeader => "InvalidAcceptLanguageHeader"@,
        ErrorCode::InvalidQueryParameters => "InvalidQueryParameters"@,
        ErrorCode::InvalidModelState => "InvalidModelState"@,
        ErrorCode::TypeConversionError => "TypeConversionError"@,
        ErrorCode::SubscriptionLimitExceeded => "SubscriptionLimitExceeded"@,
        ErrorCode::RateLimitExceeded => "RateLimitExceeded"@,
        ErrorCode::FeatureNotEnabled => "FeatureNotEnabled"@,
        ErrorCode::InternalTimeout => "InternalTimeout"@,
        ErrorCode::UnsupportedSubscriptionFormat => "UnsupportedSubscriptionFormat"@,
        ErrorCode::RequestNotAllowed => "RequestNotAllowed"@,
        ErrorCode::DomainValidationError => "DomainValidationError"@,
    }
}

/// The error code a wire spelling denotes, if any.
pub open spec fn spec_code_of_wire(s: Seq<char>) -> Option<ErrorCode> {
    if s == "InvalidRequest"@ {
        Some(ErrorCode::InvalidRequest)
    } else if s == "InvalidRequestHeader"@ {
        Some(ErrorCode::InvalidRequestHeader)
    } else if s == "InvalidMediaTypeHeader"@ {
        Some(ErrorCode::InvalidMediaTypeHeader)
    } else if s == "InvalidAcceptLanguageHeader"@ {
        Some(ErrorCode::InvalidAcceptLanguageHeader)
    } else if s == "InvalidQueryParameters"@ {
        Some(ErrorCode::InvalidQueryParameters)
    } else if s == "InvalidModelState"@ {
        Some(ErrorCode::InvalidModelState)
    } else if s == "TypeConversionError"@ {
        Some(ErrorCode::TypeConversionError)
    } else if s == "SubscriptionLimitExceeded"@ {
        Some(ErrorCode::SubscriptionLimitExceeded)
    } else if s == "RateLimitExceeded"@ {
        Some(ErrorCode::RateLimitExceeded)
    } else if s == "FeatureNotEnabled"@ {
        Some(ErrorCode::FeatureNotEnabled)
    } else if s == "InternalTimeout"@ {
        Some(ErrorCode::InternalTimeout)
    } else if s == "UnsupportedSubscriptionFormat"@ {
        Some(ErrorCode::UnsupportedSubscriptionFormat)
    } else if s == "RequestNotAllowed"@ {
        Some(ErrorCode::RequestNotAllowed)
    } else if s == "DomainValidationError"@ {
        Some(ErrorCode::DomainValidationError)
    } else {
        None
    }
}

impl ErrorCode {
    /// The wire spelling of this code.
    pub fn wire_name(&self) -> (r: &'static str)
        ensures
            r@ == spec_wire_name(*self),
    {
        match self {
            ErrorCode::InvalidRequest => "InvalidRequest",
            ErrorCode::InvalidRequestHeader => "InvalidRequestHeader",
            ErrorCode::InvalidMediaTypeHeader => "InvalidMediaTypeHeader",
            ErrorCode::InvalidAcceptLanguageHeader => "InvalidAcceptLanguageHeader",
            ErrorCode::InvalidQueryParameters => "InvalidQueryParameters",
            ErrorCode::InvalidModelState => "InvalidModelState",
            ErrorCode::TypeConversionError => "TypeConversionError",
            ErrorCode::SubscriptionLimitExceeded => "SubscriptionLimitExceeded",
            ErrorCode::RateLimitExceeded => "RateLimitExceeded",
            ErrorCode::FeatureNotEnabled => "FeatureNotEnabled",
            ErrorCode::InternalTimeout => "InternalTimeout",
            ErrorCode::UnsupportedSubscriptionFormat => "UnsupportedSubscriptionFormat",
            ErrorCode::RequestNotAllowed => "RequestNotAllowed",
            ErrorCode::DomainValidationError => "DomainValidationError",
        }
    }

    /// The code a wire spelling denotes; an unrecognized spelling yields
    /// nothing rather than a default.
    pub fn from_wire(s: &str) -> (r: Option<ErrorCode>)
        ensures
            r == spec_code_of_wire(s@),
    {
        if str_eq(s, "InvalidRequest") {
            Some(ErrorCode::InvalidRequest)
        } else if str_eq(s, "InvalidRequestHeader") {
            Some(ErrorCode::InvalidRequestHeader)
        } else if str_eq(s, "InvalidMediaTypeHeader") {
            Some(ErrorCode::InvalidMediaTypeHeader)
        } else if str_eq(s, "InvalidAcceptLanguageHeader") {
            Some(ErrorCode::InvalidAcceptLanguageHeader)
        } else if str_eq(s, "InvalidQueryParameters") {
            Some(ErrorCode::InvalidQueryParameters)
        } else if str_eq(s, "InvalidModelState") {
            Some(ErrorCode::InvalidModelState)
        } else if str_eq(s, "TypeConversionError") {
            Some(ErrorCode::TypeConversionError)
        } else if str_eq(s, "SubscriptionLimitExceeded") {
            Some(ErrorCode::SubscriptionLimitExceeded)
        } else if str_eq(s, "RateLimitExceeded") {
            Some(ErrorCode::RateLimitExceeded)
        } else if str_eq(s, "FeatureNotEnabled") {
            Some(ErrorCode::FeatureNotEnabled)
        } else if str_eq(s, "InternalTimeout") {
            Some(ErrorCode::InternalTimeout)
        } else if str_eq(s, "UnsupportedSubscriptionFormat") {
            Some(ErrorCode::UnsupportedSubscriptionFormat)
        } else if str_eq(s, "RequestNotAllowed") {
            Some(ErrorCode::RequestNotAllowed)
        } else if str_eq(s, "DomainValidationError") {
            Some(ErrorCode::DomainValidationError)
        } else {
            None
        }
    }
}

/// Each code's wire spelling decodes back to that code and to no other.
#[verifier::rlimit(50)]
pub proof fn lemma_error_code_round_trip(c: ErrorCode)
    ensures
        spec_code_of_wire(spec_wire_name(c)) == Some(c),
{
    reveal_strlit("InvalidRequest");
    reveal_strlit("InvalidRequestHeader");
    reveal_strlit("InvalidMediaTypeHeader");
    reveal_strlit("InvalidAcceptLanguageHeader");
    reveal_strlit("InvalidQueryParameters");
    reveal_strlit("InvalidModelState");
    reveal_strlit("TypeConversionError");
    reveal_strlit("SubscriptionLimitExceeded");
    reveal_strlit("RateLimitExceeded");
    reveal_strlit("FeatureNotEnabled");
    reveal_strlit("InternalTimeout");
    reveal_strlit("UnsupportedSubscriptionFormat");
    reveal_strlit("RequestNotAllowed");
    reveal_strlit("DomainValidationError");
    // Pin down each spelling's length, and a distinguishing character for
    // the spellings of equal length, so no two spellings coincide.
    assert("InvalidRequest"@.len() == 14);
    assert("InvalidRequestHeader"@.len() == 20);
    assert("InvalidMediaTypeHeader"@.len() == 22);
    assert("InvalidAcceptLanguageHeader"@.len() == 27);
    assert("InvalidQueryParameters"@.len() == 22);
    assert("InvalidModelState"@.len() == 17);
    assert("TypeConversionError"@.len() == 19);
    assert("SubscriptionLimitExceeded"@.len() == 25);
    assert("RateLimitExceeded"@.len() == 17);
    assert("FeatureNotEnabled"@.len() == 17);
    assert("InternalTimeout"@.len() == 15);
    assert("UnsupportedSubscriptionFormat"@.len() == 29);
    assert("RequestNotAllowed"@.len() == 17);
    assert("DomainValidationError"@.len() == 21);
    assert("InvalidMediaTypeHeader"@[7] == 'M');
    assert("InvalidQueryParameters"@[7] == 'Q');
    assert("InvalidModelState"@[0] == 'I');
    assert("RateLimitExceeded"@[0] == 'R');
    assert("FeatureNotEnabled"@[0] == 'F');
    assert("RequestNotAllowed"@[0] == 'R');
    assert("RateLimitExceeded"@[1] == 'a');
    assert("RequestNotAllowed"@[1] == 'e');
    match c {
        ErrorCode::InvalidRequest => {
            assert(spec_code_of_wire("InvalidRequest"@) == Some(c));
        },
        ErrorCode::InvalidRequestHeader => {
            assert(spec_code_of_wire("InvalidRequestHeader"@) == Some(c));
        },
        ErrorCode::InvalidMediaTypeHeader => {
            assert(spec_code_of_wire("InvalidMediaTypeHeader"@) == Some(c));
        },
        ErrorCode::InvalidAcceptLanguageHeader => {
            assert(spec_code_of_wire("InvalidAcceptLanguageHeader"@) == Some(c));
        },
        ErrorCode::InvalidQueryParameters => {
            assert(spec_code_of_wire("InvalidQueryParameters"@) == Some(c));
        },
        ErrorCode::InvalidModelState => {
            assert(spec_code_of_wire("InvalidModelState"@) == Some(c));
        },
        ErrorCode::TypeConversionError => {
            assert(spec_code_of_wire("TypeConversionError"@) == Some(c));
        },
        ErrorCode::SubscriptionLimitExceeded => {
            assert(spec_code_of_wire("SubscriptionLimitExceeded"@) == Some(c));
        },
        ErrorCode::RateLimitExceeded => {
            assert(spec_code_of_wire("RateLimitExceeded"@) == Some(c));
        },
        ErrorCode::FeatureNotEnabled => {
            assert(spec_code_of_wire("FeatureNotEnabled"@) == Some(c));
        },
        ErrorCode::InternalTimeout => {
            assert(spec_code_of_wire("InternalTimeout"@) == Some(c));
        },
        ErrorCode::UnsupportedSubscriptionFormat => {
            assert(spec_code_of_wire("UnsupportedSubscriptionFormat"@) == Some(c));
        },
        ErrorCode::RequestNotAllowed => {
            assert(spec_code_of_wire("RequestNotAllowed"@) == Some(c));
        },
        ErrorCode::DomainValidationError => {
            assert(spec_code_of_wire("DomainValidationError"@) == Some(c));
        },
    }
}

/// A structured malformed-request payload: the reason code, a readable
/// message, and optionally a mapping from field paths to validation
/// messages.
#[derive(Debug)]
pub struct SaxoBadRequest {
    error_code: ErrorCode,
    message: String,
    model_state: Option<Vec<(String, Vec<String>)>>,
}

/// The mathematical value of a [`SaxoBadRequest`].
#[verifier::ext_equal]
pub struct BadRequestView {
    pub error_code: ErrorCode,
    pub message: Seq<char>,
    pub model_state: Option<Seq<(Seq<char>, Seq<Seq<char>>)>>,
}

impl View for SaxoBadRequest {
    type V = BadRequestView;

    closed spec fn view(&self) -> BadRequestView {
        BadRequestView {
            error_code: self.error_code,
            message: self.message@,
            model_state: match self.model_state {
                Some(m) => Some(m.deep_view()),
                None => None,
            },
        }
    }
}

impl SaxoBadRequest {
    /// The reason code of this payload.
    pub fn error_code(&self) -> (r: &ErrorCode)
        ensures
            *r == self@.error_code,
    {
        &self.error_code
    }

    /// The readable message of this payload.
    pub fn message(&self) -> (r: &str)
        ensures
            r@ == self@.message,
    {
        self.message.as_str()
    }

    /// The field-path-to-validation-messages mapping, when one was sent.
    pub fn model_state(&self) -> (r: &Option<Vec<(String, Vec<String>)>>)
        ensures
            r is Some <==> self@.model_state is Some,
            r matches Some(m) ==> self@.model_state == Some(m.deep_view()),
    {
        &self.model_state
    }
}

/// Why a malformed-request payload could not be decoded.
#[derive(Debug, PartialEq, Eq, Structural, Clone, Copy)]
pub enum BadRequestDecodeFailure {
    /// The body is not a JSON object of the expected shape.
    MalformedBody,
    /// The body's `ErrorCode` spelling is not one of the known codes.
    UnknownErrorCode,
}

/// The decoding of a malformed-request body: a JSON object with a known
/// `ErrorCode` spelling, a `Message` string, and an optional `ModelState`
/// mapping. An unknown spelling is reported apart from a malformed body.
pub open spec fn spec_parse_bad_request(body: Seq<char>) -> Result<
    BadRequestView,
    BadRequestDecodeFailure,
> {
    match (
        json_str_member(body, "ErrorCode"@),
        json_str_member(body, "Message"@),
        json_str_map_member(body, "ModelState"@),
    ) {
        (Ok(Some(code)), Ok(Some(message)), Ok(model_state)) => match spec_code_of_wire(code) {
            Some(error_code) => Ok(BadRequestView { error_code, message, model_state }),
            None => Err(BadRequestDecodeFailure::UnknownErrorCode),
        },
        _ => Err(BadRequestDecodeFailure::MalformedBody),
    }
}

/// Decodes a malformed-request body.
pub fn parse_bad_request(body: &str) -> (r: Result<SaxoBadRequest, BadRequestDecodeFailure>)
    ensures
        match r {
            Ok(b) => spec_parse_bad_request(body@) == Ok::<BadRequestView, BadRequestDecodeFailure>(
                b@,
            ),
            Err(e) => spec_parse_bad_request(body@) == Err::<
                BadRequestView,
                BadRequestDecodeFailure,
            >(e),
        },
{
    let code_m = json_member_str(body, "ErrorCode");
    let msg_m = json_member_str(body, "Message");
    let ms_m = json_member_str_map(body, "ModelState");
    match (code_m, msg_m, ms_m) {
        (Ok(Some(code)), Ok(Some(message)), Ok(model_state)) => {
            match ErrorCode::from_wire(code.as_str()) {
                Some(error_code) => {
                    let b = SaxoBadRequest { error_code, message, model_state };
                    proof {
                        assert(spec_parse_bad_request(body@) == Ok::<
                            BadRequestView,
                            BadRequestDecodeFailure,
                        >(b@)) by {
                            assert(b@ =~= spec_parse_bad_request(body@)->Ok_0);
                        }
                    }
                    Ok(b)
                },
                None => Err(BadRequestDecodeFailure::UnknownErrorCode),
            }
        },
        _ => Err(BadRequestDecodeFailure::MalformedBody),
    }
}

/// The mathematical value of a [`SaxoError`].
#[verifier::ext_equal]
pub enum SaxoErrorView {
    TransportError(Seq<char>),
    Unauthorized,
    BadRequest(BadRequestView),
    HttpError(u16, Seq<char>),
}

/// A failure outcome of one fetch. The taxonomy is closed: sending or
/// shape trouble, HTTP 401, HTTP 400 with its structured payload, or any
/// other non-2xx status.
#[derive(Debug)]
pub enum SaxoError {
    /// The request could not be sent, or a reply body did not have the
    /// shape its status promises. Carries a diagnostic.
    TransportError(String),
    /// HTTP 401; the upstream sends no usable payload with it.
    Unauthorized,
    /// HTTP 400 with its structured payload.
    BadRequest(SaxoBadRequest),
    /// Any other non-2xx status, with the reply body as diagnostic.
    HttpError(u16, String),
}

impl View for SaxoError {
    type V = SaxoErrorView;

    open spec fn view(&self) -> SaxoErrorView {
        match self {
            SaxoError::TransportError(d) => SaxoErrorView::TransportError(d@),
            SaxoError::Unauthorized => SaxoErrorView::Unauthorized,
            SaxoError::BadRequest(b) => SaxoErrorView::BadRequest(b@),
            SaxoError::HttpError(status, d) => SaxoErrorView::HttpError(*status, d@),
        }
    }
}

} // verus!
