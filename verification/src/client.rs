//! The API client: URL construction, the response decoder, the transport
//! capability boundary, and pagination following.

use vstd::prelude::*;

use crate::error::{
    BadRequestDecodeFailure, SaxoError, SaxoErrorView, parse_bad_request, spec_parse_bad_request,
};
use crate::messages::{portfolio, reference_data};
use crate::query::spec_next_of_link;
use crate::{ArgView, EndPointArgument, ODataParams, SaxoRequest, SaxoResponse, SaxoResponseOData,
    spec_render_arg};

verus! {

/// The deployment target of the upstream API: its simulation host segment
/// or its production host segment.
#[derive(Debug, PartialEq, Eq, Structural, Clone, Copy)]
enum Env {
    Sim,
    Live,
}

spec fn spec_env_segment(e: Env) -> Seq<char> {
    match e {
        Env::Sim => "sim"@,
        Env::Live => "live"@,
    }
}

fn env_segment(e: Env) -> (r: &'static str)
    ensures
        r@ == spec_env_segment(e),
{
    match e {
        Env::Sim => "sim",
        Env::Live => "live",
    }
}

/// The transport capability: one operation, performing a prepared GET and
/// returning the reply's status code and body text, or a transport
/// diagnostic. Nothing is promised of the outcome; the decoder is
/// verified for every reply the transport may hand back.
pub trait HttpSend {
    /// Performs one GET of `url` with the given headers.
    fn send_get(&self, url: &str, headers: &Vec<(String, String)>) -> Result<(u16, String), String>;
}

/// The default headers of every request: `Accept`, `Authorization` with
/// the bearer credential, and `Content-Type`.
pub open spec fn spec_default_headers(token: Seq<char>) -> Seq<(Seq<char>, Seq<char>)> {
    seq![
        ("Accept"@, "*/*"@),
        ("Authorization"@, "BEARER "@ + token),
        ("Content-Type"@, "application/json"@),
    ]
}

/// Builds the default headers for a bearer credential.
pub fn build_headers(token: &str) -> (r: Vec<(String, String)>)
    ensures
        r.deep_view() == spec_default_headers(token@),
{
    let mut auth = String::new();
    auth.append("BEARER ");
    auth.append(token);
    let mut r: Vec<(String, String)> = Vec::new();
    r.push(("Accept".to_owned(), "*/*".to_owned()));
    r.push(("Authorization".to_owned(), auth));
    r.push(("Content-Type".to_owned(), "application/json".to_owned()));
    proof {
        assert(r.deep_view() =~= spec_default_headers(token@));
    }
    r
}

spec fn spec_url(e: Env, path: Seq<char>, arg: ArgView) -> Seq<char> {
    "https://gateway.saxobank.com/"@ + spec_env_segment(e) + "/openapi/"@ + path
        + spec_render_arg(arg)
}

/// The full URL of one request: host, environment segment, the fixed
/// `openapi` prefix, the endpoint's path, and the rendered argument.
fn build_url(e: Env, path: &str, arg: &EndPointArgument) -> (r: String)
    ensures
        r@ == spec_url(e, path@, arg@),
{
    let mut url = String::new();
    url.append("https://gateway.saxobank.com/");
    url.append(env_segment(e));
    url.append("/openapi/");
    url.append(path);
    let rendered = arg.render();
    url.append(rendered.as_str());
    proof {
        assert(url@ =~= spec_url(e, path@, arg@));
    }
    url
}

/// The outcome the response decoder owes for a reply. HTTP 400 decodes
/// the structured malformed-request payload — a malformed payload is a
/// transport-class failure, an unknown reason code a distinguishable one.
/// HTTP 401 is `Unauthorized` whatever the body holds. Any other non-2xx
/// status is `HttpError` with the body as diagnostic. A 2xx reply decodes
/// the body as the response shape, and only there.
pub open spec fn spec_decode_outcome<R: SaxoResponse>(status: u16, body: Seq<char>) -> Result<
    R::V,
    SaxoErrorView,
> {
    if status == 400 {
        match spec_parse_bad_request(body) {
            Ok(b) => Err(SaxoErrorView::BadRequest(b)),
            Err(BadRequestDecodeFailure::UnknownErrorCode) => Err(
                SaxoErrorView::TransportError("Unknown ErrorCode!"@),
            ),
            Err(BadRequestDecodeFailure::MalformedBody) => Err(
                SaxoErrorView::TransportError("malformed bad-request body"@),
            ),
        }
    } else if status == 401 {
        Err(SaxoErrorView::Unauthorized)
    } else if 200 <= status && status < 300 {
        match R::spec_parse(body) {
            Some(v) => Ok(v),
            None => Err(SaxoErrorView::TransportError("unexpected response body shape"@)),
        }
    } else {
        Err(SaxoErrorView::HttpError(status, body))
    }
}

/// Decodes one reply — status code and body text — into the typed
/// response or a failure outcome.
pub fn decode_response<R: SaxoResponse>(status: u16, body: &str) -> (r: Result<R, SaxoError>)
    ensures
        match r {
            Ok(v) => spec_decode_outcome::<R>(status, body@) == Ok::<R::V, SaxoErrorView>(v@),
            Err(e) => spec_decode_outcome::<R>(status, body@) == Err::<R::V, SaxoErrorView>(e@),
        },
{
    if status == 400 {
        match parse_bad_request(body) {
            Ok(b) => Err(SaxoError::BadRequest(b)),
            Err(BadRequestDecodeFailure::UnknownErrorCode) => Err(
                SaxoError::TransportError("Unknown ErrorCode!".to_owned()),
            ),
            Err(BadRequestDecodeFailure::MalformedBody) => Err(
                SaxoError::TransportError("malformed bad-request body".to_owned()),
            ),
        }
    } else if status == 401 {
        Err(SaxoError::Unauthorized)
    } else if 200 <= status && status < 300 {
        match R::parse_body(body) {
            Ok(v) => Ok(v),
            Err(_) => Err(SaxoError::TransportError("unexpected response body shape".to_owned())),
        }
    } else {
        Err(SaxoError::HttpError(status, body.to_owned()))
    }
}

/// Whether `r` is the decoder's outcome for a reply with `status` and
/// `body`.
pub open spec fn spec_is_decoded_outcome<R: SaxoResponse>(
    status: u16,
    body: Seq<char>,
    r: Result<R, SaxoError>,
) -> bool {
    match r {
        Ok(v) => spec_decode_outcome::<R>(status, body) == Ok::<R::V, SaxoErrorView>(v@),
        Err(e) => spec_decode_outcome::<R>(status, body) == Err::<R::V, SaxoErrorView>(e@),
    }
}

/// Whether `r`, as the outcome of fetching one further page, is the
/// decoder's outcome for a reply with `status` and `body`.
pub open spec fn spec_is_page_outcome<R: SaxoResponse>(
    status: u16,
    body: Seq<char>,
    r: Result<Option<R>, SaxoError>,
) -> bool {
    match r {
        Ok(Some(v)) => spec_decode_outcome::<R>(status, body) == Ok::<R::V, SaxoErrorView>(v@),
        Ok(None) => false,
        Err(e) => spec_decode_outcome::<R>(status, body) == Err::<R::V, SaxoErrorView>(e@),
    }
}

/// A client for the upstream API: a transport capability, a target
/// environment, and the default headers derived once from the bearer
/// credential. Immutable after construction; construction performs no
/// send, and each fetch performs exactly one.
pub struct SaxoClient<S: HttpSend> {
    sender: S,
    env: Env,
    headers: Vec<(String, String)>,
}

impl<S: HttpSend> SaxoClient<S> {
    /// The default headers this client hands to the transport with every
    /// request.
    pub closed spec fn spec_headers(&self) -> Seq<(Seq<char>, Seq<char>)> {
        self.headers.deep_view()
    }

    /// Whether this client targets the simulation environment.
    pub closed spec fn spec_is_sim(&self) -> bool {
        self.env is Sim
    }

    /// A client against the simulation environment, with the given
    /// transport. Performs no send.
    pub fn sim_with_sender(sender: S, token: &str) -> (r: Self)
        ensures
            r.spec_is_sim(),
            r.spec_headers() == spec_default_headers(token@),
    {
        SaxoClient { sender, env: Env::Sim, headers: build_headers(token) }
    }

    /// A client against the production environment, with the given
    /// transport. Performs no send.
    pub fn live_with_sender(sender: S, token: &str) -> (r: Self)
        ensures
            !r.spec_is_sim(),
            r.spec_headers() == spec_default_headers(token@),
    {
        SaxoClient { sender, env: Env::Live, headers: build_headers(token) }
    }

    /// Fetches one endpoint: builds the request's URL, performs one send,
    /// and decodes the reply. Whatever reply the transport hands back,
    /// the result is the decoder's outcome for it; a transport-level
    /// failure is returned as `TransportError` with its diagnostic.
    pub fn get<T: SaxoRequest>(&self, request: T) -> (r: Result<T::ResponseType, SaxoError>) where
        T::ResponseType: SaxoResponse

        ensures
            (r matches Err(e) && e@ is TransportError) || (exists|status: u16, body: Seq<char>|
                spec_is_decoded_outcome::<T::ResponseType>(status, body, r)),
    {
        let url = build_url(self.env, T::endpoint(), request.argument());
        match self.sender.send_get(url.as_str(), &self.headers) {
            Err(diag) => Err(SaxoError::TransportError(diag)),
            Ok((status, body)) => {
                let r = decode_response::<T::ResponseType>(status, body.as_str());
                proof {
                    assert(spec_is_decoded_outcome::<T::ResponseType>(status, body@, r));
                }
                r
            },
        }
    }

    /// Follows a paged response's continuation link: when the link yields
    /// a next request, fetches it; when the link is absent or does not
    /// parse, reports that no further page exists, without performing a
    /// send.
    pub fn get_next<T: SaxoResponseOData>(&self, resp: &T) -> (r: Result<
        Option<<T::RequestType as SaxoRequest>::ResponseType>,
        SaxoError,
    >) where
        T::RequestType: SaxoRequest,
        <T::RequestType as SaxoRequest>::ResponseType: SaxoResponse,

        ensures
            spec_next_of_link(resp.spec_next_link()) is None ==> r matches Ok(None),
            spec_next_of_link(resp.spec_next_link()) is Some ==> ((r matches Err(e) && e@
                is TransportError) || (exists|status: u16, body: Seq<char>|
                spec_is_page_outcome::<<T::RequestType as SaxoRequest>::ResponseType>(
                    status,
                    body,
                    r,
                ))),
    {
        match resp.next() {
            None => Ok(None),
            Some(request) => {
                match self.get(request) {
                    Ok(v) => {
                        let r = Ok(Some(v));
                        proof {
                            let (status, body) = choose|status: u16, body: Seq<char>|
                                spec_is_decoded_outcome::<
                                    <T::RequestType as SaxoRequest>::ResponseType,
                                >(status, body, Ok(v));
                            assert(spec_is_page_outcome::<
                                <T::RequestType as SaxoRequest>::ResponseType,
                            >(status, body, r));
                        }
                        r
                    },
                    Err(e) => {
                        let ghost ev = e@;
                        let r = Err::<
                            Option<<T::RequestType as SaxoRequest>::ResponseType>,
                            SaxoError,
                        >(e);
                        proof {
                            if !(ev is TransportError) {
                                let (status, body) = choose|status: u16, body: Seq<char>|
                                    spec_is_decoded_outcome::<
                                        <T::RequestType as SaxoRequest>::ResponseType,
                                    >(status, body, Err::<
                                        <T::RequestType as SaxoRequest>::ResponseType,
                                        SaxoError,
                                    >(e));
                                assert(spec_is_page_outcome::<
                                    <T::RequestType as SaxoRequest>::ResponseType,
                                >(status, body, r));
                            }
                        }
                        r
                    },
                }
            },
        }
    }

    /// Fetches the current user's information.
    pub fn get_port_user_info(&self) -> (r: Result<portfolio::users::Response, SaxoError>)
        ensures
            (r matches Err(e) && e@ is TransportError) || (exists|status: u16, body: Seq<char>|
                spec_is_decoded_outcome::<portfolio::users::Response>(status, body, r)),
    {
        self.get(portfolio::users::Request::new("me"))
    }

    /// Fetches the current client's information.
    pub fn get_port_client_info(&self) -> (r: Result<portfolio::clients::Response, SaxoError>)
        ensures
            (r matches Err(e) && e@ is TransportError) || (exists|status: u16, body: Seq<char>|
                spec_is_decoded_outcome::<portfolio::clients::Response>(status, body, r)),
    {
        self.get(portfolio::clients::Request::new("me"))
    }

    /// Fetches the first five exchanges of the listing.
    pub fn get_ref_exchanges(&self) -> (r: Result<reference_data::exchanges::Response, SaxoError>)
        ensures
            (r matches Err(e) && e@ is TransportError) || (exists|status: u16, body: Seq<char>|
                spec_is_decoded_outcome::<reference_data::exchanges::Response>(status, body, r)),
    {
        self.get(
            reference_data::exchanges::Request::new(
                ODataParams { top: Some(5), skip: Some(0) },
            ),
        )
    }

    /// Fetches one page of the exchanges listing and hands back a handle
    /// from which the following pages can be fetched in turn.
    pub fn get_ref_exchanges2(&self, params: ODataParams) -> (r: Result<
        NextHandle<'_, S, reference_data::exchanges::Response>,
        SaxoError,
    >)
        ensures
            match r {
                Ok(h) => exists|status: u16, body: Seq<char>|
                    spec_decode_outcome::<reference_data::exchanges::Response>(status, body) == Ok::<
                        reference_data::exchanges::ResponseView,
                        SaxoErrorView,
                    >(h.spec_resp()@),
                Err(e) => e@ is TransportError || (exists|status: u16, body: Seq<char>|
                    spec_decode_outcome::<reference_data::exchanges::Response>(status, body)
                        == Err::<reference_data::exchanges::ResponseView, SaxoErrorView>(e@)),
            },
    {
        match self.get(reference_data::exchanges::Request::new(params)) {
            Ok(resp) => Ok(NextHandle { client: self, resp }),
            Err(e) => Err(e),
        }
    }
}

/// A fetched page of a paged listing, together with the client that
/// fetched it, from which the following page can be fetched in turn.
pub struct NextHandle<'a, S: HttpSend, T: SaxoResponseOData> where T::RequestType: SaxoRequest {
    client: &'a SaxoClient<S>,
    resp: T,
}

impl<'a, S: HttpSend, T: SaxoResponseOData> NextHandle<'a, S, T> where T::RequestType: SaxoRequest {
    /// The page this handle carries.
    pub closed spec fn spec_resp(&self) -> T {
        self.resp
    }

    /// The page this handle carries.
    pub fn resp(&self) -> (r: &T)
        ensures
            *r == self.spec_resp(),
    {
        &self.resp
    }

    /// Fetches the page the continuation link of this one leads to; when
    /// the link is absent or does not parse, reports that no further page
    /// exists, without performing a send.
    pub fn next(self) -> (r: Result<
        Option<NextHandle<'a, S, <T::RequestType as SaxoRequest>::ResponseType>>,
        SaxoError,
    >) where
        <T::RequestType as SaxoRequest>::ResponseType: SaxoResponseOData,
        <<T::RequestType as SaxoRequest>::ResponseType as SaxoResponse>::RequestType: SaxoRequest,

        ensures
            spec_next_of_link(self.spec_resp().spec_next_link()) is None ==> r matches Ok(None),
            spec_next_of_link(self.spec_resp().spec_next_link()) is Some ==> match r {
                Ok(Some(h)) => exists|status: u16, body: Seq<char>|
                    spec_decode_outcome::<<T::RequestType as SaxoRequest>::ResponseType>(
                        status,
                        body,
                    ) == Ok::<
                        <<T::RequestType as SaxoRequest>::ResponseType as View>::V,
                        SaxoErrorView,
                    >(h.spec_resp()@),
                Ok(None) => false,
                Err(e) => e@ is TransportError || (exists|status: u16, body: Seq<char>|
                    spec_decode_outcome::<<T::RequestType as SaxoRequest>::ResponseType>(
                        status,
                        body,
                    ) == Err::<
                        <<T::RequestType as SaxoRequest>::ResponseType as View>::V,
                        SaxoErrorView,
                    >(e@)),
            },
    {
        match self.client.get_next(&self.resp) {
            Ok(None) => Ok(None),
            Ok(Some(resp)) => {
                let h = NextHandle { client: self.client, resp };
                let r = Ok(Some(h));
                proof {
                    if spec_next_of_link(self.spec_resp().spec_next_link()) is Some {
                        let (status, body) = choose|status: u16, body: Seq<char>|
                            spec_is_page_outcome::<<T::RequestType as SaxoRequest>::ResponseType>(
                                status,
                                body,
                                Ok(Some(r->Ok_0->Some_0.spec_resp())),
                            );
                        assert(spec_decode_outcome::<
                            <T::RequestType as SaxoRequest>::ResponseType,
                        >(status, body) == Ok::<
                            <<T::RequestType as SaxoRequest>::ResponseType as View>::V,
                            SaxoErrorView,
                        >(r->Ok_0->Some_0.spec_resp()@));
                    }
                }
                r
            },
            Err(e) => {
                let ghost ev = e@;
                let r = Err::<
                    Option<NextHandle<'a, S, <T::RequestType as SaxoRequest>::ResponseType>>,
                    SaxoError,
                >(e);
                proof {
                    if spec_next_of_link(self.spec_resp().spec_next_link()) is Some && !(ev
                        is TransportError) {
                        let (status, body) = choose|status: u16, body: Seq<char>|
                            spec_is_page_outcome::<<T::RequestType as SaxoRequest>::ResponseType>(
                                status,
                                body,
                                Err::<
                                    Option<<T::RequestType as SaxoRequest>::ResponseType>,
                                    SaxoError,
                                >(r->Err_0),
                            );
                        assert(spec_decode_outcome::<
                            <T::RequestType as SaxoRequest>::ResponseType,
                        >(status, body) == Err::<
                            <<T::RequestType as SaxoRequest>::ResponseType as View>::V,
                            SaxoErrorView,
                        >(ev));
                    }
                }
                r
            },
        }
    }
}

} // verus!
