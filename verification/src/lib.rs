//! A typed client library for the Saxobank OpenAPI.
//!
//! Endpoints are described by request types implementing [`SaxoRequest`];
//! each request type is bound at compile time to the one response shape its
//! fetch can produce. Paged ("OData") responses carry a continuation link
//! from which the next page's request can be derived.

use vstd::prelude::*;

pub mod chars;
pub mod client;
pub mod error;
pub mod json;
pub mod messages;
pub mod query;
pub mod time;

use chars::{chars_to_string, push_i32, spec_render_i32};

verus! {

/// Query parameters of a paged ("OData") endpoint: an optional `$top`
/// (take at most N items) and an optional `$skip` (skip the first M items).
#[derive(Debug, PartialEq, Eq, Structural, Clone, Copy)]
pub struct ODataParams {
    pub top: Option<i32>,
    pub skip: Option<i32>,
}

impl Default for ODataParams {
    /// Parameters with both `$top` and `$skip` absent.
    fn default() -> (r: Self)
        ensures
            r == (ODataParams { top: None, skip: None }),
    {
        ODataParams { top: None, skip: None }
    }
}

/// The argument of one request: either a literal resource identifier
/// (such as `me`), or the query parameters of a paged endpoint.
pub enum EndPointArgument {
    Id(&'static str),
    OData(ODataParams),
}

/// The mathematical value of an [`EndPointArgument`].
#[verifier::ext_equal]
pub enum ArgView {
    Id(Seq<char>),
    OData(Option<i32>, Option<i32>),
}

impl View for EndPointArgument {
    type V = ArgView;

    open spec fn view(&self) -> ArgView {
        match self {
            EndPointArgument::Id(s) => ArgView::Id(s@),
            EndPointArgument::OData(p) => ArgView::OData(p.top, p.skip),
        }
    }
}

/// The rendering of paged-query parameters as a URL suffix: a `?` marker
/// followed by `$top=<N>` and `$skip=<M>`, joined with `&`; either part is
/// omitted when its parameter is absent.
pub open spec fn spec_render_odata(top: Option<i32>, skip: Option<i32>) -> Seq<char> {
    let t = match top {
        Some(t) => "$top="@ + spec_render_i32(t as int),
        None => Seq::<char>::empty(),
    };
    let s = match skip {
        Some(s) => "$skip="@ + spec_render_i32(s as int),
        None => Seq::<char>::empty(),
    };
    let mid = if top is Some && skip is Some {
        "&"@
    } else {
        Seq::<char>::empty()
    };
    "?"@ + t + mid + s
}

/// The rendering of an argument: an identifier renders as itself, paged
/// parameters render as their query suffix.
pub open spec fn spec_render_arg(a: ArgView) -> Seq<char> {
    match a {
        ArgView::Id(s) => s,
        ArgView::OData(top, skip) => spec_render_odata(top, skip),
    }
}

impl EndPointArgument {
    /// Renders this argument as the trailing part of a request URL.
    pub fn render(&self) -> (r: String)
        ensures
            r@ == spec_render_arg(self@),
    {
        match self {
            EndPointArgument::Id(s) => s_to_string(s),
            EndPointArgument::OData(p) => {
                let mut out = String::new();
                out.append("?");
                match p.top {
                    Some(t) => {
                        out.append("$top=");
                        let mut digits: Vec<char> = Vec::new();
                        push_i32(t, &mut digits);
                        let ds = chars_to_string(&digits);
                        out.append(ds.as_str());
                    },
                    None => {},
                }
                if p.top.is_some() && p.skip.is_some() {
                    out.append("&");
                }
                match p.skip {
                    Some(s) => {
                        out.append("$skip=");
                        let mut digits: Vec<char> = Vec::new();
                        push_i32(s, &mut digits);
                        let ds = chars_to_string(&digits);
                        out.append(ds.as_str());
                    },
                    None => {},
                }
                proof {
                    assert(out@ =~= spec_render_arg(self@));
                }
                out
            },
        }
    }
}

fn s_to_string(s: &str) -> (r: String)
    ensures
        r@ == s@,
{
    s.to_owned()
}

/// One API endpoint's request shape: a fixed relative path, an argument
/// for the particular request instance, and — at the type level — the one
/// response shape a fetch with this request can produce.
pub trait SaxoRequest: Sized {
    /// The response shape a fetch with this request decodes into.
    type ResponseType;

    /// The argument of this request instance.
    spec fn spec_argument(&self) -> ArgView;

    /// The endpoint's relative path.
    spec fn spec_endpoint() -> Seq<char>;

    /// The argument of this request instance.
    fn argument(&self) -> (a: &EndPointArgument)
        ensures
            a@ == self.spec_argument(),
    ;

    /// The endpoint's relative path.
    fn endpoint() -> (p: &'static str)
        ensures
            p@ == Self::spec_endpoint(),
    ;
}

/// One API endpoint's response shape, with its decoding from a reply body.
pub trait SaxoResponse: View + Sized {
    /// The request type whose fetch produces this response shape.
    type RequestType;

    /// The value a body of this shape denotes, or nothing when the body
    /// does not have the shape.
    spec fn spec_parse(body: Seq<char>) -> Option<Self::V>;

    /// Decodes a reply body into this shape.
    fn parse_body(body: &str) -> (r: Result<Self, ()>)
        ensures
            match r {
                Ok(v) => Self::spec_parse(body@) == Some(v@),
                Err(_) => Self::spec_parse(body@) is None,
            },
    ;
}

/// A paged response shape: one that carries an optional continuation link
/// from which the next page's request can be derived.
pub trait SaxoResponseOData: SaxoResponse where Self::RequestType: SaxoRequest {
    /// The continuation link this response carries, if any.
    spec fn spec_next_link(&self) -> Option<Seq<char>>;

    /// Derives the next page's request from the continuation link. Yields
    /// nothing — pagination ends, without an error — when the link is
    /// absent or its query does not parse; otherwise the request of the
    /// same endpoint whose argument is the link's `$top`/`$skip` pair.
    fn next(&self) -> (r: Option<Self::RequestType>)
        ensures
            match query::spec_next_of_link(self.spec_next_link()) {
                Some(p) => r matches Some(req) && req.spec_argument() == ArgView::OData(
                    p.top,
                    p.skip,
                ),
                None => r is None,
            },
    ;
}

} // verus!
