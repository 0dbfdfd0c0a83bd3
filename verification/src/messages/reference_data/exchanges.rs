//! The exchanges endpoint: a paged listing of exchanges, their trading
//! sessions, and the continuation link to the next page.

use vstd::prelude::*;

use crate::chars::str_eq;
use crate::json::{
    json_bool_member, json_int_member, json_is_object, json_member_bool, json_member_i64,
    json_member_raw, json_member_raw_array, json_member_str, json_object_check,
    json_raw_array_member, json_raw_member, json_str_member,
};
use crate::query::parse_next_link;
use crate::time::{UtcInstant, parse_instant, rfc3339_instant};
use crate::{ArgView, EndPointArgument, ODataParams, SaxoRequest, SaxoResponse, SaxoResponseOData};

verus! {

/// A request for one page of the exchanges listing.
pub struct Request {
    argument: EndPointArgument,
}

impl Request {
    /// A request for the page the given `$top`/`$skip` parameters select.
    pub fn new(params: ODataParams) -> (r: Request)
        ensures
            r.spec_argument() == ArgView::OData(params.top, params.skip),
    {
        Request { argument: EndPointArgument::OData(params) }
    }
}

impl SaxoRequest for Request {
    type ResponseType = Response;

    closed spec fn spec_argument(&self) -> ArgView {
        self.argument@
    }

    open spec fn spec_endpoint() -> Seq<char> {
        "ref/v1/exchanges/"@
    }

    fn argument(&self) -> (a: &EndPointArgument) {
        &self.argument
    }

    fn endpoint() -> (p: &'static str) {
        "ref/v1/exchanges/"
    }
}

/// The trading state of an exchange session, as the upstream spells it on
/// the wire. The set is closed: an unknown spelling is a decode failure.
#[derive(Debug, PartialEq, Eq, Structural, Clone, Copy)]
pub enum ExchangeSessionState {
    /// Orders collected during an auction are matched to form a contract.
    Auction,
    /// Normal trading.
    AutomatedTrading,
    /// Break in exchange opening hours.
    Break,
    /// Orders collected at certain prices are matched to form a contract.
    CallAuctionTrading,
    /// The exchange is closed.
    Closed,
    /// Trading is halted on the exchange.
    Halt,
    /// Opening auction state.
    OpeningAuction,
    /// Transactions are conducted in trading pits on the floor.
    PitTrading,
    /// Extended trading session after normal opening hours.
    PostAutomatedTrading,
    /// Extended trading session after normal opening hours.
    PostMarket,
    /// Extended trading session after normal opening hours.
    PostTrading,
    /// Extended trading session before normal opening hours.
    PreAutomatedTrading,
    /// Extended trading session before normal opening hours.
    PreMarket,
    /// Extended trading session before normal opening hours.
    PreTrading,
    /// Trading is suspended on the exchange.
    Suspended,
    /// Orders collected at last price in absence of a closing auction price.
    TradingAtLast,
    /// The state of the exchange is unknown.
    Undefined,
}

/// The session state a wire spelling denotes, if any.
pub open spec fn spec_state_of_wire(s: Seq<char>) -> Option<ExchangeSessionState> {
    if s == "Auction"@ {
        Some(ExchangeSessionState::Auction)
    } else if s == "AutomatedTrading"@ {
        Some(ExchangeSessionState::AutomatedTrading)
    } else if s == "Break"@ {
        Some(ExchangeSessionState::Break)
    } else if s == "CallAuctionTrading"@ {
        Some(ExchangeSessionState::CallAuctionTrading)
    } else if s == "Closed"@ {
        Some(ExchangeSessionState::Closed)
    } else if s == "Halt"@ {
        Some(ExchangeSessionState::Halt)
    } else if s == "OpeningAuction"@ {
        Some(ExchangeSessionState::OpeningAuction)
    } else if s == "PitTrading"@ {
        Some(ExchangeSessionState::PitTrading)
    } else if s == "PostAutomatedTrading"@ {
        Some(ExchangeSessionState::PostAutomatedTrading)
    } else if s == "PostMarket"@ {
        Some(ExchangeSessionState::PostMarket)
    } else if s == "PostTrading"@ {
        Some(ExchangeSessionState::PostTrading)
    } else if s == "PreAutomatedTrading"@ {
        Some(ExchangeSessionState::PreAutomatedTrading)
    } else if s == "PreMarket"@ {
        Some(ExchangeSessionState::PreMarket)
    } else if s == "PreTrading"@ {
        Some(ExchangeSessionState::PreTrading)
    } else if s == "Suspended"@ {
        Some(ExchangeSessionState::Suspended)
    } else if s == "TradingAtLast"@ {
        Some(ExchangeSessionState::TradingAtLast)
    } else if s == "Undefined"@ {
        Some(ExchangeSessionState::Undefined)
    } else {
        None
    }
}

impl ExchangeSessionState {
    /// The state a wire spelling denotes; an unknown spelling yields
    /// nothing rather than a default.
    pub fn from_wire(s: &str) -> (r: Option<ExchangeSessionState>)
        ensures
            r == spec_state_of_wire(s@),
    {
        if str_eq(s, "Auction") {
            Some(ExchangeSessionState::Auction)
        } else if str_eq(s, "AutomatedTrading") {
            Some(ExchangeSessionState::AutomatedTrading)
        } else if str_eq(s, "Break") {
            Some(ExchangeSessionState::Break)
        } else if str_eq(s, "CallAuctionTrading") {
            Some(ExchangeSessionState::CallAuctionTrading)
        } else if str_eq(s, "Closed") {
            Some(ExchangeSessionState::Closed)
        } else if str_eq(s, "Halt") {
            Some(ExchangeSessionState::Halt)
        } else if str_eq(s, "OpeningAuction") {
            Some(ExchangeSessionState::OpeningAuction)
        } else if str_eq(s, "PitTrading") {
            Some(ExchangeSessionState::PitTrading)
        } else if str_eq(s, "PostAutomatedTrading") {
            Some(ExchangeSessionState::PostAutomatedTrading)
        } else if str_eq(s, "PostMarket") {
            Some(ExchangeSessionState::PostMarket)
        } else if str_eq(s, "PostTrading") {
            Some(ExchangeSessionState::PostTrading)
        } else if str_eq(s, "PreAutomatedTrading") {
            Some(ExchangeSessionState::PreAutomatedTrading)
        } else if str_eq(s, "PreMarket") {
            Some(ExchangeSessionState::PreMarket)
        } else if str_eq(s, "PreTrading") {
            Some(ExchangeSessionState::PreTrading)
        } else if str_eq(s, "Suspended") {
            Some(ExchangeSessionState::Suspended)
        } else if str_eq(s, "TradingAtLast") {
            Some(ExchangeSessionState::TradingAtLast)
        } else if str_eq(s, "Undefined") {
            Some(ExchangeSessionState::Undefined)
        } else {
            None
        }
    }
}

/// One trading session of an exchange: its bounds and its state. The
/// bounds arrive as RFC 3339 timestamps and are validated and carried as
/// instants.
#[derive(Debug, PartialEq, Eq, Structural, Clone, Copy)]
pub struct ExchangeSession {
    pub end_time: Option<UtcInstant>,
    pub start_time: Option<UtcInstant>,
    pub state: Option<ExchangeSessionState>,
}

/// The instant a validated timestamp member denotes, or nothing when the
/// member is present but not a valid RFC 3339 date-and-time.
pub open spec fn spec_instant_field(m: Result<Option<Seq<char>>, ()>) -> Option<
    Option<UtcInstant>,
> {
    match m {
        Ok(None) => Some(None),
        Ok(Some(s)) => match rfc3339_instant(s) {
            Some((seconds, nanos)) => Some(Some(UtcInstant { seconds, nanos })),
            None => None,
        },
        Err(_) => None,
    }
}

/// The decoding of one session object from its JSON text.
pub open spec fn spec_parse_session(text: Seq<char>) -> Option<ExchangeSession> {
    let state_ok = match json_str_member(text, "State"@) {
        Ok(Some(s)) => spec_state_of_wire(s) is Some,
        Ok(None) => true,
        Err(_) => false,
    };
    if json_object_check(text) && spec_instant_field(json_str_member(text, "EndTime"@)) is Some
        && spec_instant_field(json_str_member(text, "StartTime"@)) is Some && state_ok {
        Some(
            ExchangeSession {
                end_time: spec_instant_field(json_str_member(text, "EndTime"@))->Some_0,
                start_time: spec_instant_field(json_str_member(text, "StartTime"@))->Some_0,
                state: match json_str_member(text, "State"@)->Ok_0 {
                    Some(s) => Some(spec_state_of_wire(s)->Some_0),
                    None => None,
                },
            },
        )
    } else {
        None
    }
}

/// Decodes one session object from its JSON text.
pub fn parse_session(text: &str) -> (r: Result<ExchangeSession, ()>)
    ensures
        match r {
            Ok(v) => spec_parse_session(text@) == Some(v),
            Err(_) => spec_parse_session(text@) is None,
        },
{
    if !json_is_object(text) {
        return Err(());
    }
    let end_time = match json_member_str(text, "EndTime") {
        Ok(None) => None,
        Ok(Some(s)) => match parse_instant(s.as_str()) {
            Some(t) => Some(t),
            None => return Err(()),
        },
        Err(_) => return Err(()),
    };
    let start_time = match json_member_str(text, "StartTime") {
        Ok(None) => None,
        Ok(Some(s)) => match parse_instant(s.as_str()) {
            Some(t) => Some(t),
            None => return Err(()),
        },
        Err(_) => return Err(()),
    };
    let state = match json_member_str(text, "State") {
        Ok(None) => None,
        Ok(Some(s)) => match ExchangeSessionState::from_wire(s.as_str()) {
            Some(st) => Some(st),
            None => return Err(()),
        },
        Err(_) => return Err(()),
    };
    Ok(ExchangeSession { end_time, start_time, state })
}

/// One exchange record of the listing. Every field is optional: the
/// upstream may omit any of them.
#[derive(Debug)]
pub struct ResponseData {
    pub all_day: Option<bool>,
    pub country_code: Option<String>,
    pub currency: Option<String>,
    pub exchange_id: Option<String>,
    pub exchange_sessions: Option<ExchangeSession>,
    pub iso_mic: Option<String>,
    pub name: Option<String>,
    pub operating_mic: Option<String>,
    pub price_source_name: Option<String>,
    pub time_zone: Option<i32>,
    pub time_zone_abbreviation: Option<String>,
    pub time_zone_id: Option<String>,
}

/// The mathematical value of a [`ResponseData`].
#[verifier::ext_equal]
pub struct ResponseDataView {
    pub all_day: Option<bool>,
    pub country_code: Option<Seq<char>>,
    pub currency: Option<Seq<char>>,
    pub exchange_id: Option<Seq<char>>,
    pub exchange_sessions: Option<ExchangeSession>,
    pub iso_mic: Option<Seq<char>>,
    pub name: Option<Seq<char>>,
    pub operating_mic: Option<Seq<char>>,
    pub price_source_name: Option<Seq<char>>,
    pub time_zone: Option<i32>,
    pub time_zone_abbreviation: Option<Seq<char>>,
    pub time_zone_id: Option<Seq<char>>,
}

impl View for ResponseData {
    type V = ResponseDataView;

    open spec fn view(&self) -> ResponseDataView {
        ResponseDataView {
            all_day: self.all_day,
            country_code: self.country_code.deep_view(),
            currency: self.currency.deep_view(),
            exchange_id: self.exchange_id.deep_view(),
            exchange_sessions: self.exchange_sessions,
            iso_mic: self.iso_mic.deep_view(),
            name: self.name.deep_view(),
            operating_mic: self.operating_mic.deep_view(),
            price_source_name: self.price_source_name.deep_view(),
            time_zone: self.time_zone,
            time_zone_abbreviation: self.time_zone_abbreviation.deep_view(),
            time_zone_id: self.time_zone_id.deep_view(),
        }
    }
}

impl DeepView for ResponseData {
    type V = ResponseDataView;

    open spec fn deep_view(&self) -> ResponseDataView {
        self.view()
    }
}

impl ResponseData {
    /// The decoding of one exchange record from its JSON text.
    pub open spec fn spec_parse_data(text: Seq<char>) -> Option<ResponseDataView> {
        let session_ok = match json_raw_member(text, "ExchangeSessions"@) {
            Ok(Some(raw)) => spec_parse_session(raw) is Some,
            Ok(None) => true,
            Err(_) => false,
        };
        let time_zone_ok = match json_int_member(text, "TimeZone"@) {
            Ok(Some(n)) => i32::MIN <= n <= i32::MAX,
            Ok(None) => true,
            Err(_) => false,
        };
        if json_object_check(text) && session_ok && time_zone_ok
            && json_bool_member(text, "AllDay"@) is Ok
            && json_str_member(text, "CountryCode"@) is Ok
            && json_str_member(text, "Currency"@) is Ok
            && json_str_member(text, "ExchangeId"@) is Ok
            && json_str_member(text, "IsoMic"@) is Ok
            && json_str_member(text, "Name"@) is Ok
            && json_str_member(text, "OperatingMic"@) is Ok
            && json_str_member(text, "PriceSourceName"@) is Ok
            && json_str_member(text, "TimeZoneAbbreviation"@) is Ok
            && json_str_member(text, "TimeZoneId"@) is Ok
        {
            Some(
                ResponseDataView {
                    all_day: json_bool_member(text, "AllDay"@)->Ok_0,
                    country_code: json_str_member(text, "CountryCode"@)->Ok_0,
                    currency: json_str_member(text, "Currency"@)->Ok_0,
                    exchange_id: json_str_member(text, "ExchangeId"@)->Ok_0,
                    exchange_sessions: match json_raw_member(text, "ExchangeSessions"@)->Ok_0 {
                        Some(raw) => Some(spec_parse_session(raw)->Some_0),
                        None => None,
                    },
                    iso_mic: json_str_member(text, "IsoMic"@)->Ok_0,
                    name: json_str_member(text, "Name"@)->Ok_0,
                    operating_mic: json_str_member(text, "OperatingMic"@)->Ok_0,
                    price_source_name: json_str_member(text, "PriceSourceName"@)->Ok_0,
                    time_zone: match json_int_member(text, "TimeZone"@)->Ok_0 {
                        Some(n) => Some(n as i32),
                        None => None,
                    },
                    time_zone_abbreviation: json_str_member(text, "TimeZoneAbbreviation"@)->Ok_0,
                    time_zone_id: json_str_member(text, "TimeZoneId"@)->Ok_0,
            },
            )
        } else {
            None
        }
    }

    /// Decodes one exchange record from its JSON text.
    pub fn parse_data(text: &str) -> (r: Result<ResponseData, ()>)
        ensures
            match r {
                Ok(v) => Self::spec_parse_data(text@) == Some(v@),
                Err(_) => Self::spec_parse_data(text@) is None,
            },
    {
        if !json_is_object(text) {
            return Err(());
        }
        let all_day = match json_member_bool(text, "AllDay") {
            Ok(m) => m,
            Err(_) => return Err(()),
        };
        let country_code = match json_member_str(text, "CountryCode") {
            Ok(m) => m,
            Err(_) => return Err(()),
        };
        let currency = match json_member_str(text, "Currency") {
            Ok(m) => m,
            Err(_) => return Err(()),
        };
        let exchange_id = match json_member_str(text, "ExchangeId") {
            Ok(m) => m,
            Err(_) => return Err(()),
        };
        let exchange_sessions = match json_member_raw(text, "ExchangeSessions") {
            Ok(None) => None,
            Ok(Some(raw)) => match parse_session(raw.as_str()) {
                Ok(session) => Some(session),
                Err(_) => return Err(()),
            },
            Err(_) => return Err(()),
        };
        let iso_mic = match json_member_str(text, "IsoMic") {
            Ok(m) => m,
            Err(_) => return Err(()),
        };
        let name = match json_member_str(text, "Name") {
            Ok(m) => m,
            Err(_) => return Err(()),
        };
        let operating_mic = match json_member_str(text, "OperatingMic") {
            Ok(m) => m,
            Err(_) => return Err(()),
        };
        let price_source_name = match json_member_str(text, "PriceSourceName") {
            Ok(m) => m,
            Err(_) => return Err(()),
        };
        let time_zone = match json_member_i64(text, "TimeZone") {
            Ok(None) => None,
            Ok(Some(n)) => {
                if n < i32::MIN as i64 || n > i32::MAX as i64 {
                    return Err(());
                }
                Some(n as i32)
            },
            Err(_) => return Err(()),
        };
        let time_zone_abbreviation = match json_member_str(text, "TimeZoneAbbreviation") {
            Ok(m) => m,
            Err(_) => return Err(()),
        };
        let time_zone_id = match json_member_str(text, "TimeZoneId") {
            Ok(m) => m,
            Err(_) => return Err(()),
        };
        let data = ResponseData {
            all_day,
            country_code,
            currency,
            exchange_id,
            exchange_sessions,
            iso_mic,
            name,
            operating_mic,
            price_source_name,
            time_zone,
            time_zone_abbreviation,
            time_zone_id,
        };
        proof {
            assert(Self::spec_parse_data(text@) == Some(data@)) by {
                assert(data@ =~= Self::spec_parse_data(text@)->Some_0);
            }
        }
        Ok(data)
    }
}

/// The decoding of a sequence of exchange records, each from its JSON
/// text; it fails as soon as any record fails.
pub open spec fn spec_parse_items(elems: Seq<Seq<char>>) -> Option<Seq<ResponseDataView>>
    decreases elems.len(),
{
    if elems.len() == 0 {
        Some(Seq::<ResponseDataView>::empty())
    } else {
        match (ResponseData::spec_parse_data(elems.first()), spec_parse_items(elems.drop_first())) {
            (Some(d), Some(rest)) => Some(seq![d] + rest),
            _ => None,
        }
    }
}

proof fn lemma_items_fail(elems: Seq<Seq<char>>, j: int)
    requires
        0 <= j < elems.len(),
        ResponseData::spec_parse_data(elems[j]) is None,
    ensures
        spec_parse_items(elems) is None,
    decreases j,
{
    if j > 0 {
        assert(elems.drop_first()[j - 1] == elems[j]);
        lemma_items_fail(elems.drop_first(), j - 1);
    }
}

proof fn lemma_items_ok(elems: Seq<Seq<char>>, out: Seq<ResponseDataView>)
    requires
        out.len() == elems.len(),
        forall|j: int|
            0 <= j < elems.len() ==> ResponseData::spec_parse_data(#[trigger] elems[j]) == Some(
                out[j],
            ),
    ensures
        spec_parse_items(elems) == Some(out),
    decreases elems.len(),
{
    if elems.len() == 0 {
        assert(out =~= Seq::<ResponseDataView>::empty());
    } else {
        assert forall|j: int| 0 <= j < elems.drop_first().len() implies ResponseData::spec_parse_data(
            #[trigger] elems.drop_first()[j],
        ) == Some(out.drop_first()[j]) by {
            assert(elems.drop_first()[j] == elems[j + 1]);
            assert(out.drop_first()[j] == out[j + 1]);
        }
        lemma_items_ok(elems.drop_first(), out.drop_first());
        assert(seq![out[0]] + out.drop_first() =~= out);
    }
}

/// Decodes each record text of `elems`.
#[verifier::loop_isolation(false)]
fn parse_items(elems: &Vec<String>) -> (r: Result<Vec<ResponseData>, ()>)
    ensures
        match r {
            Ok(v) => spec_parse_items(elems.deep_view()) == Some(v.deep_view()),
            Err(_) => spec_parse_items(elems.deep_view()) is None,
        },
{
    let mut out: Vec<ResponseData> = Vec::new();
    let mut i: usize = 0;
    while i < elems.len()
        invariant
            i <= elems@.len(),
            out.deep_view().len() == i,
            forall|j: int|
                0 <= j < i ==> ResponseData::spec_parse_data(#[trigger] elems.deep_view()[j])
                    == Some(out.deep_view()[j]),
        decreases elems@.len() - i,
    {
        match ResponseData::parse_data(elems[i].as_str()) {
            Err(_) => {
                proof {
                    lemma_items_fail(elems.deep_view(), i as int);
                }
                return Err(());
            },
            Ok(d) => {
                out.push(d);
            },
        }
        i += 1;
    }
    proof {
        lemma_items_ok(elems.deep_view(), out.deep_view());
    }
    Ok(out)
}

/// One page of the exchanges listing: an optional total-count hint, an
/// optional continuation link, and the page's records.
#[derive(Debug)]
pub struct Response {
    pub count: Option<i32>,
    pub next: Option<String>,
    pub data: Vec<ResponseData>,
}

/// The mathematical value of a [`Response`].
#[verifier::ext_equal]
pub struct ResponseView {
    pub count: Option<i32>,
    pub next: Option<Seq<char>>,
    pub data: Seq<ResponseDataView>,
}

impl View for Response {
    type V = ResponseView;

    open spec fn view(&self) -> ResponseView {
        ResponseView {
            count: self.count,
            next: self.next.deep_view(),
            data: self.data.deep_view(),
        }
    }
}

impl SaxoResponse for Response {
    type RequestType = Request;

    open spec fn spec_parse(body: Seq<char>) -> Option<ResponseView> {
        let count_ok = match json_int_member(body, "__count"@) {
            Ok(Some(n)) => i32::MIN <= n <= i32::MAX,
            Ok(None) => true,
            Err(_) => false,
        };
        let data_items = match json_raw_array_member(body, "Data"@) {
            Ok(Some(elems)) => spec_parse_items(elems),
            _ => None,
        };
        if json_object_check(body) && count_ok && json_str_member(body, "__next"@) is Ok
            && data_items is Some {
            Some(
                ResponseView {
                    count: match json_int_member(body, "__count"@)->Ok_0 {
                        Some(n) => Some(n as i32),
                        None => None,
                    },
                    next: json_str_member(body, "__next"@)->Ok_0,
                    data: data_items->Some_0,
                },
            )
        } else {
            None
        }
    }

    fn parse_body(body: &str) -> (r: Result<Self, ()>) {
        if !json_is_object(body) {
            return Err(());
        }
        let count = match json_member_i64(body, "__count") {
            Ok(None) => None,
            Ok(Some(n)) => {
                if n < i32::MIN as i64 || n > i32::MAX as i64 {
                    return Err(());
                }
                Some(n as i32)
            },
            Err(_) => return Err(()),
        };
        let next = match json_member_str(body, "__next") {
            Ok(m) => m,
            Err(_) => return Err(()),
        };
        let elems = match json_member_raw_array(body, "Data") {
            Ok(Some(elems)) => elems,
            Ok(None) => return Err(()),
            Err(_) => return Err(()),
        };
        let data = match parse_items(&elems) {
            Ok(d) => d,
            Err(_) => return Err(()),
        };
        let resp = Response { count, next, data };
        proof {
            assert(Self::spec_parse(body@) == Some(resp@)) by {
                assert(resp@ =~= Self::spec_parse(body@)->Some_0);
            }
        }
        Ok(resp)
    }
}

impl SaxoResponseOData for Response {
    open spec fn spec_next_link(&self) -> Option<Seq<char>> {
        self.next.deep_view()
    }

    fn next(&self) -> (r: Option<Request>) {
        match &self.next {
            None => None,
            Some(link) => match parse_next_link(link.as_str()) {
                None => None,
                Some(params) => Some(Request::new(params)),
            },
        }
    }
}

} // verus!
