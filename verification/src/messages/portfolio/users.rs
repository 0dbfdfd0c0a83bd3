//! The user-information endpoint.

use vstd::prelude::*;

use crate::json::{
    json_bool_member, json_int_member, json_is_object, json_member_bool, json_member_i64,
    json_member_str, json_member_str_array, json_object_check, json_str_array_member,
    json_str_member,
};
use crate::{ArgView, EndPointArgument, SaxoRequest, SaxoResponse};

verus! {

/// A request for a user's information, by identifier (ordinarily `me`).
pub struct Request {
    argument: EndPointArgument,
}

impl Request {
    /// A request for the user identified by `id`.
    pub fn new(id: &'static str) -> (r: Request)
        ensures
            r.spec_argument() == ArgView::Id(id@),
    {
        Request { argument: EndPointArgument::Id(id) }
    }
}

impl SaxoRequest for Request {
    type ResponseType = Response;

    closed spec fn spec_argument(&self) -> ArgView {
        self.argument@
    }

    open spec fn spec_endpoint() -> Seq<char> {
        "port/v1/users/"@
    }

    fn argument(&self) -> (a: &EndPointArgument) {
        &self.argument
    }

    fn endpoint() -> (p: &'static str) {
        "port/v1/users/"
    }
}

/// The user-information response shape. Every field is optional: the
/// upstream may omit any of them.
#[derive(Debug)]
pub struct Response {
    pub client_key: Option<String>,
    pub culture: Option<String>,
    pub language: Option<String>,
    pub last_login_status: Option<String>,
    pub last_login_time: Option<String>,
    pub legal_asset_types: Option<Vec<String>>,
    pub market_data_via_open_api_terms_accepted: Option<bool>,
    pub name: Option<String>,
    pub time_zone_id: Option<i32>,
    pub user_id: Option<String>,
    pub user_key: Option<String>,
}

/// The mathematical value of a [`Response`].
#[verifier::ext_equal]
pub struct ResponseView {
    pub client_key: Option<Seq<char>>,
    pub culture: Option<Seq<char>>,
    pub language: Option<Seq<char>>,
    pub last_login_status: Option<Seq<char>>,
    pub last_login_time: Option<Seq<char>>,
    pub legal_asset_types: Option<Seq<Seq<char>>>,
    pub market_data_via_open_api_terms_accepted: Option<bool>,
    pub name: Option<Seq<char>>,
    pub time_zone_id: Option<i32>,
    pub user_id: Option<Seq<char>>,
    pub user_key: Option<Seq<char>>,
}

impl View for Response {
    type V = ResponseView;

    open spec fn view(&self) -> ResponseView {
        ResponseView {
            client_key: self.client_key.deep_view(),
            culture: self.culture.deep_view(),
            language: self.language.deep_view(),
            last_login_status: self.last_login_status.deep_view(),
            last_login_time: self.last_login_time.deep_view(),
            legal_asset_types: self.legal_asset_types.deep_view(),
            market_data_via_open_api_terms_accepted: self.market_data_via_open_api_terms_accepted,
            name: self.name.deep_view(),
            time_zone_id: self.time_zone_id,
            user_id: self.user_id.deep_view(),
            user_key: self.user_key.deep_view(),
        }
    }
}

impl SaxoResponse for Response {
    type RequestType = Request;

    open spec fn spec_parse(body: Seq<char>) -> Option<ResponseView> {
        if json_object_check(body) && json_str_member(body, "ClientKey"@) is Ok && json_str_member(
            body,
            "Culture"@,
        ) is Ok && json_str_member(body, "Language"@) is Ok && json_str_member(
            body,
            "LastLoginStatus"@,
        ) is Ok && json_str_member(body, "LastLoginTime"@) is Ok && json_str_array_member(
            body,
            "LegalAssetTypes"@,
        ) is Ok && json_bool_member(body, "MarketDataViaOpenApiTermsAccepted"@) is Ok
            && json_str_member(body, "Name"@) is Ok && (match json_int_member(
            body,
            "TimeZoneId"@,
        ) {
            Ok(Some(n)) => i32::MIN <= n <= i32::MAX,
            Ok(None) => true,
            Err(_) => false,
        }) && json_str_member(body, "UserId"@) is Ok && json_str_member(body, "UserKey"@) is Ok {
            Some(
                ResponseView {
                    client_key: json_str_member(body, "ClientKey"@)->Ok_0,
                    culture: json_str_member(body, "Culture"@)->Ok_0,
                    language: json_str_member(body, "Language"@)->Ok_0,
                    last_login_status: json_str_member(body, "LastLoginStatus"@)->Ok_0,
                    last_login_time: json_str_member(body, "LastLoginTime"@)->Ok_0,
                    legal_asset_types: json_str_array_member(body, "LegalAssetTypes"@)->Ok_0,
                    market_data_via_open_api_terms_accepted: json_bool_member(
                        body,
                        "MarketDataViaOpenApiTermsAccepted"@,
                    )->Ok_0,
                    name: json_str_member(body, "Name"@)->Ok_0,
                    time_zone_id: match json_int_member(body, "TimeZoneId"@)->Ok_0 {
                        Some(n) => Some(n as i32),
                        None => None,
                    },
                    user_id: json_str_member(body, "UserId"@)->Ok_0,
                    user_key: json_str_member(body, "UserKey"@)->Ok_0,
                },
            )
        } else {
            None
        }
    }

    fn parse_body(body: &str) -> (r: Result<Self, ()>) {
        if !json_is_object(body) {
            return Err(());
        }
        let client_key = match json_member_str(body, "ClientKey") {
            Ok(m) => m,
            Err(_) => return Err(()),
        };
        let culture = match json_member_str(body, "Culture") {
            Ok(m) => m,
            Err(_) => return Err(()),
        };
        let language = match json_member_str(body, "Language") {
            Ok(m) => m,
            Err(_) => return Err(()),
        };
        let last_login_status = match json_member_str(body, "LastLoginStatus") {
            Ok(m) => m,
            Err(_) => return Err(()),
        };
        let last_login_time = match json_member_str(body, "LastLoginTime") {
            Ok(m) => m,
            Err(_) => return Err(()),
        };
        let legal_asset_types = match json_member_str_array(body, "LegalAssetTypes") {
            Ok(m) => m,
            Err(_) => return Err(()),
        };
        let market_data_via_open_api_terms_accepted = match json_member_bool(
            body,
            "MarketDataViaOpenApiTermsAccepted",
        ) {
            Ok(m) => m,
            Err(_) => return Err(()),
        };
        let name = match json_member_str(body, "Name") {
            Ok(m) => m,
            Err(_) => return Err(()),
        };
        let time_zone_id = match json_member_i64(body, "TimeZoneId") {
            Ok(None) => None,
            Ok(Some(n)) => {
                if n < i32::MIN as i64 || n > i32::MAX as i64 {
                    return Err(());
                }
                Some(n as i32)
            },
            Err(_) => return Err(()),
        };
        let user_id = match json_member_str(body, "UserId") {
            Ok(m) => m,
            Err(_) => return Err(()),
        };
        let user_key = match json_member_str(body, "UserKey") {
            Ok(m) => m,
            Err(_) => return Err(()),
        };
        let resp = Response {
            client_key,
            culture,
            language,
            last_login_status,
            last_login_time,
            legal_asset_types,
            market_data_via_open_api_terms_accepted,
            name,
            time_zone_id,
            user_id,
            user_key,
        };
        proof {
            assert(Self::spec_parse(body@) == Some(resp@)) by {
                assert(resp@ =~= Self::spec_parse(body@)->Some_0);
            }
        }
        Ok(resp)
    }
}

} // verus!
