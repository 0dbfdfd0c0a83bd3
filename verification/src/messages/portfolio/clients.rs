//! The client-information endpoint.

use vstd::prelude::*;

use crate::json::{
    json_bool_member, json_int_member, json_is_object, json_member_bool, json_member_i64,
    json_member_num, json_member_str, json_member_str_array, json_num_member, json_object_check,
    json_str_array_member, json_str_member,
};
use crate::{ArgView, EndPointArgument, SaxoRequest, SaxoResponse};

verus! {

/// A request for a client's information, by identifier (ordinarily `me`).
pub struct Request {
    argument: EndPointArgument,
}

impl Request {
    /// A request for the client identified by `id`.
    pub fn new(id: &'static str) -> (r: Request)
        ensures
            r.spec_argument() == ArgView::Id(id@),
    {
        Request { argument: EndPointArgument::Id(id) }
    }
}

impl SaxoRequest for Request {
    type ResponseType = Response;

    closed spec fn spec_argument(&self) -> ArgView {
        self.argument@
    }

    open spec fn spec_endpoint() -> Seq<char> {
        "port/v1/clients/"@
    }

    fn argument(&self) -> (a: &EndPointArgument) {
        &self.argument
    }

    fn endpoint() -> (p: &'static str) {
        "port/v1/clients/"
    }
}

/// The client-information response shape. Every field is optional: the
/// upstream may omit any of them. The account-value protection limit is a
/// decimal on the wire; it is carried as its exact JSON number text, since
/// floating point stays outside this library.
#[derive(Debug)]
pub struct Response {
    pub account_value_protection_limit: Option<String>,
    pub allowed_netting_profiles: Option<Vec<String>>,
    pub allowed_trading_sessions: Option<String>,
    pub client_id: Option<String>,
    pub client_key: Option<String>,
    pub currency_decimals: Option<u8>,
    pub default_account_id: Option<String>,
    pub default_account_key: Option<String>,
    pub default_currency: Option<String>,
    pub force_open_default_value: Option<bool>,
    pub is_margin_trading_allowed: Option<bool>,
    pub is_variation_margin_eligible: Option<bool>,
    pub legal_asset_types: Option<Vec<String>>,
    pub legal_asset_types_are_indicative: Option<bool>,
    pub margin_calculation_method: Option<String>,
    pub margin_monitoring_mode: Option<String>,
    pub mutual_funds_cash_amount_order_currency: Option<String>,
    pub name: Option<String>,
    pub partner_platform_id: Option<String>,
    pub position_netting_method: Option<String>,
    pub position_netting_mode: Option<String>,
    pub position_netting_profile: Option<String>,
    pub reduce_exposure_only: Option<bool>,
    pub supports_account_value_protection_limit: Option<bool>,
}

/// The mathematical value of a [`Response`].
#[verifier::ext_equal]
pub struct ResponseView {
    pub account_value_protection_limit: Option<Seq<char>>,
    pub allowed_netting_profiles: Option<Seq<Seq<char>>>,
    pub allowed_trading_sessions: Option<Seq<char>>,
    pub client_id: Option<Seq<char>>,
    pub client_key: Option<Seq<char>>,
    pub currency_decimals: Option<u8>,
    pub default_account_id: Option<Seq<char>>,
    pub default_account_key: Option<Seq<char>>,
    pub default_currency: Option<Seq<char>>,
    pub force_open_default_value: Option<bool>,
    pub is_margin_trading_allowed: Option<bool>,
    pub is_variation_margin_eligible: Option<bool>,
    pub legal_asset_types: Option<Seq<Seq<char>>>,
    pub legal_asset_types_are_indicative: Option<bool>,
    pub margin_calculation_method: Option<Seq<char>>,
    pub margin_monitoring_mode: Option<Seq<char>>,
    pub mutual_funds_cash_amount_order_currency: Option<Seq<char>>,
    pub name: Option<Seq<char>>,
    pub partner_platform_id: Option<Seq<char>>,
    pub position_netting_method: Option<Seq<char>>,
    pub position_netting_mode: Option<Seq<char>>,
    pub position_netting_profile: Option<Seq<char>>,
    pub reduce_exposure_only: Option<bool>,
    pub supports_account_value_protection_limit: Option<bool>,
}

impl View for Response {
    type V = ResponseView;

    open spec fn view(&self) -> ResponseView {
        ResponseView {
            account_value_protection_limit: self.account_value_protection_limit.deep_view(),
            allowed_netting_profiles: self.allowed_netting_profiles.deep_view(),
            allowed_trading_sessions: self.allowed_trading_sessions.deep_view(),
            client_id: self.client_id.deep_view(),
            client_key: self.client_key.deep_view(),
            currency_decimals: self.currency_decimals,
            default_account_id: self.default_account_id.deep_view(),
            default_account_key: self.default_account_key.deep_view(),
            default_currency: self.default_currency.deep_view(),
            force_open_default_value: self.force_open_default_value,
            is_margin_trading_allowed: self.is_margin_trading_allowed,
            is_variation_margin_eligible: self.is_variation_margin_eligible,
            legal_asset_types: self.legal_asset_types.deep_view(),
            legal_asset_types_are_indicative: self.legal_asset_types_are_indicative,
            margin_calculation_method: self.margin_calculation_method.deep_view(),
            margin_monitoring_mode: self.margin_monitoring_mode.deep_view(),
            mutual_funds_cash_amount_order_currency: self.mutual_funds_cash_amount_order_currency.deep_view(),
            name: self.name.deep_view(),
            partner_platform_id: self.partner_platform_id.deep_view(),
            position_netting_method: self.position_netting_method.deep_view(),
            position_netting_mode: self.position_netting_mode.deep_view(),
            position_netting_profile: self.position_netting_profile.deep_view(),
            reduce_exposure_only: self.reduce_exposure_only,
            supports_account_value_protection_limit: self.supports_account_value_protection_limit,
        }
    }
}

impl SaxoResponse for Response {
    type RequestType = Request;

    open spec fn spec_parse(body: Seq<char>) -> Option<ResponseView> {
        if json_object_check(body)
            && json_num_member(body, "AccountValueProtectionLimit"@) is Ok
            && json_str_array_member(body, "AllowedNettingProfiles"@) is Ok
            && json_str_member(body, "AllowedTradingSessions"@) is Ok
            && json_str_member(body, "ClientId"@) is Ok
            && json_str_member(body, "ClientKey"@) is Ok
            && (match json_int_member(body, "CurrencyDecimals"@) {
            Ok(Some(n)) => 0 <= n <= u8::MAX,
            Ok(None) => true,
            Err(_) => false,
        })
            && json_str_member(body, "DefaultAccountId"@) is Ok
            && json_str_member(body, "DefaultAccountKey"@) is Ok
            && json_str_member(body, "DefaultCurrency"@) is Ok
            && json_bool_member(body, "ForceOpenDefaultValue"@) is Ok
            && json_bool_member(body, "IsMarginTradingAllowed"@) is Ok
            && json_bool_member(body, "IsVariationMarginEligible"@) is Ok
            && json_str_array_member(body, "LegalAssetTypes"@) is Ok
            && json_bool_member(body, "LegalAssetTypesAreIndicative"@) is Ok
            && json_str_member(body, "MarginCalculationMethod"@) is Ok
            && json_str_member(body, "MarginMonitoringMode"@) is Ok
            && json_str_member(body, "MutualFundsCashAmountOrderCurrency"@) is Ok
            && json_str_member(body, "Name"@) is Ok
            && json_str_member(body, "PartnerPlatformId"@) is Ok
            && json_str_member(body, "PositionNettingMethod"@) is Ok
            && json_str_member(body, "PositionNettingMode"@) is Ok
            && json_str_member(body, "PositionNettingProfile"@) is Ok
            && json_bool_member(body, "ReduceExposureOnly"@) is Ok
            && json_bool_member(body, "SupportsAccountValueProtectionLimit"@) is Ok {
            Some(
                ResponseView {
                    account_value_protection_limit: json_num_member(body, "AccountValueProtectionLimit"@)->Ok_0,
                    allowed_netting_profiles: json_str_array_member(body, "AllowedNettingProfiles"@)->Ok_0,
                    allowed_trading_sessions: json_str_member(body, "AllowedTradingSessions"@)->Ok_0,
                    client_id: json_str_member(body, "ClientId"@)->Ok_0,
                    client_key: json_str_member(body, "ClientKey"@)->Ok_0,
                    currency_decimals: match json_int_member(body, "CurrencyDecimals"@)->Ok_0 {
                        Some(n) => Some(n as u8),
                        None => None,
                    },
                    default_account_id: json_str_member(body, "DefaultAccountId"@)->Ok_0,
                    default_account_key: json_str_member(body, "DefaultAccountKey"@)->Ok_0,
                    default_currency: json_str_member(body, "DefaultCurrency"@)->Ok_0,
                    force_open_default_value: json_bool_member(body, "ForceOpenDefaultValue"@)->Ok_0,
                    is_margin_trading_allowed: json_bool_member(body, "IsMarginTradingAllowed"@)->Ok_0,
                    is_variation_margin_eligible: json_bool_member(body, "IsVariationMarginEligible"@)->Ok_0,
                    legal_asset_types: json_str_array_member(body, "LegalAssetTypes"@)->Ok_0,
                    legal_asset_types_are_indicative: json_bool_member(body, "LegalAssetTypesAreIndicative"@)->Ok_0,
                    margin_calculation_method: json_str_member(body, "MarginCalculationMethod"@)->Ok_0,
                    margin_monitoring_mode: json_str_member(body, "MarginMonitoringMode"@)->Ok_0,
                    mutual_funds_cash_amount_order_currency: json_str_member(body, "MutualFundsCashAmountOrderCurrency"@)->Ok_0,
                    name: json_str_member(body, "Name"@)->Ok_0,
                    partner_platform_id: json_str_member(body, "PartnerPlatformId"@)->Ok_0,
                    position_netting_method: json_str_member(body, "PositionNettingMethod"@)->Ok_0,
                    position_netting_mode: json_str_member(body, "PositionNettingMode"@)->Ok_0,
                    position_netting_profile: json_str_member(body, "PositionNettingProfile"@)->Ok_0,
                    reduce_exposure_only: json_bool_member(body, "ReduceExposureOnly"@)->Ok_0,
                    supports_account_value_protection_limit: json_bool_member(body, "SupportsAccountValueProtectionLimit"@)->Ok_0,
                },
            )
        } else {
            None
        }
    }

    fn parse_body(body: &str) -> (r: Result<Self, ()>) {
        if !json_is_object(body) {
            return Err(());
        }
        let account_value_protection_limit = match json_member_num(body, "AccountValueProtectionLimit") {
            Ok(m) => m,
            Err(_) => return Err(()),
        };
        let allowed_netting_profiles = match json_member_str_array(body, "AllowedNettingProfiles") {
            Ok(m) => m,
            Err(_) => return Err(()),
        };
        let allowed_trading_sessions = match json_member_str(body, "AllowedTradingSessions") {
            Ok(m) => m,
            Err(_) => return Err(()),
        };
        let client_id = match json_member_str(body, "ClientId") {
            Ok(m) => m,
            Err(_) => return Err(()),
        };
        let client_key = match json_member_str(body, "ClientKey") {
            Ok(m) => m,
            Err(_) => return Err(()),
        };
        let currency_decimals = match json_member_i64(body, "CurrencyDecimals") {
            Ok(None) => None,
            Ok(Some(n)) => {
                if n < 0 || n > u8::MAX as i64 {
                    return Err(());
                }
                Some(n as u8)
            },
            Err(_) => return Err(()),
        };
        let default_account_id = match json_member_str(body, "DefaultAccountId") {
            Ok(m) => m,
            Err(_) => return Err(()),
        };
        let default_account_key = match json_member_str(body, "DefaultAccountKey") {
            Ok(m) => m,
            Err(_) => return Err(()),
        };
        let default_currency = match json_member_str(body, "DefaultCurrency") {
            Ok(m) => m,
            Err(_) => return Err(()),
        };
        let force_open_default_value = match json_member_bool(body, "ForceOpenDefaultValue") {
            Ok(m) => m,
            Err(_) => return Err(()),
        };
        let is_margin_trading_allowed = match json_member_bool(body, "IsMarginTradingAllowed") {
            Ok(m) => m,
            Err(_) => return Err(()),
        };
        let is_variation_margin_eligible = match json_member_bool(body, "IsVariationMarginEligible") {
            Ok(m) => m,
            Err(_) => return Err(()),
        };
        let legal_asset_types = match json_member_str_array(body, "LegalAssetTypes") {
            Ok(m) => m,
            Err(_) => return Err(()),
        };
        let legal_asset_types_are_indicative = match json_member_bool(body, "LegalAssetTypesAreIndicative") {
            Ok(m) => m,
            Err(_) => return Err(()),
        };
        let margin_calculation_method = match json_member_str(body, "MarginCalculationMethod") {
            Ok(m) => m,
            Err(_) => return Err(()),
        };
        let margin_monitoring_mode = match json_member_str(body, "MarginMonitoringMode") {
            Ok(m) => m,
            Err(_) => return Err(()),
        };
        let mutual_funds_cash_amount_order_currency = match json_member_str(body, "MutualFundsCashAmountOrderCurrency") {
            Ok(m) => m,
            Err(_) => return Err(()),
        };
        let name = match json_member_str(body, "Name") {
            Ok(m) => m,
            Err(_) => return Err(()),
        };
        let partner_platform_id = match json_member_str(body, "PartnerPlatformId") {
            Ok(m) => m,
            Err(_) => return Err(()),
        };
        let position_netting_method = match json_member_str(body, "PositionNettingMethod") {
            Ok(m) => m,
            Err(_) => return Err(()),
        };
        let position_netting_mode = match json_member_str(body, "PositionNettingMode") {
            Ok(m) => m,
            Err(_) => return Err(()),
        };
        let position_netting_profile = match json_member_str(body, "PositionNettingProfile") {
            Ok(m) => m,
            Err(_) => return Err(()),
        };
        let reduce_exposure_only = match json_member_bool(body, "ReduceExposureOnly") {
            Ok(m) => m,
            Err(_) => return Err(()),
        };
        let supports_account_value_protection_limit = match json_member_bool(body, "SupportsAccountValueProtectionLimit") {
            Ok(m) => m,
            Err(_) => return Err(()),
        };
        let resp = Response {
            account_value_protection_limit,
            allowed_netting_profiles,
            allowed_trading_sessions,
            client_id,
            client_key,
            currency_decimals,
            default_account_id,
            default_account_key,
            default_currency,
            force_open_default_value,
            is_margin_trading_allowed,
            is_variation_margin_eligible,
            legal_asset_types,
            legal_asset_types_are_indicative,
            margin_calculation_method,
            margin_monitoring_mode,
            mutual_funds_cash_amount_order_currency,
            name,
            partner_platform_id,
            position_netting_method,
            position_netting_mode,
            position_netting_profile,
            reduce_exposure_only,
            supports_account_value_protection_limit,
        };
        proof {
            assert(Self::spec_parse(body@) == Some(resp@)) by {
                assert(resp@ =~= Self::spec_parse(body@)->Some_0);
            }
        }
        Ok(resp)
    }
}

} // verus!
