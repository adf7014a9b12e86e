//! The provider's endpoints, request authorisation and the reading of response statuses.
use vstd::prelude::*;
use crate::error::ApiError;

verus! {

/// The root of the provider's API.
pub const CF_API_URL: &'static str = "https://api.cloudflare.com/client/v4";

/// The routing rules of the zone `zone_id`.
pub open spec fn rules_url_of(zone_id: Seq<char>) -> Seq<char> {
    CF_API_URL@ + "/zones/"@ + zone_id + "/email/routing/rules"@
}

/// The routing rule `rule_id` of the zone `zone_id`.
pub open spec fn rule_url_of(zone_id: Seq<char>, rule_id: Seq<char>) -> Seq<char> {
    rules_url_of(zone_id) + "/"@ + rule_id
}

/// The endpoint that lists the routing rules of a zone.
pub fn rules_url(zone_id: &str) -> (r: String)
    ensures
        r@ == rules_url_of(zone_id@),
{
    let mut url = String::from_str(CF_API_URL);
    url.append("/zones/");
    url.append(zone_id);
    url.append("/email/routing/rules");
    url
}

/// The endpoint of one routing rule of a zone.
pub fn rule_url(zone_id: &str, rule_id: &str) -> (r: String)
    ensures
        r@ == rule_url_of(zone_id@, rule_id@),
{
    let mut url = rules_url(zone_id);
    url.append("/");
    url.append(rule_id);
    url
}

/// The endpoint that lists the zones of the token's account.
pub fn zones_url() -> (r: String)
    ensures
        r@ == CF_API_URL@ + "/zones"@,
{
    let mut url = String::from_str(CF_API_URL);
    url.append("/zones");
    url
}

/// The endpoint that lists the destination addresses of the account `account_id`.
pub fn addresses_url(account_id: &str) -> (r: String)
    ensures
        r@ == CF_API_URL@ + "/accounts/"@ + account_id@ + "/email/routing/addresses"@,
{
    let mut url = String::from_str(CF_API_URL);
    url.append("/accounts/");
    url.append(account_id);
    url.append("/email/routing/addresses");
    url
}

/// The value of the `Authorization` header for the API token `token`.
pub fn bearer(token: &str) -> (r: String)
    ensures
        r@ == "Bearer "@ + token@,
{
    let mut value = String::from_str("Bearer ");
    value.append(token);
    value
}

/// Whether `status` reports success: it lies in 200..300.
pub open spec fn is_success(status: i32) -> bool {
    200 <= status < 300
}

/// Reads the status with which the provider answered `url`: success, or an error
/// that carries the url, the status and the body text when there is one.
pub fn check_status(url: &str, status: i32, body: Option<String>) -> (r: Result<(), ApiError>)
    ensures
        match r {
            Ok(_) => is_success(status),
            Err(ApiError::Status { url: u, status: s, body: b }) => !is_success(status) && u@
                == url@ && s == status && b == body,
            Err(_) => false,
        },
{
    if 200 <= status && status < 300 {
        Ok(())
    } else {
        Err(ApiError::Status { url: String::from_str(url), status, body })
    }
}

} // verus!
