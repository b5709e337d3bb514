//! The IP-geolocation lookup: extracting the caller's public IP address
//! from the geolocation service's response.
//!
//! This is the one operation with a defined fallback: any failure anywhere
//! in its chain — transport, a body that is not JSON, a missing or
//! non-string `ip` field — yields the loopback address instead of an error.

use vstd::prelude::*;
use vstd::string::*;
use crate::codec::json_str_field;
use crate::codec::str_field_of;
use crate::http::ApiRequest;
use crate::http::FetchOutcome;
use crate::http::Method;

verus! {

/// The address returned when the lookup fails at any stage.
pub const FALLBACK_IP: &'static str = "127.0.0.1";

/// The fixed geolocation endpoint.
pub const GEOLOCATION_URL: &'static str = "https://get.geojs.io/v1/ip.json";

/// What the lookup of one fetched response comes to: the string under `ip`
/// in the body, or the loopback fallback when the fetch failed, the body is
/// not valid JSON, or the field is absent or not a string.
pub open spec fn geolocation_ip_spec(fetch: FetchOutcome) -> Seq<char> {
    match fetch {
        FetchOutcome::Body(b) => match str_field_of(b@, "ip"@) {
            Some(s) => s,
            None => "127.0.0.1"@,
        },
        FetchOutcome::TransportFailure => "127.0.0.1"@,
    }
}

/// The request that the geolocation lookup sends: a bare unauthenticated
/// GET of the fixed endpoint.
pub fn geolocation_request() -> (r: ApiRequest)
    ensures
        r.method == Method::Get,
        r.url@ == "https://get.geojs.io/v1/ip.json"@,
        r.headers@.len() == 0,
        r.body is None,
{
    ApiRequest {
        method: Method::Get,
        url: String::from_str(GEOLOCATION_URL),
        headers: Vec::new(),
        body: None,
    }
}

/// The IP address a fetched geolocation response reports: the `ip` field of
/// the body, or the loopback fallback on any failure.
pub fn geolocation_ip(fetch: &FetchOutcome) -> (ip: String)
    ensures
        ip@ == geolocation_ip_spec(*fetch),
{
    match fetch {
        FetchOutcome::Body(b) => match json_str_field(b.as_str(), "ip") {
            Some(s) => s,
            None => String::from_str(FALLBACK_IP),
        },
        FetchOutcome::TransportFailure => String::from_str(FALLBACK_IP),
    }
}

} // verus!
