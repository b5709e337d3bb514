use openai_api::geo::geolocation_ip;
use openai_api::geo::geolocation_request;
use openai_api::http::FetchOutcome;
use openai_api::http::Method;

#[test]
fn lookup_returns_the_ip_field_of_a_well_formed_body() {
    let fetch = FetchOutcome::Body(String::from("{\"ip\": \"8.8.8.8\"}"));
    assert_eq!(geolocation_ip(&fetch), "8.8.8.8");
}

#[test]
fn lookup_falls_back_on_a_body_that_is_not_json() {
    let fetch = FetchOutcome::Body(String::from("not json"));
    assert_eq!(geolocation_ip(&fetch), "127.0.0.1");
}

#[test]
fn lookup_falls_back_on_a_missing_field() {
    let fetch = FetchOutcome::Body(String::from("{\"country\": \"NL\"}"));
    assert_eq!(geolocation_ip(&fetch), "127.0.0.1");
}

#[test]
fn lookup_falls_back_on_a_non_string_field() {
    let fetch = FetchOutcome::Body(String::from("{\"ip\": 8888}"));
    assert_eq!(geolocation_ip(&fetch), "127.0.0.1");
}

#[test]
fn lookup_falls_back_on_transport_failure() {
    assert_eq!(geolocation_ip(&FetchOutcome::TransportFailure), "127.0.0.1");
}

#[test]
fn lookup_ignores_other_fields_around_the_ip() {
    let fetch = FetchOutcome::Body(String::from(
        "{\"organization\": \"x\", \"ip\": \"203.0.113.9\", \"country\": \"NL\"}",
    ));
    assert_eq!(geolocation_ip(&fetch), "203.0.113.9");
}

#[test]
fn lookup_request_is_a_bare_get_of_the_fixed_endpoint() {
    let req = geolocation_request();
    assert!(matches!(req.method, Method::Get));
    assert_eq!(req.url, "https://get.geojs.io/v1/ip.json");
    assert!(req.headers.is_empty());
    assert!(req.body.is_none());
}
