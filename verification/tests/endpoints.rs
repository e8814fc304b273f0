use axum::http::header::HeaderValue;
use shortener::endpoints;
use shortener::endpoints::{
    health_response, link_response, redirect_target, registration_response, Headers,
};
use shortener::errors::{Error, InternalErrExt, Status};
use shortener::id;
use shortener::service::{check_health, register, resolve, Health, Resolution};
use shortener::store::MemoryStore;

fn text(s: &str) -> String {
    s.to_string()
}

fn header_char(c: char) -> bool {
    (c >= ' ' && c != '\u{7f}') || c == '\t'
}

#[test]
fn health() {
    let store = MemoryStore::new();

    let response = endpoints::health(store.ping());

    assert_eq!(response, Ok(()));
    assert_eq!(Status::Success.code(), 200);
}

#[test]
fn get_link() {
    let mut store = MemoryStore::new();

    // Create a fake link entry
    let fake_id = id::generate();

    store.set(fake_id.clone(), text("https://google.com")).unwrap();

    let response = endpoints::get_link(store.get(&fake_id));

    let (status, headers) = response.unwrap();
    assert_eq!(status, Status::MovedPermanently);
    assert_eq!(headers.location.unwrap(), "https://google.com");
}

#[test]
fn set_link() {
    let mut store = MemoryStore::new();

    let response = registration_response(register(&mut store, text("https://example.org")));

    assert!(response.is_ok());
    assert_eq!(Status::Success.code(), 200);
}

#[test]
fn status_codes() {
    assert_eq!(Status::Success.code(), 200);
    assert_eq!(Status::MovedPermanently.code(), 301);
    assert_eq!(Status::NotFound.code(), 404);
    assert_eq!(Status::InternalServerError.code(), 500);
    assert_eq!(Status::ServiceUnavailable.code(), 503);
}

#[test]
fn unknown_identifier_is_answered_with_not_found() {
    let store = MemoryStore::new();
    let resolution = resolve(&store, "doesnotexist");
    assert_eq!(resolution, Resolution::NotFound);
    let response = link_response(resolution);
    assert_eq!(response, Ok((Status::NotFound, Headers { location: None })));
    assert_eq!(response.unwrap().0.code(), 404);
}

#[test]
fn unreachable_store_is_answered_with_service_unavailable() {
    let health = shortener::service::health_from_probe(Err(Error::StoreUnavailable));
    assert_eq!(health, Health::Unhealthy(Error::StoreUnavailable));
    let response = health_response(health);
    assert_eq!(response, Err(Status::ServiceUnavailable));
    assert_eq!(response.unwrap_err().code(), 503);
    assert_eq!(endpoints::health(Err(Error::StoreUnavailable)), Err(Status::ServiceUnavailable));
}

#[test]
fn wrong_reply_is_answered_with_service_unavailable() {
    assert_eq!(endpoints::health(Ok(text("PING"))), Err(Status::ServiceUnavailable));
    assert_eq!(endpoints::health(Ok(text(""))), Err(Status::ServiceUnavailable));
    assert_eq!(endpoints::health(Ok(text("PONG"))), Ok(()));
}

#[test]
fn healthy_store_is_answered_with_success() {
    let store = MemoryStore::new();
    assert_eq!(health_response(check_health(&store)), Ok(()));
    assert_eq!(
        health_response(Health::Unhealthy(Error::InvalidResponse)),
        Err(Status::ServiceUnavailable)
    );
}

#[test]
fn found_link_is_answered_with_a_redirect() {
    let response = endpoints::get_link(Ok(Some(text("https://example.org"))));
    assert_eq!(
        response,
        Ok((Status::MovedPermanently, Headers { location: Some(text("https://example.org")) }))
    );
}

#[test]
fn failed_lookup_is_answered_with_a_server_error() {
    assert_eq!(
        endpoints::get_link(Err(Error::StoreUnavailable)),
        Err(Status::InternalServerError)
    );
    assert_eq!(
        link_response(Resolution::Failed(Error::StoreUnavailable)),
        Err(Status::InternalServerError)
    );
}

#[test]
fn malformed_target_is_answered_with_a_server_error() {
    assert_eq!(endpoints::get_link(Ok(Some(text("a\nb")))), Err(Status::InternalServerError));
    assert_eq!(
        link_response(Resolution::Found(text("https://example.org/\u{7f}"))),
        Err(Status::InternalServerError)
    );
}

#[test]
fn empty_target_is_answered_with_a_redirect() {
    assert_eq!(
        endpoints::get_link(Ok(Some(text("")))),
        Ok((Status::MovedPermanently, Headers { location: Some(text("")) }))
    );
}

#[test]
fn registration_is_answered_with_the_identifier() {
    assert_eq!(endpoints::set_link(text("abc1234"), Ok(())), Ok(text("abc1234")));
    assert_eq!(registration_response(Ok(text("abc1234"))), Ok(text("abc1234")));
}

#[test]
fn failed_write_is_answered_with_a_server_error() {
    assert_eq!(
        endpoints::set_link(text("abc1234"), Err(Error::StoreUnavailable)),
        Err(Status::InternalServerError)
    );
    assert_eq!(
        registration_response(Err(Error::StoreUnavailable)),
        Err(Status::InternalServerError)
    );
}

#[test]
fn redirect_target_accepts_header_text() {
    assert_eq!(redirect_target(text("https://example.org")), Ok(text("https://example.org")));
    assert_eq!(redirect_target(text("")), Ok(text("")));
    assert_eq!(redirect_target(text("a\tb")), Ok(text("a\tb")));
    assert_eq!(redirect_target(text("caf\u{e9} \u{1f600}")), Ok(text("caf\u{e9} \u{1f600}")));
    assert_eq!(redirect_target(text("\u{80}")), Ok(text("\u{80}")));
}

#[test]
fn redirect_target_rejects_control_characters() {
    assert_eq!(redirect_target(text("a\nb")), Err(Error::MalformedTarget));
    assert_eq!(redirect_target(text("a\rb")), Err(Error::MalformedTarget));
    assert_eq!(redirect_target(text("\0")), Err(Error::MalformedTarget));
    assert_eq!(redirect_target(text("\u{1f}")), Err(Error::MalformedTarget));
    assert_eq!(redirect_target(text("\u{7f}")), Err(Error::MalformedTarget));
    assert_eq!(redirect_target(text("ok\u{7f}")), Err(Error::MalformedTarget));
}

#[test]
fn redirect_target_decides_by_character() {
    let beyond_ascii = ['\u{80}', '\u{ff}', '\u{7ff}', '\u{800}', '\u{d7ff}', '\u{e000}', '\u{ffff}', '\u{10000}', '\u{10ffff}'];
    let candidates = (0u8..=0x7f).map(char::from).chain(beyond_ascii);
    for c in candidates {
        let target = format!("a{c}b");
        let accepted = redirect_target(target.clone());
        assert_eq!(accepted.is_ok(), header_char(c), "character {:?}", c);
        assert_eq!(accepted.is_ok(), HeaderValue::from_str(&target).is_ok());
        if header_char(c) {
            assert_eq!(accepted, Ok(target));
        } else {
            assert_eq!(accepted, Err(Error::MalformedTarget));
        }
    }
}

#[test]
fn any_failure_becomes_a_server_error() {
    let failed: Result<u8, &str> = Err("connection refused");
    assert_eq!(failed.map_internal_err(), Err(Status::InternalServerError));
    let malformed: Result<String, Error> = Err(Error::MalformedTarget);
    assert_eq!(malformed.map_internal_err(), Err(Status::InternalServerError));
}

#[test]
fn success_passes_through() {
    let fine: Result<u8, &str> = Ok(7);
    assert_eq!(fine.map_internal_err(), Ok(7));
}
