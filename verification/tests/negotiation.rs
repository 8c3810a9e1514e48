use money_core::errors::Error;
use money_core::negotiate::{credential_of_request, get_requested_type, RequestTypeEnum};
use money_core::session;
use money_core::store::Store;

fn s(v: &str) -> String {
    String::from(v)
}

#[test]
fn json_accept_header_is_json() {
    let r = get_requested_type(Some(&s("application/json")), None);
    assert_eq!(r, Some(RequestTypeEnum::Json));
    let r = get_requested_type(Some(&s("text/plain, application/json;q=0.9")), None);
    assert_eq!(r, Some(RequestTypeEnum::Json));
}

#[test]
fn websocket_marker_counts_as_json() {
    let r = get_requested_type(Some(&s("custom/ws")), None);
    assert_eq!(r, Some(RequestTypeEnum::Json));
}

#[test]
fn html_accept_header_is_html() {
    let r = get_requested_type(Some(&s("text/html,application/xhtml+xml")), None);
    assert_eq!(r, Some(RequestTypeEnum::Html));
}

#[test]
fn json_wins_over_html_when_both_occur() {
    let r = get_requested_type(Some(&s("text/html, application/json")), None);
    assert_eq!(r, Some(RequestTypeEnum::Json));
}

#[test]
fn wildcard_with_partial_render_marker_is_html() {
    let r = get_requested_type(Some(&s("*/*")), Some(&s("true")));
    assert_eq!(r, Some(RequestTypeEnum::Html));
}

#[test]
fn bare_wildcard_is_unclassified() {
    // regardless of body shape, such a request is rejected with
    // UnsupportedMediaType at the boundary
    assert_eq!(get_requested_type(Some(&s("*/*")), None), None);
    assert_eq!(get_requested_type(Some(&s("*/*")), Some(&s("false"))), None);
}

#[test]
fn missing_or_alien_accept_is_unclassified() {
    assert_eq!(get_requested_type(None, None), None);
    assert_eq!(get_requested_type(Some(&s("image/png")), None), None);
}

#[test]
fn credential_transport_follows_content_type() {
    let cookie = s("cookie-token");
    let header = s("header-token");
    assert_eq!(
        credential_of_request(RequestTypeEnum::Html, Some(&cookie), Some(&header)),
        Some(&cookie)
    );
    assert_eq!(
        credential_of_request(RequestTypeEnum::Json, Some(&cookie), Some(&header)),
        Some(&header)
    );
    // no fallback between the two
    assert_eq!(
        credential_of_request(RequestTypeEnum::Html, None, Some(&header)),
        None
    );
    assert_eq!(
        credential_of_request(RequestTypeEnum::Json, Some(&cookie), None),
        None
    );
}

#[test]
fn get_displayname_is_json_only() {
    let store = Store::new();
    let now: i64 = 3_000_000;
    let r = session::get_displayname(&store, RequestTypeEnum::Html, &s("any"), now);
    assert_eq!(r, Err(Error::UnsupportedMediaType));
    let r = session::get_displayname(&store, RequestTypeEnum::Json, &s("unknown"), now);
    assert_eq!(r, Err(Error::NotFound));
}

#[test]
fn authenticate_request_uses_the_negotiated_carrier() {
    let mut store = Store::new();
    let secret = session::register(&mut store, &s("ivan"), &s("Ivan")).unwrap();
    let now: i64 = 3_000_000;
    let code = money_core::otp::current_code(&secret, &s("ivan"), now as u64).unwrap();
    let token = session::login(&mut store, &s("ivan"), &code, now).unwrap();

    // HTML looks at the cookie only
    let r = session::authenticate_request(
        &mut store,
        RequestTypeEnum::Html,
        Some(&token),
        None,
        now,
    );
    assert_eq!(r.as_ref().map(|(u, _)| u.as_str()), Some("ivan"));

    // JSON looks at the header only: a cookie alone means anonymous
    let r = session::authenticate_request(
        &mut store,
        RequestTypeEnum::Json,
        Some(&token),
        None,
        now,
    );
    assert_eq!(r, None);

    let r = session::authenticate_request(
        &mut store,
        RequestTypeEnum::Json,
        None,
        Some(&token),
        now,
    );
    assert_eq!(r.as_ref().map(|(u, _)| u.as_str()), Some("ivan"));
}

#[test]
fn error_messages_are_stable() {
    assert_eq!(Error::Unauthorized.message(), "unauthorized");
    assert_eq!(Error::NotFound.message(), "not found");
    assert_eq!(Error::Conflict.message(), "conflict");
    assert_eq!(Error::UnsupportedMediaType.message(), "unsupported media type");
    assert_eq!(Error::InternalError.message(), "internal error");
}

#[test]
fn random_ids_have_the_asked_length() {
    let id = money_core::util::get_random_string(8);
    assert_eq!(id.len(), 8);
    assert!(id.chars().all(|c| c.is_ascii_alphabetic()));
    let empty = money_core::util::get_random_string(0);
    assert!(empty.is_empty());
}
