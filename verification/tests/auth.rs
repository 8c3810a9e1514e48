use money_core::errors::Error;
use money_core::otp;
use money_core::session;
use money_core::store::Store;

const NOW: i64 = 3_000_000;

fn label(name: &str) -> String {
    String::from(name)
}

#[test]
fn register_returns_secret() {
    let mut store = Store::new();
    let secret = session::register(&mut store, &label("Alice"), &label("Alice A")).unwrap();
    assert!(!secret.is_empty());
    assert_eq!(store.users.len(), 1);
    assert_eq!(store.users[0].username, "alice");
    assert_eq!(store.users[0].display_name, "Alice A");
    assert_eq!(store.users[0].balance, 1000);
    assert!(!store.users[0].otp_verified);
}

#[test]
fn register_twice_conflicts() {
    let mut store = Store::new();
    session::register(&mut store, &label("bob"), &label("Bob")).unwrap();
    let second = session::register(&mut store, &label("bob"), &label("Other"));
    assert_eq!(second, Err(Error::Conflict));
}

#[test]
fn register_normalizes_case_so_bob_conflicts_with_bob() {
    let mut store = Store::new();
    session::register(&mut store, &label("Bob"), &label("Bob")).unwrap();
    let second = session::register(&mut store, &label("bob"), &label("Bob Again"));
    assert_eq!(second, Err(Error::Conflict));
    let third = session::register(&mut store, &label("BOB"), &label("Bob Again"));
    assert_eq!(third, Err(Error::Conflict));
}

#[test]
fn register_refuses_colon() {
    let mut store = Store::new();
    let r = session::register(&mut store, &label("bad:name"), &label("Bad"));
    assert_eq!(r, Err(Error::Conflict));
    assert_eq!(store.users.len(), 0);
}

#[test]
fn login_unknown_user_is_not_found() {
    let mut store = Store::new();
    let r = session::login(&mut store, &label("ghost"), &label("000000"), NOW);
    assert_eq!(r, Err(Error::NotFound));
}

#[test]
fn login_wrong_code_never_issues_token() {
    let mut store = Store::new();
    session::register(&mut store, &label("carol"), &label("Carol")).unwrap();
    let r = session::login(&mut store, &label("carol"), &label("999999999"), NOW);
    assert_eq!(r, Err(Error::Unauthorized));
    assert!(store.sessions.is_empty());
}

#[test]
fn login_with_current_code_issues_token() {
    let mut store = Store::new();
    let secret = session::register(&mut store, &label("dave"), &label("Dave")).unwrap();
    let code = otp::current_code(&secret, &label("dave"), NOW as u64).unwrap();
    let token = session::login(&mut store, &label("Dave"), &code, NOW).unwrap();
    assert_eq!(store.sessions.len(), 1);
    assert_eq!(store.sessions[0].token, token);
    assert_eq!(store.sessions[0].username, "dave");
    assert_eq!(
        store.sessions[0].expires_at,
        NOW + session::get_auth_token_lifetime()
    );
}

#[test]
fn authenticate_fresh_token_returns_owner_and_extends_expiry() {
    let mut store = Store::new();
    let secret = session::register(&mut store, &label("erin"), &label("Erin")).unwrap();
    let code = otp::current_code(&secret, &label("erin"), NOW as u64).unwrap();
    let token = session::login(&mut store, &label("erin"), &code, NOW).unwrap();
    let expiry_at_login = store.sessions[0].expires_at;

    let later = NOW + 500;
    let (user, t) = session::authenticate(&mut store, &token, later).unwrap();
    assert_eq!(user, "erin");
    assert_eq!(t, token);
    let expiry_after_use = store.sessions[0].expires_at;
    assert!(expiry_after_use > expiry_at_login);
    assert_eq!(expiry_after_use, later + session::get_auth_token_lifetime());
}

#[test]
fn authenticate_expired_token_is_anonymous() {
    let mut store = Store::new();
    let secret = session::register(&mut store, &label("frank"), &label("Frank")).unwrap();
    let code = otp::current_code(&secret, &label("frank"), NOW as u64).unwrap();
    let token = session::login(&mut store, &label("frank"), &code, NOW).unwrap();
    let after_expiry = NOW + session::get_auth_token_lifetime();
    let r = session::authenticate(&mut store, &token, after_expiry);
    assert_eq!(r, None);
    // the expired row is left alone, not slid forward
    assert_eq!(
        store.sessions[0].expires_at,
        NOW + session::get_auth_token_lifetime()
    );
}

#[test]
fn authenticate_unknown_token_is_anonymous() {
    let mut store = Store::new();
    let r = session::authenticate(&mut store, &label("no-such-token"), NOW);
    assert_eq!(r, None);
}

#[test]
fn logout_removes_session_and_is_idempotent() {
    let mut store = Store::new();
    let secret = session::register(&mut store, &label("gina"), &label("Gina")).unwrap();
    let code = otp::current_code(&secret, &label("gina"), NOW as u64).unwrap();
    let token = session::login(&mut store, &label("gina"), &code, NOW).unwrap();
    assert_eq!(store.sessions.len(), 1);

    session::logout(&mut store, &token);
    assert_eq!(store.sessions.len(), 0);
    assert_eq!(session::authenticate(&mut store, &token, NOW), None);

    // deleting an absent token is not an error
    session::logout(&mut store, &token);
    assert_eq!(store.sessions.len(), 0);
}

#[test]
fn handle_logout_refuses_anonymous() {
    let mut store = Store::new();
    let r = session::handle_logout(&mut store, None);
    assert_eq!(r, Err(Error::Unauthorized));
}

#[test]
fn displayname_lookups() {
    let mut store = Store::new();
    let secret = session::register(&mut store, &label("hugo"), &label("Hugo H")).unwrap();
    assert_eq!(
        session::get_displayname_from_username(&store, &label("hugo")),
        Ok(String::from("Hugo H"))
    );
    assert_eq!(
        session::get_displayname_from_username(&store, &label("nobody")),
        Err(Error::NotFound)
    );

    let code = otp::current_code(&secret, &label("hugo"), NOW as u64).unwrap();
    let token = session::login(&mut store, &label("hugo"), &code, NOW).unwrap();
    assert_eq!(
        session::get_displayname_from_valid_auth_token(&store, &token, NOW),
        Some(String::from("Hugo H"))
    );
    assert_eq!(
        session::get_displayname_from_valid_auth_token(&store, &label("bogus"), NOW),
        None
    );
}

#[test]
fn displayname_lookup_refuses_expired_token() {
    let mut store = Store::new();
    let secret = session::register(&mut store, &label("iris"), &label("Iris")).unwrap();
    let code = otp::current_code(&secret, &label("iris"), NOW as u64).unwrap();
    let token = session::login(&mut store, &label("iris"), &code, NOW).unwrap();
    let after_expiry = NOW + session::get_auth_token_lifetime();
    assert_eq!(
        session::get_displayname_from_valid_auth_token(&store, &token, after_expiry),
        None
    );
    // just before the boundary the token still names its owner
    assert_eq!(
        session::get_displayname_from_valid_auth_token(&store, &token, after_expiry - 1),
        Some(String::from("Iris"))
    );
}
