use money_core::otp;

// A fixed, valid base32 secret (23 bytes of key material), so every outcome
// below is deterministic.
const SECRET: &str = "OBWGC2LOFVZXI4TJNZTS243FMNZGK5BNGEZDG";

const T: u64 = 3_000_000;

fn s(v: &str) -> String {
    String::from(v)
}

#[test]
fn current_code_is_six_digits() {
    let code = otp::current_code(&s(SECRET), &s("alice"), T).unwrap();
    assert_eq!(code.len(), 6);
    assert!(code.chars().all(|c| c.is_ascii_digit()));
}

#[test]
fn code_verifies_at_its_own_time() {
    let code = otp::current_code(&s(SECRET), &s("alice"), T).unwrap();
    assert!(otp::verify(&s(SECRET), &s("alice"), &code, T));
}

#[test]
fn code_verifies_within_thirty_seconds() {
    let code = otp::current_code(&s(SECRET), &s("alice"), T).unwrap();
    assert!(otp::verify(&s(SECRET), &s("alice"), &code, T + 30));
    assert!(otp::verify(&s(SECRET), &s("alice"), &code, T - 30));
}

#[test]
fn code_fails_far_from_its_time() {
    let code = otp::current_code(&s(SECRET), &s("alice"), T).unwrap();
    assert!(!otp::verify(&s(SECRET), &s("alice"), &code, T + 121));
    assert!(!otp::verify(&s(SECRET), &s("alice"), &code, T - 121));
}

#[test]
fn wrong_code_fails() {
    let code = otp::current_code(&s(SECRET), &s("alice"), T).unwrap();
    let wrong = if code == "000000" { s("000001") } else { s("000000") };
    assert!(!otp::verify(&s(SECRET), &s("alice"), &wrong, T));
}

#[test]
fn generated_secrets_are_accepted_and_fresh() {
    let a = otp::generate_secret();
    let b = otp::generate_secret();
    assert!(!a.is_empty());
    assert_ne!(a, b);
    // a generated secret passes the engine's own construction checks
    assert!(otp::current_code(&a, &s("bob"), T).is_some());
}

#[test]
fn bad_secret_is_refused() {
    // not base32
    assert!(otp::current_code(&s("!!!not-base32!!!"), &s("bob"), T).is_none());
    // decodes to fewer than 128 bits
    assert!(otp::current_code(&s("MFRGG"), &s("bob"), T).is_none());
    assert!(!otp::verify(&s("MFRGG"), &s("bob"), &s("123456"), T));
}

#[test]
fn colon_in_account_is_refused() {
    assert!(otp::current_code(&s(SECRET), &s("a:b"), T).is_none());
}

#[test]
fn code_depends_on_the_secret() {
    let other = "KRSXG5CTMVRXEZLUKN2XAZLSKNSWG4TFOQ";
    let c1 = otp::current_code(&s(SECRET), &s("alice"), T).unwrap();
    let c2 = otp::current_code(&s(other), &s("alice"), T).unwrap();
    assert_ne!(c1, c2);
}
