//! The one-time-password engine: 6-digit, SHA-1, 30-second-step codes with
//! one step of tolerance on each side, derived from a base32 secret.
//!
//! The code computation itself is done by the `totp_rs` crate behind trusted
//! wrappers; the windowing property of a check is stated exactly, so the
//! tolerance arithmetic is proved here.

use vstd::prelude::*;
use crate::store::has_colon;

verus! {

/// The 6-digit code that the shared `secret` (base32) yields for the 30-second
/// step numbered `step`.  The code is a pure function of the secret and the
/// step; what it is on given values only the underlying algorithm knows.
pub uninterp spec fn totp_code_of(secret: Seq<char>, step: int) -> Seq<char>;

/// Whether the engine accepts `secret` (base32): it must decode, to at least
/// 128 bits of key material.
pub uninterp spec fn valid_totp_secret(secret: Seq<char>) -> bool;

/// A check at time `time` accepts `code` iff it is the code of one of the
/// three steps centred on `time`'s own step.
pub open spec fn totp_window_contains(secret: Seq<char>, code: Seq<char>, time: u64) -> bool {
    exists|k: int|
        time as int / 30 - 1 <= k <= time as int / 30 + 1 && code == #[trigger] totp_code_of(
            secret,
            k,
        )
}

/// Do the engine's construction checks accept this secret and account label?
pub open spec fn totp_inputs_accepted(secret: Seq<char>, account: Seq<char>) -> bool {
    valid_totp_secret(secret) && !has_colon(account)
}

/// Relies on totp_rs's Secret::generate_secret and Secret::to_encoded: 160
/// random bits, base32-encoded, which every construction check accepts.
#[verifier::external_body]
pub fn generate_secret() -> (r: String)
    ensures
        valid_totp_secret(r@),
{
    totp_rs::Secret::generate_secret().to_encoded().to_string()
}

/// Relies on totp_rs's TOTP::generate (via Secret::to_bytes and TOTP::new with
/// SHA-1, 6 digits, skew 1, step 30): the code of step `time / 30`, 6
/// characters; construction refuses an undecodable or short secret and an
/// account label holding `:`.
#[verifier::external_body]
fn make_code(secret: &String, account: &String, time: u64) -> (r: Option<String>)
    ensures
        r is Some <==> totp_inputs_accepted(secret@, account@),
        match r {
            Some(c) => c@ == totp_code_of(secret@, time as int / 30) && c@.len() == 6,
            None => true,
        },
{
    let bytes = match totp_rs::Secret::Encoded(secret.clone()).to_bytes() {
        Ok(b) => b,
        Err(_) => return None,
    };
    let totp = match totp_rs::TOTP::new(
        totp_rs::Algorithm::SHA1, 6, 1, 30, bytes,
        Some("Schmervices".to_string()), account.clone(),
    ) {
        Ok(t) => t,
        Err(_) => return None,
    };
    Some(totp.generate(time))
}

/// Relies on totp_rs's TOTP::check (same construction as above): true iff the
/// candidate is the code of one of the steps `time / 30 - 1`, `time / 30`,
/// `time / 30 + 1`.  The bounds on `time` keep the crate's step arithmetic
/// inside u64.
#[verifier::external_body]
fn check_code(secret: &String, account: &String, code: &String, time: u64) -> (r: Option<bool>)
    requires
        30 <= time <= u64::MAX - 30,
    ensures
        r is Some <==> totp_inputs_accepted(secret@, account@),
        match r {
            Some(b) => b == totp_window_contains(secret@, code@, time),
            None => true,
        },
{
    let bytes = match totp_rs::Secret::Encoded(secret.clone()).to_bytes() {
        Ok(b) => b,
        Err(_) => return None,
    };
    let totp = match totp_rs::TOTP::new(
        totp_rs::Algorithm::SHA1, 6, 1, 30, bytes,
        Some("Schmervices".to_string()), account.clone(),
    ) {
        Ok(t) => t,
        Err(_) => return None,
    };
    Some(totp.check(code.as_str(), time))
}

/// The current code for a secret and account label at a given time: the code
/// of step `time / 30`.  `None` iff the engine refuses the secret or the
/// label.
pub fn current_code(secret: &String, account: &String, time: u64) -> (r: Option<String>)
    ensures
        r is Some <==> totp_inputs_accepted(secret@, account@),
        match r {
            Some(c) => c@ == totp_code_of(secret@, time as int / 30) && c@.len() == 6,
            None => true,
        },
{
    make_code(secret, account, time)
}

/// Check a candidate code at a given time: accepted iff the inputs are
/// accepted and the candidate is a code of the three-step window around
/// `time`.  A refused secret or label verifies nothing.
pub fn verify(secret: &String, account: &String, code: &String, time: u64) -> (r: bool)
    requires
        30 <= time <= u64::MAX - 30,
    ensures
        r == (totp_inputs_accepted(secret@, account@) && totp_window_contains(
            secret@,
            code@,
            time,
        )),
{
    match check_code(secret, account, code, time) {
        Some(b) => b,
        None => false,
    }
}

/// A code is good for ±30 seconds: the code generated at time `t` passes a
/// check at any time `t2` at most 30 seconds away (given acceptable inputs).
pub proof fn lemma_code_verifies_nearby(secret: Seq<char>, t: u64, t2: u64)
    requires
        t <= t2 + 30,
        t2 <= t + 30,
    ensures
        totp_window_contains(secret, totp_code_of(secret, t as int / 30), t2),
{
    let a = t as int;
    let b = t2 as int;
    assert(b / 30 - 1 <= a / 30 <= b / 30 + 1) by (nonlinear_arith)
        requires
            a >= 0,
            b >= 0,
            a <= b + 30,
            b <= a + 30,
    {
        assert(30 * (a / 30) + a % 30 == a);
        assert(30 * (b / 30) + b % 30 == b);
        assert(0 <= a % 30 < 30);
        assert(0 <= b % 30 < 30);
    }
    assert(totp_code_of(secret, a / 30) == totp_code_of(secret, a / 30));
}

/// A code goes stale beyond 90 seconds: the code generated at time `t` fails a
/// check at any time `t2` more than 90 seconds away, as long as no other step
/// in the check's window happens to yield the same six digits.
pub proof fn lemma_code_fails_distant(secret: Seq<char>, t: u64, t2: u64)
    requires
        t + 90 < t2 || t2 + 90 < t,
        forall|k: int| k != t as int / 30 ==> #[trigger] totp_code_of(secret, k) != totp_code_of(
            secret,
            t as int / 30,
        ),
    ensures
        !totp_window_contains(secret, totp_code_of(secret, t as int / 30), t2),
{
    let a = t as int;
    let b = t2 as int;
    assert(a / 30 < b / 30 - 1 || a / 30 > b / 30 + 1) by (nonlinear_arith)
        requires
            a >= 0,
            b >= 0,
            a + 90 < b || b + 90 < a,
    {
        assert(30 * (a / 30) + a % 30 == a);
        assert(30 * (b / 30) + b % 30 == b);
        assert(0 <= a % 30 < 30);
        assert(0 <= b % 30 < 30);
    }
}

} // verus!
