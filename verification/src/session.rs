//! The session manager: registration, one-time-password login, token
//! authentication with a sliding expiry, and logout.

use vstd::prelude::*;

use crate::errors::Error;
use crate::negotiate::RequestTypeEnum;
use crate::otp;
use crate::otp::{totp_code_of, totp_inputs_accepted, totp_window_contains, valid_totp_secret};
use crate::store::{
    contains_token, contains_username, has_colon, lemma_lower_normalizes, lower,
    normalize_username, token_index, username_index, SessionView, Store, UserView,
    Session, User,
};

verus! {

/// How long a freshly issued or freshly used session token stays valid, in
/// seconds: one week.
pub const AUTH_TOKEN_LIFETIME_SECS: i64 = 604800;

/// The lifetime of a session token, in seconds.
pub fn get_auth_token_lifetime() -> (r: i64)
    ensures
        r == AUTH_TOKEN_LIFETIME_SECS,
{
    AUTH_TOKEN_LIFETIME_SECS
}

/// The starting balance every new user is given.
pub const STARTING_BALANCE: i64 = 1000;

/// Does the stored secret of the user called `uname` accept `code` at `time`?
/// (`uname` must name a user; the label bound into the code is the username
/// itself.)
pub open spec fn code_accepted(
    users: Seq<UserView>,
    uname: Seq<char>,
    code: Seq<char>,
    time: u64,
) -> bool {
    let secret = users[username_index(users, uname)].otp_secret;
    totp_inputs_accepted(secret, uname) && totp_window_contains(secret, code, time)
}

/// Register a new user: refuse a name that holds the reserved `:` separator
/// or that is already taken (case-insensitively), else store the user with a
/// fresh secret and hand the secret back.
pub fn register(store: &mut Store, username: &String, display_name: &String) -> (r: Result<
    String,
    Error,
>)
    requires
        old(store).wf(),
    ensures
        final(store).wf(),
        final(store)@.sessions == old(store)@.sessions,
        final(store)@.transactions == old(store)@.transactions,
        match r {
            Err(e) => {
                &&& e == Error::Conflict
                &&& has_colon(username@) || contains_username(
                    old(store)@.users,
                    lower(username@),
                )
                &&& final(store)@.users == old(store)@.users
            },
            Ok(secret) => {
                &&& !has_colon(username@)
                &&& !contains_username(old(store)@.users, lower(username@))
                &&& valid_totp_secret(secret@)
                &&& final(store)@.users == old(store)@.users.push(
                    UserView {
                        username: lower(username@),
                        display_name: display_name@,
                        otp_secret: secret@,
                        balance: STARTING_BALANCE as int,
                        otp_verified: false,
                    },
                )
            },
        },
{
    if crate::store::contains_colon(username.as_str()) {
        return Err(Error::Conflict);
    }
    let uname = normalize_username(username.as_str());
    if store.find_user(&uname).is_some() {
        return Err(Error::Conflict);
    }
    let secret = otp::generate_secret();
    let user = User {
        username: uname,
        display_name: display_name.clone(),
        otp_secret: secret.clone(),
        balance: STARTING_BALANCE,
        otp_verified: false,
    };
    let ghost old_users = store@.users;
    let ghost uv = user@;
    store.users.push(user);
    proof {
        lemma_lower_normalizes(username@);
        assert(store@.users =~= old_users.push(uv));
        assert(store@.sessions =~= old(store)@.sessions);
        assert(store@.transactions =~= old(store)@.transactions);
        assert forall|i: int, j: int| 0 <= i < j < store@.users.len() implies store@.users[i].username
            != store@.users[j].username by {
            if j == store@.users.len() - 1 {
                assert(!contains_username(old_users, uv.username));
            }
        }
    }
    Ok(secret)
}

/// Issue a fresh random session token for `username`, valid for the standard
/// lifetime from `now`.  The token is drawn at random; in the (statistically
/// negligible) case that it collides with a live one, the store is left
/// alone and `InternalError` comes back.  A collision needs an occupant, so
/// with no live sessions success is owed.
pub fn issue_token(store: &mut Store, username: &String, now: i64) -> (r: Result<String, Error>)
    requires
        old(store).wf(),
        now <= i64::MAX - AUTH_TOKEN_LIFETIME_SECS,
    ensures
        final(store).wf(),
        final(store)@.users == old(store)@.users,
        final(store)@.transactions == old(store)@.transactions,
        match r {
            Err(e) => {
                &&& e == Error::InternalError
                &&& final(store)@.sessions == old(store)@.sessions
                &&& old(store)@.sessions.len() > 0
            },
            Ok(token) => {
                &&& !contains_token(old(store)@.sessions, token@)
                &&& final(store)@.sessions == old(store)@.sessions.push(
                    SessionView {
                        token: token@,
                        username: username@,
                        expires_at: now + AUTH_TOKEN_LIFETIME_SECS,
                    },
                )
            },
        },
{
    let token = otp::generate_secret();
    if store.find_session(&token).is_some() {
        return Err(Error::InternalError);
    }
    let ghost old_sessions = store@.sessions;
    let session = Session {
        token: token.clone(),
        username: username.clone(),
        expires_at: now + AUTH_TOKEN_LIFETIME_SECS,
    };
    let ghost sv = session@;
    store.sessions.push(session);
    proof {
        assert(store@.sessions =~= old_sessions.push(sv));
        assert(store@.users =~= old(store)@.users);
        assert(store@.transactions =~= old(store)@.transactions);
        assert forall|i: int, j: int| 0 <= i < j < store@.sessions.len() implies store@.sessions[i].token
            != store@.sessions[j].token by {
            if j == store@.sessions.len() - 1 {
                assert(!contains_token(old_sessions, sv.token));
            }
        }
    }
    Ok(token)
}

/// Log a user in: fold the username, refuse an unknown user with `NotFound`
/// and a code the user's secret does not accept right now with
/// `Unauthorized`; on success issue and return a fresh session token.
pub fn login(store: &mut Store, username: &String, code: &String, now: i64) -> (r: Result<
    String,
    Error,
>)
    requires
        old(store).wf(),
        30 <= now <= i64::MAX - AUTH_TOKEN_LIFETIME_SECS,
    ensures
        final(store).wf(),
        final(store)@.users == old(store)@.users,
        final(store)@.transactions == old(store)@.transactions,
        ({
            let u = lower(username@);
            let users = old(store)@.users;
            match r {
                Err(Error::NotFound) => !contains_username(users, u) && final(store)@.sessions == old(
                    store,
                )@.sessions,
                Err(Error::Unauthorized) => contains_username(users, u) && !code_accepted(
                    users,
                    u,
                    code@,
                    now as u64,
                ) && final(store)@.sessions == old(store)@.sessions,
                Err(Error::InternalError) => contains_username(users, u) && code_accepted(
                    users,
                    u,
                    code@,
                    now as u64,
                ) && final(store)@.sessions == old(store)@.sessions && old(
                    store,
                )@.sessions.len() > 0,
                Err(_) => false,
                Ok(token) => {
                    &&& contains_username(users, u)
                    &&& code_accepted(users, u, code@, now as u64)
                    &&& !contains_token(old(store)@.sessions, token@)
                    &&& final(store)@.sessions == old(store)@.sessions.push(
                        SessionView {
                            token: token@,
                            username: u,
                            expires_at: now + AUTH_TOKEN_LIFETIME_SECS,
                        },
                    )
                },
            }
        }),
{
    let uname = normalize_username(username.as_str());
    let idx = match store.find_user(&uname) {
        Some(i) => i,
        None => {
            return Err(Error::NotFound);
        },
    };
    let secret = store.users[idx].otp_secret.clone();
    proof {
        let users = store@.users;
        let i = username_index(users, uname@);
        assert(users[idx as int].username == users[i].username);
        assert(users[idx as int] == users[i]);
    }
    if !otp::verify(&secret, &uname, code, now as u64) {
        return Err(Error::Unauthorized);
    }
    issue_token(store, &uname, now)
}

/// Look a presented token up and, if it names a live session, slide that
/// session's expiry a full lifetime forward from `now` and return the owner
/// and the token.  A missing, unknown or expired token quietly means
/// "anonymous": `None`, with nothing changed.
pub fn authenticate(store: &mut Store, token: &String, now: i64) -> (r: Option<(String, String)>)
    requires
        old(store).wf(),
        0 <= now <= i64::MAX - AUTH_TOKEN_LIFETIME_SECS,
    ensures
        final(store).wf(),
        final(store)@.users == old(store)@.users,
        final(store)@.transactions == old(store)@.transactions,
        ({
            let sessions = old(store)@.sessions;
            match r {
                None => {
                    &&& (!contains_token(sessions, token@) || sessions[token_index(
                        sessions,
                        token@,
                    )].expires_at <= now)
                    &&& final(store)@.sessions == sessions
                },
                Some((u, t)) => {
                    let i = token_index(sessions, token@);
                    &&& contains_token(sessions, token@)
                    &&& sessions[i].expires_at > now
                    &&& u@ == sessions[i].username
                    &&& t@ == token@
                    &&& final(store)@.sessions == sessions.update(
                        i,
                        SessionView {
                            token: token@,
                            username: u@,
                            expires_at: now + AUTH_TOKEN_LIFETIME_SECS,
                        },
                    )
                },
            }
        }),
{
    let idx = match store.find_session(token) {
        Some(i) => i,
        None => {
            return None;
        },
    };
    proof {
        let sessions = store@.sessions;
        let i = token_index(sessions, token@);
        assert(sessions[idx as int].token == sessions[i].token);
        assert(sessions[idx as int] == sessions[i]);
    }
    if store.sessions[idx].expires_at <= now {
        return None;
    }
    let username = store.sessions[idx].username.clone();
    let ghost old_sessions = store@.sessions;
    store.sessions[idx].expires_at = now + AUTH_TOKEN_LIFETIME_SECS;
    proof {
        let i = token_index(old_sessions, token@);
        assert(store@.sessions =~= old_sessions.update(
            i,
            SessionView {
                token: token@,
                username: username@,
                expires_at: now + AUTH_TOKEN_LIFETIME_SECS,
            },
        ));
        assert(store@.users =~= old(store)@.users);
        assert(store@.transactions =~= old(store)@.transactions);
        assert forall|a: int, b: int| 0 <= a < b < store@.sessions.len() implies store@.sessions[a].token
            != store@.sessions[b].token by {
            assert(old_sessions[a].token != old_sessions[b].token);
        }
    }
    Some((username, token.clone()))
}

/// Forget the session behind `token`.  Deleting an absent token is not an
/// error: the store is simply left alone.
pub fn logout(store: &mut Store, token: &String)
    requires
        old(store).wf(),
    ensures
        final(store).wf(),
        final(store)@.users == old(store)@.users,
        final(store)@.transactions == old(store)@.transactions,
        !contains_token(old(store)@.sessions, token@) ==> final(store)@.sessions == old(store)@.sessions,
        contains_token(old(store)@.sessions, token@) ==> final(store)@.sessions == old(
            store,
        )@.sessions.remove(token_index(old(store)@.sessions, token@)),
{
    let idx = match store.find_session(token) {
        Some(i) => i,
        None => {
            return ;
        },
    };
    proof {
        let sessions = store@.sessions;
        let i = token_index(sessions, token@);
        assert(sessions[idx as int].token == sessions[i].token);
        assert(sessions[idx as int] == sessions[i]);
    }
    let ghost old_sessions = store@.sessions;
    store.sessions.remove(idx);
    proof {
        let i = token_index(old_sessions, token@);
        assert(store@.sessions =~= old_sessions.remove(i));
        assert(store@.users =~= old(store)@.users);
        assert(store@.transactions =~= old(store)@.transactions);
        assert forall|a: int, b: int| 0 <= a < b < store@.sessions.len() implies store@.sessions[a].token
            != store@.sessions[b].token by {
        }
    }
}

/// The display name of the user called `username` (already folded or not:
/// the store only ever holds folded names).
pub fn get_displayname_from_username(store: &Store, username: &String) -> (r: Result<String, Error>)
    requires
        store.wf(),
    ensures
        match r {
            Ok(name) => contains_username(store@.users, username@) && name@ == store@.users[
                username_index(store@.users, username@)
            ].display_name,
            Err(e) => e == Error::NotFound && !contains_username(store@.users, username@),
        },
{
    match store.find_user(username) {
        Some(i) => {
            proof {
                let users = store@.users;
                let j = username_index(users, username@);
                assert(users[i as int].username == users[j].username);
                assert(users[i as int] == users[j]);
            }
            Ok(store.users[i].display_name.clone())
        },
        None => Err(Error::NotFound),
    }
}

/// The display name behind a live session token, joined through the
/// session's owner.  A token is valid iff it expires after `now`, so an
/// expired token names nobody; the expiry is read, not slid.  `None` when
/// the token is unknown or expired or its owner is gone.
pub fn get_displayname_from_valid_auth_token(store: &Store, token: &String, now: i64) -> (r:
    Option<String>)
    requires
        store.wf(),
    ensures
        ({
            let sessions = store@.sessions;
            let users = store@.users;
            match r {
                None => !contains_token(sessions, token@) || sessions[token_index(
                    sessions,
                    token@,
                )].expires_at <= now || !contains_username(
                    users,
                    sessions[token_index(sessions, token@)].username,
                ),
                Some(name) => {
                    let owner = sessions[token_index(sessions, token@)].username;
                    &&& contains_token(sessions, token@)
                    &&& sessions[token_index(sessions, token@)].expires_at > now
                    &&& contains_username(users, owner)
                    &&& name@ == users[username_index(users, owner)].display_name
                },
            }
        }),
{
    let idx = match store.find_session(token) {
        Some(i) => i,
        None => {
            return None;
        },
    };
    proof {
        let sessions = store@.sessions;
        let i = token_index(sessions, token@);
        assert(sessions[idx as int].token == sessions[i].token);
        assert(sessions[idx as int] == sessions[i]);
    }
    if store.sessions[idx].expires_at <= now {
        return None;
    }
    let owner = store.sessions[idx].username.clone();
    match get_displayname_from_username(store, &owner) {
        Ok(name) => Some(name),
        Err(_) => None,
    }
}

/// Registering a name twice conflicts, in any capitalization: once a
/// register of `u1` has succeeded, the users hold `u1`'s folded form, so by
/// `register`'s contract a later register of any `u2` that folds to the same
/// name — `"bob"` after `"Bob"` — can only return `Conflict`.
pub proof fn lemma_register_twice_conflicts(
    pre: Seq<UserView>,
    post: Seq<UserView>,
    rec: UserView,
    u1: Seq<char>,
    u2: Seq<char>,
)
    requires
        !has_colon(u1),
        !contains_username(pre, lower(u1)),
        rec.username == lower(u1),
        post == pre.push(rec),
        lower(u2) == lower(u1),
    ensures
        contains_username(post, lower(u2)),
{
    assert(post[post.len() - 1].username == lower(u2));
}

/// Success is owed to an honest login: for a user whose stored secret the
/// engine accepts (as every secret `register` hands out is), the code of
/// `now`'s own step satisfies `login`'s acceptance condition at `now`, so by
/// `login`'s contract the only failure left is the negligible random-token
/// collision.
pub proof fn lemma_current_code_accepted(users: Seq<UserView>, uname: Seq<char>, now: u64)
    requires
        contains_username(users, uname),
        valid_totp_secret(users[username_index(users, uname)].otp_secret),
        !has_colon(uname),
    ensures
        code_accepted(
            users,
            uname,
            totp_code_of(users[username_index(users, uname)].otp_secret, now as int / 30),
            now,
        ),
{
    let secret = users[username_index(users, uname)].otp_secret;
    let k = now as int / 30;
    assert(now as int / 30 - 1 <= k <= now as int / 30 + 1 && totp_code_of(secret, k)
        == totp_code_of(secret, k));
}

/// A token authenticated within its lifetime is accepted, and its expiry
/// slides strictly forward: a session issued at `issued_at` still satisfies
/// `authenticate`'s acceptance condition at any later `now` before it
/// expires, and the expiry `authenticate` then writes, `now` plus the full
/// lifetime, lies strictly beyond the one it replaces.
pub proof fn lemma_fresh_token_extends(
    sessions: Seq<SessionView>,
    token: Seq<char>,
    issued_at: int,
    now: int,
)
    requires
        contains_token(sessions, token),
        sessions[token_index(sessions, token)].expires_at == issued_at
            + AUTH_TOKEN_LIFETIME_SECS,
        issued_at < now < issued_at + AUTH_TOKEN_LIFETIME_SECS,
    ensures
        sessions[token_index(sessions, token)].expires_at > now,
        now + AUTH_TOKEN_LIFETIME_SECS > sessions[token_index(sessions, token)].expires_at,
{
}

/// Resolve the authenticated subject of a request: HTML clients present the
/// token in the named cookie, JSON clients in the fixed custom header, and
/// there is no fallback between the two.  Whichever carrier applies, an
/// absent, unknown or expired token quietly means "anonymous".
pub fn authenticate_request(
    store: &mut Store,
    req_type: RequestTypeEnum,
    cookie_token: Option<&String>,
    header_token: Option<&String>,
    now: i64,
) -> (r: Option<(String, String)>)
    requires
        old(store).wf(),
        0 <= now <= i64::MAX - AUTH_TOKEN_LIFETIME_SECS,
    ensures
        final(store).wf(),
        final(store)@.users == old(store)@.users,
        final(store)@.transactions == old(store)@.transactions,
        ({
            let credential = match req_type {
                RequestTypeEnum::Html => cookie_token,
                RequestTypeEnum::Json => header_token,
            };
            let sessions = old(store)@.sessions;
            match credential {
                None => r is None && final(store)@.sessions == sessions,
                Some(token) => match r {
                    None => {
                        &&& (!contains_token(sessions, token@) || sessions[token_index(
                            sessions,
                            token@,
                        )].expires_at <= now)
                        &&& final(store)@.sessions == sessions
                    },
                    Some((u, t)) => {
                        let i = token_index(sessions, token@);
                        &&& contains_token(sessions, token@)
                        &&& sessions[i].expires_at > now
                        &&& u@ == sessions[i].username
                        &&& t@ == token@
                        &&& final(store)@.sessions == sessions.update(
                            i,
                            (SessionView {
                                token: token@,
                                username: u@,
                                expires_at: now + AUTH_TOKEN_LIFETIME_SECS,
                            }),
                        )
                    },
                },
            }
        }),
{
    let credential = crate::negotiate::credential_of_request(req_type, cookie_token, header_token);
    match credential {
        Some(token) => authenticate(store, token, now),
        None => None,
    }
}

/// Close a session: an anonymous caller has nothing to log out of and is
/// refused; an authenticated one has their token forgotten.  The subject is
/// the pair `authenticate_request` produced.
pub fn handle_logout(store: &mut Store, subject: Option<(String, String)>) -> (r: Result<
    (),
    Error,
>)
    requires
        old(store).wf(),
    ensures
        final(store).wf(),
        final(store)@.users == old(store)@.users,
        final(store)@.transactions == old(store)@.transactions,
        match r {
            Err(e) => e == Error::Unauthorized && subject is None && final(store)@.sessions == old(
                store,
            )@.sessions,
            Ok(_) => {
                &&& subject matches Some(s)
                &&& {
                    let token = s.1@;
                    let sessions = old(store)@.sessions;
                    if contains_token(sessions, token) {
                        final(store)@.sessions == sessions.remove(token_index(sessions, token))
                    } else {
                        final(store)@.sessions == sessions
                    }
                }
            },
        },
{
    match subject {
        None => Err(Error::Unauthorized),
        Some((_, token)) => {
            logout(store, &token);
            Ok(())
        },
    }
}

/// Serve a display-name lookup by token: an HTML-negotiated request is
/// refused outright (this endpoint speaks JSON only); otherwise the token is
/// joined to its owner's display name, and an unknown or expired token or a
/// gone owner is `NotFound`.
pub fn get_displayname(
    store: &Store,
    req_type: RequestTypeEnum,
    request_token: &String,
    now: i64,
) -> (r: Result<String, Error>)
    requires
        store.wf(),
    ensures
        ({
            let sessions = store@.sessions;
            let users = store@.users;
            match r {
                Err(Error::UnsupportedMediaType) => req_type == RequestTypeEnum::Html,
                Err(Error::NotFound) => {
                    &&& req_type == RequestTypeEnum::Json
                    &&& (!contains_token(sessions, request_token@) || sessions[token_index(
                        sessions,
                        request_token@,
                    )].expires_at <= now || !contains_username(
                        users,
                        sessions[token_index(sessions, request_token@)].username,
                    ))
                },
                Err(_) => false,
                Ok(name) => {
                    let owner = sessions[token_index(sessions, request_token@)].username;
                    &&& req_type == RequestTypeEnum::Json
                    &&& contains_token(sessions, request_token@)
                    &&& sessions[token_index(sessions, request_token@)].expires_at > now
                    &&& contains_username(users, owner)
                    &&& name@ == users[username_index(users, owner)].display_name
                },
            }
        }),
{
    match req_type {
        RequestTypeEnum::Html => Err(Error::UnsupportedMediaType),
        RequestTypeEnum::Json => match get_displayname_from_valid_auth_token(
            store,
            request_token,
            now,
        ) {
            Some(name) => Ok(name),
            None => Err(Error::NotFound),
        },
    }
}

} // verus!
