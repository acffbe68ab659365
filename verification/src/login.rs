//! Password login and the session gate.
//!
//! A successful login mints an opaque random token, stores it on the user
//! record with a fresh activity time, and hands it back as a strict, http-only
//! cookie. Every protected request then goes through [`validate_session`]: it
//! takes the request's credential and the store as explicit arguments, resolves
//! the token, enforces the sliding expiration window, re-arms the window on
//! success, and fails closed on everything else.

use vstd::prelude::*;

use crate::api_messages::ApiError;
use crate::register::digest_matches;
use crate::register::verify_password;
use crate::store::expire_apply;
use crate::store::has_token;
use crate::store::has_user_named;
use crate::store::login_apply;
use crate::store::refresh_apply;
use crate::store::refreshed;
use crate::store::store_wf;
use crate::store::token_idx;
use crate::store::user_named_idx;
use crate::store::Store;
use crate::store::StoreModel;
use crate::user::User;
use crate::user::UserModel;

verus! {

/// How long a session may sit idle before it expires; each authenticated
/// action restarts this window.
pub const SESSION_DURATION_MINUTES: i64 = 30;

/// The same window in seconds: the cookie's max age.
pub const COOKIE_MAX_AGE_SECONDS: i64 = SESSION_DURATION_MINUTES * 60;

/// What `uuid::Uuid::parse_str` accepts: the 128-bit token a string in the
/// textual UUID forms denotes, or nothing. A function of the string alone.
pub uninterp spec fn parsed_token(s: Seq<char>) -> Option<u128>;

/// Relies on `uuid::Uuid::new_v4`: a freshly drawn random 128-bit version-4
/// identifier. The value is random; nothing is promised of it.
#[verifier::external_body]
pub(crate) fn mint_token() -> u128 {
    uuid::Uuid::new_v4().as_u128()
}

/// Relies on `uuid::Uuid::parse_str`: a deterministic parse of the textual
/// UUID forms; `parsed_token` names its result.
#[verifier::external_body]
pub(crate) fn parse_token(s: &str) -> (r: Option<u128>)
    ensures
        r == parsed_token(s@),
{
    match uuid::Uuid::parse_str(s) {
        Ok(u) => Some(u.as_u128()),
        Err(_) => None,
    }
}

/// Relies on `uuid::Uuid::from_u128` and the `Display` form of `uuid::Uuid`:
/// the hyphenated text it writes is among the forms `Uuid::parse_str` accepts,
/// and parses back to the same identifier.
#[verifier::external_body]
pub(crate) fn token_cookie_value(t: u128) -> (r: String)
    ensures
        parsed_token(r@) == Some(t),
{
    uuid::Uuid::from_u128(t).to_string()
}

/// Relies on `chrono::Utc::now`: the wall clock's reading, in whole seconds
/// since the epoch. Nothing is promised of its value.
#[verifier::external_body]
pub(crate) fn current_time() -> i64 {
    chrono::Utc::now().timestamp()
}

/// User information form expected when logging in through the API.
pub struct LoginInformation {
    pub username: String,
    pub password: String,
}

/// Message payload sent when logging in through the API. The field is a
/// `&'static str` so no dynamic data can leak through it.
pub struct LoginResponse {
    pub message: &'static str,
}

/// The client-held credential a successful login answers with, together with
/// the attributes the cookie must carry.
pub struct SessionCookie {
    /// The cookie's name.
    pub name: &'static str,
    /// The token in its textual UUID form: the cookie's value.
    pub value: String,
    /// The same token as its 128-bit value.
    pub token: u128,
    pub max_age_seconds: i64,
    pub path: &'static str,
    pub http_only: bool,
    pub same_site_strict: bool,
}

/// The credential check behind login: the username resolves to a record and
/// the password matches that record's digest.
pub open spec fn cred_ok(m: StoreModel, name: Seq<char>, pass: Seq<char>) -> bool {
    has_user_named(m, name) && digest_matches(pass, m.users[user_named_idx(m, name)].user_pass)
}

/// Everything a login does, on the model: the store it leaves behind and the
/// result. A failed credential check ends in the one invalid-credentials
/// failure, identical for an unknown username and for a wrong password; a
/// token already in use is refused so tokens stay unique.
pub open spec fn login_outcome(
    m: StoreModel,
    name: Seq<char>,
    pass: Seq<char>,
    t: u128,
    now: int,
) -> (StoreModel, Result<u128, ApiError>) {
    if !cred_ok(m, name, pass) {
        (m, Err(ApiError::InvalidCredentials))
    } else if has_token(m, t) {
        (m, Err(ApiError::StoreError))
    } else {
        (login_apply(m, user_named_idx(m, name), t, now), Ok(t))
    }
}

/// The session has sat idle longer than the window allows.
pub open spec fn session_expired_at(u: UserModel, now: int) -> bool {
    now - u.user_last_login > COOKIE_MAX_AGE_SECONDS as int
}

/// Where a presented credential stands, at one point in time.
pub enum SessionCheck {
    /// No cookie came with the request.
    NoCredential,
    /// The cookie's value is not in the token format.
    Malformed,
    /// The token resolves to no user: forged, or already cleared.
    Unknown,
    /// The token resolves to the user at this index, but the window has run out.
    Expired(int),
    /// The token resolves to the user at this index, within the window.
    Valid(int),
}

/// Where a parsed token stands against the store.
pub open spec fn token_state(m: StoreModel, t: u128, now: int) -> SessionCheck {
    if !has_token(m, t) {
        SessionCheck::Unknown
    } else if session_expired_at(m.users[token_idx(m, t)], now) {
        SessionCheck::Expired(token_idx(m, t))
    } else {
        SessionCheck::Valid(token_idx(m, t))
    }
}

pub open spec fn cookie_view(c: Option<&str>) -> Option<Seq<char>> {
    match c {
        Some(s) => Some(s@),
        None => None,
    }
}

/// Where a request's credential stands: extraction, format, resolution and
/// expiry, in that order.
pub open spec fn session_state(m: StoreModel, cookie: Option<Seq<char>>, now: int) -> SessionCheck {
    match cookie {
        None => SessionCheck::NoCredential,
        Some(cs) => match parsed_token(cs) {
            None => SessionCheck::Malformed,
            Some(t) => token_state(m, t, now),
        },
    }
}

/// Everything the session gate does, on the model: the store it leaves behind
/// and the result. An expired session is cleared; a valid one is re-armed.
pub open spec fn validate_outcome(m: StoreModel, cookie: Option<Seq<char>>, now: int) -> (
    StoreModel,
    Result<UserModel, ApiError>,
) {
    match session_state(m, cookie, now) {
        SessionCheck::NoCredential => (m, Err(ApiError::Unauthenticated)),
        SessionCheck::Malformed => (m, Err(ApiError::InvalidCredentialFormat)),
        SessionCheck::Unknown => (m, Err(ApiError::StoreError)),
        SessionCheck::Expired(i) => (expire_apply(m, i), Err(ApiError::SessionExpired)),
        SessionCheck::Valid(i) => (refresh_apply(m, i, now), Ok(refreshed(m.users[i], now))),
    }
}

pub open spec fn result_model(r: Result<User, ApiError>) -> Result<UserModel, ApiError> {
    match r {
        Ok(u) => Ok(u@),
        Err(e) => Err(e),
    }
}

/// Log a user in at a given time with a given fresh token: check the
/// credentials, then persist token and activity time in one step.
pub fn login_at(store: &mut Store, info: &LoginInformation, token: u128, now: i64) -> (r: Result<
    u128,
    ApiError,
>)
    requires
        store_wf(old(store)@),
    ensures
        store_wf(final(store)@),
        final(store)@ == login_outcome(
            old(store)@,
            info.username@,
            info.password@,
            token,
            now as int,
        ).0,
        r == login_outcome(old(store)@, info.username@, info.password@, token, now as int).1,
{
    let ghost m0 = store@;
    let idx = match store.find_by_username(&info.username) {
        Some(i) => i,
        None => {
            return Err(ApiError::InvalidCredentials);
        },
    };
    proof {
        crate::store::lemma_user_named_idx(m0, info.username@, idx as int);
    }
    let ok = verify_password(info.password.as_str(), store.users[idx].user_pass.as_str());
    if !ok {
        return Err(ApiError::InvalidCredentials);
    }
    match store.find_by_token(token) {
        Some(j) => {
            proof {
                assert(m0.users[j as int].login_id == Some(token));
                assert(has_token(m0, token));
            }
            return Err(ApiError::StoreError);
        },
        None => {},
    }
    let mut u = store.users[idx].clone();
    u.login_id = Some(token);
    u.user_last_login = now;
    store.users[idx] = u;
    proof {
        assert(store@.users =~= login_apply(m0, idx as int, token, now as int).users);
        assert(store@ =~= login_apply(m0, idx as int, token, now as int));
        crate::store::lemma_wf_login_apply(m0, idx as int, token, now as int);
    }
    Ok(token)
}

/// The login endpoint's core: mint a fresh random token, read the clock, and
/// log the user in. On success the cookie carries the token in its textual
/// form, scoped to the whole site, http-only, same-site strict, with the
/// sliding window as its max age. The database-error outcome can only arise
/// when the drawn token collides with one some user already holds, so on a
/// store with no open session a correct login always succeeds.
pub fn login_request(store: &mut Store, info: &LoginInformation) -> (r: Result<
    (LoginResponse, SessionCookie),
    ApiError,
>)
    requires
        store_wf(old(store)@),
    ensures
        store_wf(final(store)@),
        r is Err ==> final(store)@ == old(store)@,
        !cred_ok(old(store)@, info.username@, info.password@) <==> r == Err::<
            (LoginResponse, SessionCookie),
            ApiError,
        >(ApiError::InvalidCredentials),
        cred_ok(old(store)@, info.username@, info.password@) ==> (r is Ok || r == Err::<
            (LoginResponse, SessionCookie),
            ApiError,
        >(ApiError::StoreError)),
        r == Err::<(LoginResponse, SessionCookie), ApiError>(ApiError::StoreError)
            ==> exists|t: u128| has_token(old(store)@, t),
        r matches Ok(g) ==> {
            &&& g.0.message@ == "Login successful."@
            &&& g.1.name@ == "login_id"@
            &&& g.1.path@ == "/"@
            &&& g.1.http_only
            &&& g.1.same_site_strict
            &&& g.1.max_age_seconds == COOKIE_MAX_AGE_SECONDS
            &&& parsed_token(g.1.value@) == Some(g.1.token)
            &&& !has_token(old(store)@, g.1.token)
            &&& exists|then: int|
                final(store)@ == #[trigger] login_apply(
                    old(store)@,
                    user_named_idx(old(store)@, info.username@),
                    g.1.token,
                    then,
                )
        },
{
    let ghost m0 = store@;
    let token = mint_token();
    let now = current_time();
    match login_at(store, info, token, now) {
        Ok(t) => {
            let value = token_cookie_value(t);
            Ok(
                (
                    LoginResponse { message: "Login successful." },
                    SessionCookie {
                        name: "login_id",
                        value,
                        token: t,
                        max_age_seconds: COOKIE_MAX_AGE_SECONDS,
                        path: "/",
                        http_only: true,
                        same_site_strict: true,
                    },
                ),
            )
        },
        Err(e) => {
            proof {
                if e == ApiError::StoreError {
                    // the only store-error path is a collision with a token
                    // some user already holds
                    assert(has_token(m0, token));
                }
            }
            Err(e)
        },
    }
}

/// The single gate in front of every protected operation.
///
/// Extract the credential, check its format before any store access, resolve
/// it, enforce the sliding window, and re-arm the window on success. An
/// expired session's token is cleared; the rest of the record survives. Every
/// failure is terminal and maps to one sanitized error.
pub fn validate_session(store: &mut Store, cookie: Option<&str>, now: i64) -> (r: Result<
    User,
    ApiError,
>)
    requires
        store_wf(old(store)@),
    ensures
        store_wf(final(store)@),
        final(store)@ == validate_outcome(old(store)@, cookie_view(cookie), now as int).0,
        result_model(r) == validate_outcome(old(store)@, cookie_view(cookie), now as int).1,
{
    let ghost m0 = store@;
    let cookie_str = match cookie {
        Some(s) => s,
        None => {
            return Err(ApiError::Unauthenticated);
        },
    };
    let token = match parse_token(cookie_str) {
        Some(t) => t,
        None => {
            return Err(ApiError::InvalidCredentialFormat);
        },
    };
    let idx = match store.find_by_token(token) {
        Some(i) => i,
        None => {
            return Err(ApiError::StoreError);
        },
    };
    proof {
        crate::store::lemma_token_idx(m0, token, idx as int);
    }
    let last = store.users[idx].user_last_login;
    if (now as i128) - (last as i128) > (COOKIE_MAX_AGE_SECONDS as i128) {
        let mut u = store.users[idx].clone();
        u.login_id = None;
        store.users[idx] = u;
        proof {
            assert(store@.users =~= expire_apply(m0, idx as int).users);
            assert(store@ =~= expire_apply(m0, idx as int));
            crate::store::lemma_wf_expire_apply(m0, idx as int);
        }
        return Err(ApiError::SessionExpired);
    }
    let mut u = store.users[idx].clone();
    u.user_last_login = now;
    let ret = u.clone();
    store.users[idx] = u;
    proof {
        assert(store@.users =~= refresh_apply(m0, idx as int, now as int).users);
        assert(store@ =~= refresh_apply(m0, idx as int, now as int));
        crate::store::lemma_wf_refresh_apply(m0, idx as int, now as int);
        assert(ret@ =~= refreshed(m0.users[idx as int], now as int));
    }
    Ok(ret)
}

/// A failed credential check ends in one fixed outcome: the store untouched
/// and the one invalid-credentials failure, identical for an unknown username
/// and for a wrong password, whatever the store, the token or the clock, so
/// the response cannot reveal which usernames exist.
pub proof fn lemma_login_enumeration_resistance(
    m1: StoreModel,
    name1: Seq<char>,
    pass1: Seq<char>,
    t1: u128,
    now1: int,
    m2: StoreModel,
    name2: Seq<char>,
    pass2: Seq<char>,
    t2: u128,
    now2: int,
)
    requires
        !cred_ok(m1, name1, pass1),
        !cred_ok(m2, name2, pass2),
    ensures
        login_outcome(m1, name1, pass1, t1, now1).0 == m1,
        login_outcome(m2, name2, pass2, t2, now2).0 == m2,
        login_outcome(m1, name1, pass1, t1, now1).1 == login_outcome(
            m2,
            name2,
            pass2,
            t2,
            now2,
        ).1,
        login_outcome(m1, name1, pass1, t1, now1).1 == Err::<u128, ApiError>(
            ApiError::InvalidCredentials,
        ),
{
}

/// Login with the correct password of a stored account and a fresh token
/// yields that token, and the session it opens is immediately valid for
/// authenticated reads.
pub proof fn lemma_login_correct_password(
    m: StoreModel,
    name: Seq<char>,
    pass: Seq<char>,
    t: u128,
    now: int,
)
    requires
        store_wf(m),
        cred_ok(m, name, pass),
        !has_token(m, t),
    ensures
        ({
            let (m2, r) = login_outcome(m, name, pass, t, now);
            &&& r == Ok::<u128, ApiError>(t)
            &&& store_wf(m2)
            &&& token_state(m2, t, now) == SessionCheck::Valid(user_named_idx(m, name))
        }),
{
    assert(has_user_named(m, name));
    let i = user_named_idx(m, name);
    assert(0 <= i < m.users.len());
    let (m2, r) = login_outcome(m, name, pass, t, now);
    crate::store::lemma_wf_login_apply(m, i, t, now);
    assert(m2.users[i].login_id == Some(t));
    crate::store::lemma_token_idx(m2, t, i);
    assert(!session_expired_at(m2.users[i], now));
}

/// The sliding window: after an authenticated action at `now`, the session
/// stays valid exactly while the gap since `now` is within the window; once
/// the gap exceeds it the session is expired, and after the expiry clears the
/// token, the token resolves to no user at all.
pub proof fn lemma_sliding_window(m: StoreModel, t: u128, now: int, later: int)
    requires
        store_wf(m),
        token_state(m, t, now) is Valid,
    ensures
        ({
            let i = token_idx(m, t);
            let m2 = refresh_apply(m, i, now);
            &&& store_wf(m2)
            &&& later - now <= COOKIE_MAX_AGE_SECONDS as int ==> token_state(m2, t, later)
                == SessionCheck::Valid(i)
            &&& later - now > COOKIE_MAX_AGE_SECONDS as int ==> token_state(m2, t, later)
                == SessionCheck::Expired(i)
            &&& !has_token(expire_apply(m2, i), t)
        }),
{
    assert(has_token(m, t));
    let i = token_idx(m, t);
    assert(0 <= i < m.users.len());
    let m2 = refresh_apply(m, i, now);
    crate::store::lemma_wf_refresh_apply(m, i, now);
    assert(m2.users[i].login_id == Some(t));
    crate::store::lemma_token_idx(m2, t, i);
    let m3 = expire_apply(m2, i);
    assert forall|j: int| 0 <= j < m3.users.len() implies m3.users[j].login_id != Some(t) by {
        if j != i {
            assert(m3.users[j] == m2.users[j]);
            assert(m2.users[i].login_id is Some);
        }
    }
    assert(!has_token(m3, t));
}

/// Two authenticated requests racing on one valid session cannot hurt each
/// other: whichever request's window re-arm lands first, the other still
/// passes the expiry check, and applying both re-arms in either order leaves
/// the store as the later one alone would.
pub proof fn lemma_refresh_race_benign(m: StoreModel, t: u128, t1: int, t2: int)
    requires
        store_wf(m),
        token_state(m, t, t1) is Valid,
        token_state(m, t, t2) is Valid,
        m.users[token_idx(m, t)].user_last_login <= t1 <= t2,
    ensures
        ({
            let i = token_idx(m, t);
            &&& token_state(refresh_apply(m, i, t1), t, t2) is Valid
            &&& token_state(refresh_apply(m, i, t2), t, t1) is Valid
            &&& refresh_apply(refresh_apply(m, i, t1), i, t2) == refresh_apply(m, i, t2)
        }),
{
    assert(has_token(m, t));
    let i = token_idx(m, t);
    assert(0 <= i < m.users.len());
    let ma = refresh_apply(m, i, t1);
    crate::store::lemma_wf_refresh_apply(m, i, t1);
    assert(ma.users[i].login_id == Some(t));
    crate::store::lemma_token_idx(ma, t, i);
    let mb = refresh_apply(m, i, t2);
    crate::store::lemma_wf_refresh_apply(m, i, t2);
    assert(mb.users[i].login_id == Some(t));
    crate::store::lemma_token_idx(mb, t, i);
    assert(refresh_apply(ma, i, t2).users =~= mb.users);
    assert(refresh_apply(ma, i, t2) =~= mb);
}

} // verus!
