//! The persisted user record: identity, credential digest and session state,
//! together with its mathematical model and the profile shape that leaves the
//! service. The profile type has no password field at all, so a handler built
//! on it cannot transmit the credential digest.

use vstd::prelude::*;

use crate::api_messages::ApiError;
use crate::login::cookie_view;
use crate::login::cred_ok;
use crate::login::login_outcome;
use crate::login::token_state;
use crate::login::validate_outcome;
use crate::login::validate_session;
use crate::login::SessionCheck;
use crate::register::digest_matches;
use crate::register::register_conflict;
use crate::store::has_token;
use crate::store::has_user_id;
use crate::store::register_apply;
use crate::store::store_wf;
use crate::store::user_id_idx;
use crate::store::user_named_idx;
use crate::store::users_full;
use crate::store::Store;
use crate::store::StoreModel;

verus! {

/// A stored account. `login_id` is the opaque session token, present exactly
/// while the user counts as logged in; `user_last_login` is the last-activity
/// time in seconds and is meaningful only while `login_id` is present.
pub struct User {
    pub user_id: i32,
    pub user_email: String,
    pub user_phone: String,
    pub user_name: String,
    /// Salted one-way digest of the password, never the password itself.
    pub user_pass: String,
    /// Seconds since the epoch of the last authenticated action.
    pub user_last_login: i64,
    /// The session token, as its 128-bit value.
    pub login_id: Option<u128>,
    pub verified: bool,
    pub admin: bool,
}

/// The mathematical value of a [`User`].
#[verifier::ext_equal]
pub struct UserModel {
    pub user_id: int,
    pub user_email: Seq<char>,
    pub user_phone: Seq<char>,
    pub user_name: Seq<char>,
    pub user_pass: Seq<char>,
    pub user_last_login: int,
    pub login_id: Option<u128>,
    pub verified: bool,
    pub admin: bool,
}

impl View for User {
    type V = UserModel;

    open spec fn view(&self) -> UserModel {
        UserModel {
            user_id: self.user_id as int,
            user_email: self.user_email@,
            user_phone: self.user_phone@,
            user_name: self.user_name@,
            user_pass: self.user_pass@,
            user_last_login: self.user_last_login as int,
            login_id: self.login_id,
            verified: self.verified,
            admin: self.admin,
        }
    }
}

impl Clone for User {
    fn clone(&self) -> (r: Self)
        ensures
            r == *self,
    {
        User {
            user_id: self.user_id,
            user_email: self.user_email.clone(),
            user_phone: self.user_phone.clone(),
            user_name: self.user_name.clone(),
            user_pass: self.user_pass.clone(),
            user_last_login: self.user_last_login,
            login_id: self.login_id,
            verified: self.verified,
            admin: self.admin,
        }
    }
}

/// What a user lookup answers with: the identity fields alone. There is no
/// password field and no token field, so neither can be serialized out.
pub struct UserProfile {
    pub user_id: i32,
    pub user_email: String,
    pub user_phone: String,
    pub user_name: String,
    pub user_last_login: i64,
    pub verified: bool,
    pub admin: bool,
}

/// The mathematical value of a [`UserProfile`].
#[verifier::ext_equal]
pub struct UserProfileModel {
    pub user_id: int,
    pub user_email: Seq<char>,
    pub user_phone: Seq<char>,
    pub user_name: Seq<char>,
    pub user_last_login: int,
    pub verified: bool,
    pub admin: bool,
}

impl View for UserProfile {
    type V = UserProfileModel;

    open spec fn view(&self) -> UserProfileModel {
        UserProfileModel {
            user_id: self.user_id as int,
            user_email: self.user_email@,
            user_phone: self.user_phone@,
            user_name: self.user_name@,
            user_last_login: self.user_last_login as int,
            verified: self.verified,
            admin: self.admin,
        }
    }
}

/// The profile a stored user presents: every identity field, and nothing of
/// the credential or the session.
pub open spec fn profile_of(u: UserModel) -> UserProfileModel {
    UserProfileModel {
        user_id: u.user_id,
        user_email: u.user_email,
        user_phone: u.user_phone,
        user_name: u.user_name,
        user_last_login: u.user_last_login,
        verified: u.verified,
        admin: u.admin,
    }
}

impl User {
    /// The profile for this record; the digest and the token stay behind.
    pub fn profile(&self) -> (r: UserProfile)
        ensures
            r@ == profile_of(self@),
    {
        UserProfile {
            user_id: self.user_id,
            user_email: self.user_email.clone(),
            user_phone: self.user_phone.clone(),
            user_name: self.user_name.clone(),
            user_last_login: self.user_last_login,
            verified: self.verified,
            admin: self.admin,
        }
    }
}

pub open spec fn profile_result_model(r: Result<UserProfile, ApiError>) -> Result<
    UserProfileModel,
    ApiError,
> {
    match r {
        Ok(p) => Ok(p@),
        Err(e) => Err(e),
    }
}

/// Look a user up by identifier, behind the session gate. Any authenticated
/// caller may look up any account; what it gets is only the profile — no
/// password digest, no session token.
pub fn user_by_id(store: &mut Store, cookie: Option<&str>, now: i64, id: i32) -> (r: Result<
    UserProfile,
    ApiError,
>)
    requires
        store_wf(old(store)@),
    ensures
        store_wf(final(store)@),
        final(store)@ == validate_outcome(old(store)@, cookie_view(cookie), now as int).0,
        validate_outcome(old(store)@, cookie_view(cookie), now as int).1 matches Err(e) ==> r
            == Err::<UserProfile, ApiError>(e),
        validate_outcome(old(store)@, cookie_view(cookie), now as int).1 is Ok ==> {
            let m2 = validate_outcome(old(store)@, cookie_view(cookie), now as int).0;
            if has_user_id(m2, id as int) {
                profile_result_model(r) == Ok::<UserProfileModel, ApiError>(
                    profile_of(m2.users[user_id_idx(m2, id as int)]),
                )
            } else {
                r == Err::<UserProfile, ApiError>(ApiError::UserNotFound)
            }
        },
{
    match validate_session(store, cookie, now) {
        Ok(_user) => {},
        Err(e) => {
            return Err(e);
        },
    }
    match store.find_by_user_id(id) {
        Some(j) => {
            proof {
                crate::store::lemma_user_id_idx(store@, id as int, j as int);
            }
            Ok(store.users[j].profile())
        },
        None => Err(ApiError::UserNotFound),
    }
}

/// The round trip: register an account, log in with its password at a fresh
/// token, and look the account up. The login succeeds, the new session is
/// immediately valid, and the lookup's profile carries exactly the registered
/// identity fields — and, by its very shape, neither the password digest nor
/// the token.
pub proof fn lemma_register_login_get_round_trip(
    m: StoreModel,
    email: Seq<char>,
    phone: Seq<char>,
    name: Seq<char>,
    pass: Seq<char>,
    digest: Seq<char>,
    t: u128,
    now: int,
)
    requires
        store_wf(m),
        !register_conflict(m, email, phone, name),
        !users_full(m),
        digest_matches(pass, digest),
    ensures
        ({
            let m1 = register_apply(m, email, phone, name, digest);
            let new_id = m.next_user_id;
            &&& store_wf(m1)
            &&& cred_ok(m1, name, pass)
            &&& !has_token(m1, t) ==> ({
                let (m2, r) = login_outcome(m1, name, pass, t, now);
                &&& r == Ok::<u128, ApiError>(t)
                &&& token_state(m2, t, now) == SessionCheck::Valid(user_named_idx(m1, name))
                &&& has_user_id(m2, new_id)
                &&& profile_of(m2.users[user_id_idx(m2, new_id)]) == (UserProfileModel {
                    user_id: new_id,
                    user_email: email,
                    user_phone: phone,
                    user_name: name,
                    user_last_login: now,
                    verified: false,
                    admin: false,
                })
            })
        }),
{
    let m1 = register_apply(m, email, phone, name, digest);
    let new_id = m.next_user_id;
    let n = m.users.len() as int;
    crate::store::lemma_wf_register_apply(m, email, phone, name, digest);
    assert(m1.users[n].user_name == name);
    crate::store::lemma_user_named_idx(m1, name, n);
    assert(cred_ok(m1, name, pass));
    if !has_token(m1, t) {
        crate::login::lemma_login_correct_password(m1, name, pass, t, now);
        let (m2, r) = login_outcome(m1, name, pass, t, now);
        crate::store::lemma_wf_login_apply(m1, n, t, now);
        assert(m2.users[n].user_id == new_id);
        crate::store::lemma_user_id_idx(m2, new_id, n);
        assert(profile_of(m2.users[n]) =~= (UserProfileModel {
            user_id: new_id,
            user_email: email,
            user_phone: phone,
            user_name: name,
            user_last_login: now,
            verified: false,
            admin: false,
        }));
    }
}

} // verus!
