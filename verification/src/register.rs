//! Account registration: hash the password with a salted one-way digest, then
//! insert the record if no existing account holds the same username, email or
//! phone number.

use vstd::prelude::*;

use crate::api_messages::ApiError;
use crate::store::has_user_email;
use crate::store::has_user_named;
use crate::store::has_user_phone;
use crate::store::register_apply;
use crate::store::store_wf;
use crate::store::users_full;
use crate::store::Store;
use crate::store::StoreModel;
use crate::user::User;

verus! {

/// What the password-hashing scheme accepts: whether `pass` is the password
/// that the self-describing digest `digest` was computed from. The digest
/// embeds algorithm, salt and cost parameters, so this is a function of the
/// two strings alone.
pub uninterp spec fn digest_matches(pass: Seq<char>, digest: Seq<char>) -> bool;

/// Passwords of at most this many characters are owed a digest: the hashing
/// scheme refuses only a password beyond its byte-length bound of one below
/// two to the thirty-second, and a character is at most four bytes.
pub const MAX_PASSWORD_CHARS: usize = 0x3fffffff;

/// Relies on `argon2::Argon2::hash_password` (through the `PasswordHasher`
/// trait of `password_hash`), with a salt drawn from
/// `password_hash::SaltString::generate` over `rand::thread_rng`. The digest
/// it returns embeds the algorithm, the salt and the cost parameters, and
/// verifying the same password against it recomputes the same output, so the
/// digest matches the password it was made from. With the generated salt
/// (sixteen bytes, valid by construction) and the default parameters, the
/// only input the scheme refuses is a password beyond its byte-length bound,
/// so every password within [`MAX_PASSWORD_CHARS`] is owed a digest. The salt
/// is random: nothing else is promised of the digest's value.
#[verifier::external_body]
pub(crate) fn hash_password(pass: &str) -> (r: Option<String>)
    ensures
        r matches Some(d) ==> digest_matches(pass@, d@),
        pass@.len() <= MAX_PASSWORD_CHARS ==> r is Some,
{
    let salt = password_hash::SaltString::generate(&mut rand::thread_rng());
    let argon = argon2::Argon2::default();
    match password_hash::PasswordHasher::hash_password(&argon, pass.as_bytes(), &salt) {
        Ok(h) => Some(h.to_string()),
        Err(_) => None,
    }
}

/// Relies on `password_hash::PasswordHash::new` and
/// `argon2::Argon2::verify_password` (through the `PasswordVerifier` trait):
/// the check recomputes the digest from the parameters and salt embedded in
/// `digest` and compares the outputs, a deterministic function of the two
/// strings; `digest_matches` names its result. A string that does not parse
/// as a digest matches no password.
#[verifier::external_body]
pub(crate) fn verify_password(pass: &str, digest: &str) -> (r: bool)
    ensures
        r == digest_matches(pass@, digest@),
{
    let argon = argon2::Argon2::default();
    match password_hash::PasswordHash::new(digest) {
        Ok(h) => password_hash::PasswordVerifier::verify_password(&argon, pass.as_bytes(), &h)
            .is_ok(),
        Err(_) => false,
    }
}

/// User information form when registering through the API.
pub struct RegisterInformation {
    pub email: String,
    pub phone_number: String,
    pub username: String,
    pub password: String,
}

/// Response when registering through the API.
pub struct RegisterResponse {
    pub message: &'static str,
}

/// An account with one of these identity fields already exists, so the
/// registration must be refused.
pub open spec fn register_conflict(
    m: StoreModel,
    email: Seq<char>,
    phone: Seq<char>,
    name: Seq<char>,
) -> bool {
    has_user_named(m, name) || has_user_email(m, email) || has_user_phone(m, phone)
}

/// Create the account, if its username, email and phone number are all free.
///
/// The new record starts with no session, an activity clock at zero and the
/// unverified flag set; its password field holds only the salted digest. On
/// any failure the store is untouched. Success is owed whenever the input does
/// not clash, the store can still grow, and the password is within the
/// hashing scheme's length bound; only a password beyond that bound can fail
/// the hashing step, which surfaces as the generic server error.
pub fn register_request(store: &mut Store, info: &RegisterInformation) -> (r: Result<
    RegisterResponse,
    ApiError,
>)
    requires
        store_wf(old(store)@),
    ensures
        store_wf(final(store)@),
        r is Err ==> final(store)@ == old(store)@,
        register_conflict(old(store)@, info.email@, info.phone_number@, info.username@) <==> r
            == Err::<RegisterResponse, ApiError>(ApiError::Conflict),
        !register_conflict(old(store)@, info.email@, info.phone_number@, info.username@)
            && users_full(old(store)@) ==> r == Err::<RegisterResponse, ApiError>(
            ApiError::StoreError,
        ),
        !register_conflict(old(store)@, info.email@, info.phone_number@, info.username@)
            && !users_full(old(store)@) ==> (r is Ok || r == Err::<RegisterResponse, ApiError>(
            ApiError::ServerError,
        )),
        !register_conflict(old(store)@, info.email@, info.phone_number@, info.username@)
            && !users_full(old(store)@) && info.password@.len() <= MAX_PASSWORD_CHARS ==> r is Ok,
        r matches Ok(resp) ==> {
            &&& resp.message@ == "Registration successful. Please verify your account via email."@
            &&& exists|digest: Seq<char>|
                {
                    &&& #[trigger] digest_matches(info.password@, digest)
                    &&& final(store)@ == register_apply(
                        old(store)@,
                        info.email@,
                        info.phone_number@,
                        info.username@,
                        digest,
                    )
                }
        },
{
    let name_taken = match store.find_by_username(&info.username) {
        Some(i) => {
            proof {
                assert(has_user_named(store@, info.username@));
            }
            true
        },
        None => false,
    };
    let email_taken = match store.find_by_email(&info.email) {
        Some(i) => {
            proof {
                assert(has_user_email(store@, info.email@));
            }
            true
        },
        None => false,
    };
    let phone_taken = match store.find_by_phone(&info.phone_number) {
        Some(i) => {
            proof {
                assert(has_user_phone(store@, info.phone_number@));
            }
            true
        },
        None => false,
    };
    if name_taken || email_taken || phone_taken {
        return Err(ApiError::Conflict);
    }
    if store.next_user_id == i32::MAX {
        return Err(ApiError::StoreError);
    }
    let digest = match hash_password(info.password.as_str()) {
        Some(d) => d,
        None => {
            return Err(ApiError::ServerError);
        },
    };
    let ghost m = store@;
    let ghost digest_view = digest@;
    let user = User {
        user_id: store.next_user_id,
        user_email: info.email.clone(),
        user_phone: info.phone_number.clone(),
        user_name: info.username.clone(),
        user_pass: digest,
        user_last_login: 0,
        login_id: None,
        verified: false,
        admin: false,
    };
    store.users.push(user);
    store.next_user_id = store.next_user_id + 1;
    proof {
        assert(store@.users =~= register_apply(
            m,
            info.email@,
            info.phone_number@,
            info.username@,
            digest_view,
        ).users);
        assert(store@ =~= register_apply(
            m,
            info.email@,
            info.phone_number@,
            info.username@,
            digest_view,
        ));
        crate::store::lemma_wf_register_apply(
            m,
            info.email@,
            info.phone_number@,
            info.username@,
            digest_view,
        );
    }
    Ok(RegisterResponse { message: "Registration successful. Please verify your account via email." })
}

/// An identity field registered once cannot be registered again: after an
/// account is created, any attempt that reuses its username, email or phone
/// number is a conflict.
pub proof fn lemma_duplicate_registration(
    m: StoreModel,
    email1: Seq<char>,
    phone1: Seq<char>,
    name1: Seq<char>,
    digest1: Seq<char>,
    email2: Seq<char>,
    phone2: Seq<char>,
    name2: Seq<char>,
)
    requires
        name2 == name1 || email2 == email1 || phone2 == phone1,
    ensures
        register_conflict(
            register_apply(m, email1, phone1, name1, digest1),
            email2,
            phone2,
            name2,
        ),
{
    let m2 = register_apply(m, email1, phone1, name1, digest1);
    let n = m.users.len() as int;
    assert(m2.users[n].user_name == name1);
    assert(m2.users[n].user_email == email1);
    assert(m2.users[n].user_phone == phone1);
    if name2 == name1 {
        assert(has_user_named(m2, name2));
    } else if email2 == email1 {
        assert(has_user_email(m2, email2));
    } else {
        assert(has_user_phone(m2, phone2));
    }
}

} // verus!
