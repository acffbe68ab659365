use cogito_api::api_messages::ApiError;
use cogito_api::conversation::create_conversation;
use cogito_api::conversation::CreateConversationRequest;
use cogito_api::conversation::delete_conversation;
use cogito_api::conversation::get_conversation;
use cogito_api::login::login_at;
use cogito_api::login::login_request;
use cogito_api::login::validate_session;
use cogito_api::login::LoginInformation;
use cogito_api::login::COOKIE_MAX_AGE_SECONDS;
use cogito_api::register::register_request;
use cogito_api::register::RegisterInformation;
use cogito_api::store::Store;
use cogito_api::user::user_by_id;

fn register_info(email: &str, phone: &str, username: &str, password: &str) -> RegisterInformation {
    RegisterInformation {
        email: email.to_string(),
        phone_number: phone.to_string(),
        username: username.to_string(),
        password: password.to_string(),
    }
}

fn login_info(username: &str, password: &str) -> LoginInformation {
    LoginInformation {
        username: username.to_string(),
        password: password.to_string(),
    }
}

fn now() -> i64 {
    chrono::Utc::now().timestamp()
}

/// A store with one registered user, logged in at `start` under token `token`,
/// and the cookie value that carries the token.
fn logged_in_store(username: &str, password: &str, token: u128, start: i64) -> (Store, String) {
    let mut store = Store::new();
    let reg = register_request(
        &mut store,
        &register_info(
            &format!("{}@example.com", username),
            &format!("555-{}", username),
            username,
            password,
        ),
    );
    assert!(reg.is_ok(), "Registration failed");
    let login = login_at(&mut store, &login_info(username, password), token, start);
    assert!(login.is_ok(), "Login failed");
    let cookie = uuid::Uuid::from_u128(token).to_string();
    (store, cookie)
}

#[test]
fn test_register_login_and_access_protected_route() {
    let mut store = Store::new();
    let reg = register_request(
        &mut store,
        &register_info("twin+1@example.com", "555-1234-1", "twin_test_1", "sherm"),
    );
    let reg_resp = reg.ok().expect("Registration failed");
    assert_eq!(reg_resp.message, "Registration successful. Please verify your account via email.");
    let login = login_request(&mut store, &login_info("twin_test_1", "sherm"));
    let (resp, cookie) = login.ok().expect("Login failed");
    assert_eq!(resp.message, "Login successful.");
    let r = user_by_id(&mut store, Some(cookie.value.as_str()), now(), 1);
    let profile = r.ok().expect("Access denied to protected endpoint");
    assert_eq!(profile.user_name, "twin_test_1");
    assert_eq!(profile.user_email, "twin+1@example.com");
}

#[test]
fn test_session_cookie_attributes() {
    let mut store = Store::new();
    register_request(
        &mut store,
        &register_info("cookie@example.com", "555-ck-1", "cookie_user", "pw"),
    )
    .ok()
    .expect("registration should succeed");
    let (_, cookie) = login_request(&mut store, &login_info("cookie_user", "pw"))
        .ok()
        .expect("login should succeed");
    assert_eq!(cookie.name, "login_id");
    assert_eq!(cookie.path, "/");
    assert!(cookie.http_only);
    assert!(cookie.same_site_strict);
    assert_eq!(cookie.max_age_seconds, 30 * 60);
    assert_eq!(uuid::Uuid::parse_str(&cookie.value).ok(), Some(uuid::Uuid::from_u128(cookie.token)));
}

#[test]
fn test_token_valid_immediately_and_window_slides() {
    let start: i64 = 1000;
    let (mut store, cookie) = logged_in_store("slide_user", "pw", 42, start);
    // Valid immediately after issuance.
    let r = validate_session(&mut store, Some(cookie.as_str()), start);
    assert!(r.is_ok());
    // Still valid at the very edge of the window.
    let edge = start + COOKIE_MAX_AGE_SECONDS;
    let r = validate_session(&mut store, Some(cookie.as_str()), edge);
    assert!(r.is_ok());
    // That request re-armed the window: a time that would have been past the
    // first window is still inside the re-armed one.
    let after_rearm = edge + COOKIE_MAX_AGE_SECONDS;
    let r = validate_session(&mut store, Some(cookie.as_str()), after_rearm);
    assert!(r.is_ok());
}

#[test]
fn test_token_expires_after_window() {
    let start: i64 = 1000;
    let (mut store, cookie) = logged_in_store("expire_user", "pw", 43, start);
    let late = start + COOKIE_MAX_AGE_SECONDS + 1;
    let r = validate_session(&mut store, Some(cookie.as_str()), late);
    assert_eq!(r.err(), Some(ApiError::SessionExpired));
    // The expiry cleared the token: the same cookie now resolves to no user.
    let r = validate_session(&mut store, Some(cookie.as_str()), late);
    assert_eq!(r.err(), Some(ApiError::StoreError));
}

#[test]
fn test_refresh_order_immaterial() {
    // Two requests racing on one valid session: whichever re-arm lands first,
    // both requests succeed, and the later re-arm decides the window.
    let start: i64 = 1000;
    let t1 = start + 5;
    let t2 = start + 9;
    let (mut store_a, cookie) = logged_in_store("race_user", "pw", 48, start);
    assert!(validate_session(&mut store_a, Some(cookie.as_str()), t1).is_ok());
    assert!(validate_session(&mut store_a, Some(cookie.as_str()), t2).is_ok());
    let (mut store_b, cookie) = logged_in_store("race_user", "pw", 48, start);
    assert!(validate_session(&mut store_b, Some(cookie.as_str()), t2).is_ok());
    assert!(validate_session(&mut store_b, Some(cookie.as_str()), t1).is_ok());
    // Last write wins: in each order, the re-arm that landed last stands.
    assert_eq!(store_a.users[0].user_last_login, t2);
    assert_eq!(store_b.users[0].user_last_login, t1);
}

#[test]
fn test_conversation_create_get_delete() {
    let start: i64 = 1000;
    let (mut store, cookie) = logged_in_store("conv_user", "pw", 44, start);
    // The boundary would hand `request.initial_message` to the agent and pass
    // its reply in; here the reply stands in directly.
    let request = CreateConversationRequest {
        initial_message: "hello".to_string(),
    };
    assert_eq!(request.initial_message, "hello");
    let r = create_conversation(
        &mut store,
        Some(cookie.as_str()),
        start,
        Some("{\"reply\":\"hello\"}".to_string()),
    );
    let resp = r.ok().expect("creation should succeed");
    assert_eq!(resp.conversation_id, 1);
    let r = get_conversation(&mut store, Some(cookie.as_str()), start, 1);
    let conv = r.ok().expect("owner should read the conversation");
    assert_eq!(conv.conversation_id, 1);
    assert_eq!(conv.user_id, 1);
    assert_eq!(conv.conversation, "{\"reply\":\"hello\"}");
    let r = delete_conversation(&mut store, Some(cookie.as_str()), start, 1);
    let g = r.ok().expect("owner should delete the conversation");
    assert_eq!(g.message, "Conversation deleted successfully.");
    let r = get_conversation(&mut store, Some(cookie.as_str()), start, 1);
    assert_eq!(r.err(), Some(ApiError::ConversationNotFound));
    // A second delete finds nothing and changes nothing.
    let r = delete_conversation(&mut store, Some(cookie.as_str()), start, 1);
    let e = r.err().expect("the row is gone");
    assert_eq!(e.status(), 404);
    assert_eq!(e.message(), "Conversation not found.");
    assert_eq!(store.conversations.len(), 0);
}

#[test]
fn test_conversation_agent_failure() {
    let start: i64 = 1000;
    let (mut store, cookie) = logged_in_store("agent_user", "pw", 45, start);
    let r = create_conversation(&mut store, Some(cookie.as_str()), start, None);
    assert_eq!(r.err(), Some(ApiError::UpstreamError));
}

#[test]
fn test_conversation_requires_session() {
    let mut store = Store::new();
    let r = create_conversation(&mut store, None, 1000, Some("{}".to_string()));
    assert_eq!(r.err(), Some(ApiError::Unauthenticated));
}

#[test]
fn test_other_users_conversation_looks_absent() {
    let start: i64 = 1000;
    let (mut store, owner_cookie) = logged_in_store("owner_user", "pw1", 46, start);
    let r = create_conversation(
        &mut store,
        Some(owner_cookie.as_str()),
        start,
        Some("{\"secret\":1}".to_string()),
    );
    assert_eq!(r.ok().map(|c| c.conversation_id), Some(1));
    // A second account, guessing the resource identifier.
    let reg = register_request(
        &mut store,
        &register_info("intruder@example.com", "555-in-1", "intruder_user", "pw2"),
    );
    assert!(reg.is_ok());
    let login = login_at(&mut store, &login_info("intruder_user", "pw2"), 47, start);
    assert!(login.is_ok());
    let intruder_cookie = uuid::Uuid::from_u128(47).to_string();
    let guessed = get_conversation(&mut store, Some(intruder_cookie.as_str()), start, 1)
        .err()
        .expect("another user's record must be refused");
    let absent = get_conversation(&mut store, Some(intruder_cookie.as_str()), start, 999)
        .err()
        .expect("a nonexistent id must be refused");
    // The guessed identifier is answered byte-identically to an absent one.
    assert_eq!(guessed, absent);
    assert_eq!(guessed.status(), absent.status());
    assert_eq!(guessed.message(), absent.message());
    assert_eq!(guessed.status(), 404);
    let r = delete_conversation(&mut store, Some(intruder_cookie.as_str()), start, 1);
    assert_eq!(r.err(), Some(ApiError::ConversationNotFound));
    // The record is still there for its owner.
    let r = get_conversation(&mut store, Some(owner_cookie.as_str()), start, 1);
    assert!(r.is_ok());
}

#[test]
fn test_scenario_alice() {
    let mut store = Store::new();
    let reg = register_request(
        &mut store,
        &register_info("alice@example.com", "555-alice", "alice", "p1"),
    );
    assert!(reg.is_ok());
    let wrong = login_request(&mut store, &login_info("alice", "wrong"));
    let e = wrong.err().expect("wrong password must fail");
    assert_eq!(e.status(), 403);
    assert_eq!(e.message(), "Invalid credentials.");
    let login = login_request(&mut store, &login_info("alice", "p1"));
    let (_, cookie) = login.ok().expect("correct password must succeed");
    let with_cookie = user_by_id(&mut store, Some(cookie.value.as_str()), now(), 1);
    assert!(with_cookie.is_ok());
    let without_cookie = user_by_id(&mut store, None, now(), 1);
    assert_eq!(without_cookie.err().map(|e| e.status()), Some(401));
}

#[test]
fn test_scenario_same_username_twice() {
    let mut store = Store::new();
    let first = register_request(
        &mut store,
        &register_info("first@example.com", "555-0001", "taken_name", "pw1"),
    );
    assert!(first.is_ok());
    let second = register_request(
        &mut store,
        &register_info("second@example.com", "555-0002", "taken_name", "pw2"),
    );
    assert_eq!(second.err().map(|e| e.status()), Some(409));
}

#[test]
fn test_profile_never_carries_password_hash() {
    let mut store = Store::new();
    register_request(
        &mut store,
        &register_info("leak@example.com", "555-lk-1", "leak_user", "supersecret"),
    )
    .ok()
    .expect("registration should succeed");
    let (_, cookie) = login_request(&mut store, &login_info("leak_user", "supersecret"))
        .ok()
        .expect("login should succeed");
    let profile = user_by_id(&mut store, Some(cookie.value.as_str()), now(), 1)
        .ok()
        .expect("lookup should succeed");
    // The record matches the registered identity fields...
    assert_eq!(profile.user_id, 1);
    assert_eq!(profile.user_email, "leak@example.com");
    assert_eq!(profile.user_phone, "555-lk-1");
    assert_eq!(profile.user_name, "leak_user");
    assert!(!profile.verified);
    assert!(!profile.admin);
    // ...and the stored digest is not the plaintext password, so even the
    // stored record never holds the password itself.
    assert_ne!(store.users[0].user_pass, "supersecret");
    assert!(store.users[0].user_pass.starts_with("$argon2"));
}
