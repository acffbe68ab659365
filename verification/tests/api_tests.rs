use cogito_api::api_messages::ApiError;
use cogito_api::login::login_request;
use cogito_api::login::validate_session;
use cogito_api::login::LoginInformation;
use cogito_api::register::register_request;
use cogito_api::register::RegisterInformation;
use cogito_api::store::Store;
use cogito_api::user::user_by_id;

fn register_info(email: &str, phone: &str, username: &str, password: &str) -> RegisterInformation {
    RegisterInformation {
        email: email.to_string(),
        phone_number: phone.to_string(),
        username: username.to_string(),
        password: password.to_string(),
    }
}

fn login_info(username: &str, password: &str) -> LoginInformation {
    LoginInformation {
        username: username.to_string(),
        password: password.to_string(),
    }
}

fn now() -> i64 {
    chrono::Utc::now().timestamp()
}

#[test]
fn test_login_with_invalid_credentials() {
    let mut store = Store::new();
    let r = login_request(&mut store, &login_info("nonexistent_user_12345", "wrongpassword"));
    let e = r.err().expect("Expected 403 Forbidden for invalid credentials");
    assert_eq!(e.status(), 403, "Expected 403 Forbidden for invalid credentials");
    assert_eq!(e.message(), "Invalid credentials.");
}

#[test]
fn test_unauthenticated_access_to_protected_route() {
    let mut store = Store::new();
    let r = user_by_id(&mut store, None, now(), 1);
    let e = r.err().expect("Expected 401 Unauthorized for unauthenticated request");
    assert_eq!(e.status(), 401, "Expected 401 Unauthorized for unauthenticated request");
    assert_eq!(e, ApiError::Unauthenticated);
}

#[test]
fn test_duplicate_registration() {
    let mut store = Store::new();
    let first = register_request(
        &mut store,
        &register_info("dup_test_1@example.com", "555-dup-1", "dup_test_1", "testpass"),
    );
    assert!(first.is_ok(), "First registration should succeed");
    let second = register_request(
        &mut store,
        &register_info("dup_test_1@example.com", "555-dup-1", "dup_test_1", "testpass"),
    );
    let e = second.err().expect("Expected 409 Conflict for duplicate registration");
    assert_eq!(e.status(), 409, "Expected 409 Conflict for duplicate registration");
    assert!(e.message().contains("already exists"), "Error message should indicate duplicate");
}

#[test]
fn test_login_with_wrong_password() {
    let mut store = Store::new();
    let reg = register_request(
        &mut store,
        &register_info("wrongpw_1@example.com", "555-wpw-1", "wrongpw_test_1", "correctpassword"),
    );
    assert!(reg.is_ok(), "Registration should succeed");
    let r = login_request(&mut store, &login_info("wrongpw_test_1", "wrongpassword"));
    let e = r.err().expect("Expected 403 Forbidden for wrong password");
    assert_eq!(e.status(), 403, "Expected 403 Forbidden for wrong password");
    assert_eq!(e.message(), "Invalid credentials.");
}

#[test]
fn test_get_user_after_login() {
    let mut store = Store::new();
    let reg = register_request(
        &mut store,
        &register_info("getuser_1@example.com", "555-gu-1", "getuser_test_1", "testpassword"),
    );
    assert!(reg.is_ok(), "Registration should succeed");
    let login = login_request(&mut store, &login_info("getuser_test_1", "testpassword"));
    let (_, cookie) = login.ok().expect("Login should succeed");
    let r = user_by_id(&mut store, Some(cookie.value.as_str()), now(), 1);
    let profile = r.ok().expect("Authenticated request should succeed");
    assert_eq!(profile.user_id, 1);
    assert_eq!(profile.user_name, "getuser_test_1");
}

#[test]
fn test_get_nonexistent_user() {
    let mut store = Store::new();
    let reg = register_request(
        &mut store,
        &register_info("nouser_1@example.com", "555-nu-1", "nouser_test_1", "testpassword"),
    );
    assert!(reg.is_ok(), "Registration should succeed");
    let login = login_request(&mut store, &login_info("nouser_test_1", "testpassword"));
    let (_, cookie) = login.ok().expect("Login should succeed");
    let r = user_by_id(&mut store, Some(cookie.value.as_str()), now(), 99999);
    let e = r.err().expect("Expected 404 Not Found for non-existent user");
    assert_eq!(e.status(), 404, "Expected 404 Not Found for non-existent user");
    assert_eq!(e.message(), "User not found.");
    assert_eq!(e, ApiError::UserNotFound);
}

#[test]
fn test_duplicate_email_only() {
    let mut store = Store::new();
    let first = register_request(
        &mut store,
        &register_info("same@example.com", "555-0001", "user_one", "pw1"),
    );
    assert!(first.is_ok());
    let second = register_request(
        &mut store,
        &register_info("same@example.com", "555-0002", "user_two", "pw2"),
    );
    assert_eq!(second.err(), Some(ApiError::Conflict));
}

#[test]
fn test_duplicate_phone_only() {
    let mut store = Store::new();
    let first = register_request(
        &mut store,
        &register_info("one@example.com", "555-0003", "user_three", "pw1"),
    );
    assert!(first.is_ok());
    let second = register_request(
        &mut store,
        &register_info("two@example.com", "555-0003", "user_four", "pw2"),
    );
    assert_eq!(second.err(), Some(ApiError::Conflict));
}

#[test]
fn test_distinct_registrations_both_succeed() {
    let mut store = Store::new();
    let first = register_request(
        &mut store,
        &register_info("a@example.com", "555-0004", "user_five", "pw1"),
    );
    assert!(first.is_ok());
    let second = register_request(
        &mut store,
        &register_info("b@example.com", "555-0005", "user_six", "pw2"),
    );
    assert!(second.is_ok());
}

#[test]
fn test_registration_message() {
    let mut store = Store::new();
    let r = register_request(
        &mut store,
        &register_info("msg@example.com", "555-0006", "msg_user", "pw"),
    );
    let resp = r.ok().expect("registration should succeed");
    assert_eq!(resp.message, "Registration successful. Please verify your account via email.");
}

#[test]
fn test_unknown_user_and_wrong_password_same_response() {
    let mut store = Store::new();
    let reg = register_request(
        &mut store,
        &register_info("enum@example.com", "555-0007", "enum_user", "rightpw"),
    );
    assert!(reg.is_ok());
    let unknown = login_request(&mut store, &login_info("no_such_user", "rightpw"))
        .err()
        .expect("unknown user must fail");
    let wrongpw = login_request(&mut store, &login_info("enum_user", "wrongpw"))
        .err()
        .expect("wrong password must fail");
    assert_eq!(unknown, wrongpw);
    assert_eq!(unknown.status(), wrongpw.status());
    assert_eq!(unknown.message(), wrongpw.message());
}

#[test]
fn test_error_statuses_and_messages() {
    assert_eq!(ApiError::Unauthenticated.status(), 401);
    assert_eq!(ApiError::Unauthenticated.message(), "Missing login_id.");
    assert_eq!(ApiError::InvalidCredentialFormat.status(), 400);
    assert_eq!(ApiError::InvalidCredentialFormat.message(), "Invalid login_id.");
    assert_eq!(ApiError::SessionExpired.status(), 401);
    assert_eq!(ApiError::SessionExpired.message(), "Invalid session. Please login again.");
    assert_eq!(ApiError::InvalidCredentials.status(), 403);
    assert_eq!(ApiError::InvalidCredentials.message(), "Invalid credentials.");
    assert_eq!(ApiError::UserNotFound.status(), 404);
    assert_eq!(ApiError::UserNotFound.message(), "User not found.");
    assert_eq!(ApiError::ConversationNotFound.status(), 404);
    assert_eq!(ApiError::ConversationNotFound.message(), "Conversation not found.");
    assert_eq!(ApiError::Conflict.status(), 409);
    assert_eq!(ApiError::StoreError.status(), 500);
    assert_eq!(ApiError::StoreError.message(), "Database error.");
    assert_eq!(ApiError::ServerError.status(), 500);
    assert_eq!(ApiError::ServerError.message(), "Internal server error.");
    assert_eq!(ApiError::UpstreamError.status(), 500);
    assert_eq!(ApiError::UpstreamError.message(), "Failed to reach the agent.");
}

#[test]
fn test_malformed_cookie_rejected_before_lookup() {
    let mut store = Store::new();
    let r = validate_session(&mut store, Some("not-a-uuid"), now());
    assert_eq!(r.err(), Some(ApiError::InvalidCredentialFormat));
}
