//! The fixed set of failure kinds, and the sanitized client-facing strings
//! they map to.
//!
//! Login failure for an unknown username and for a wrong password are the same
//! variant, so the two produce byte-identical responses and a caller cannot
//! probe which usernames exist.

use vstd::prelude::*;

verus! {

/// Every failure a request can end in. Handlers translate a variant to its
/// HTTP status and its fixed message; no internal detail ever reaches a
/// client-visible field.
#[derive(Clone, Copy, Debug, PartialEq, Eq, Structural)]
pub enum ApiError {
    /// No session cookie came with the request.
    Unauthenticated,
    /// The session cookie's value is not in the token format.
    InvalidCredentialFormat,
    /// The session sat idle longer than the sliding window allows.
    SessionExpired,
    /// Unknown username or wrong password: deliberately one variant.
    InvalidCredentials,
    /// No user holds the requested identifier.
    UserNotFound,
    /// No conversation the requester may see holds the requested identifier:
    /// absent, or owned by someone else — deliberately the same answer, so a
    /// guessed identifier confirms nothing.
    ConversationNotFound,
    /// Registration clashed with an existing username, email or phone number.
    Conflict,
    /// The persistent store failed, or a presented token resolved to no user.
    StoreError,
    /// An internal step failed, such as hashing a password.
    ServerError,
    /// The outbound call to the conversational agent failed.
    UpstreamError,
}

impl ApiError {
    /// The HTTP status code a handler answers with for this failure.
    pub open spec fn status_spec(self) -> u16 {
        match self {
            ApiError::Unauthenticated => 401,
            ApiError::InvalidCredentialFormat => 400,
            ApiError::SessionExpired => 401,
            ApiError::InvalidCredentials => 403,
            ApiError::UserNotFound => 404,
            ApiError::ConversationNotFound => 404,
            ApiError::Conflict => 409,
            ApiError::StoreError => 500,
            ApiError::ServerError => 500,
            ApiError::UpstreamError => 500,
        }
    }

    pub fn status(&self) -> (r: u16)
        ensures
            r == self.status_spec(),
    {
        match self {
            ApiError::Unauthenticated => 401,
            ApiError::InvalidCredentialFormat => 400,
            ApiError::SessionExpired => 401,
            ApiError::InvalidCredentials => 403,
            ApiError::UserNotFound => 404,
            ApiError::ConversationNotFound => 404,
            ApiError::Conflict => 409,
            ApiError::StoreError => 500,
            ApiError::ServerError => 500,
            ApiError::UpstreamError => 500,
        }
    }

    /// The sanitized message for this failure. The strings form a small fixed
    /// set; none names the concrete check that failed.
    pub open spec fn message_spec(self) -> Seq<char> {
        match self {
            ApiError::Unauthenticated => "Missing login_id."@,
            ApiError::InvalidCredentialFormat => "Invalid login_id."@,
            ApiError::SessionExpired => "Invalid session. Please login again."@,
            ApiError::InvalidCredentials => "Invalid credentials."@,
            ApiError::UserNotFound => "User not found."@,
            ApiError::ConversationNotFound => "Conversation not found."@,
            ApiError::Conflict => "An account with that email, phone number, or username already exists."@,
            ApiError::StoreError => "Database error."@,
            ApiError::ServerError => "Internal server error."@,
            ApiError::UpstreamError => "Failed to reach the agent."@,
        }
    }

    pub fn message(&self) -> (r: &'static str)
        ensures
            r@ == self.message_spec(),
    {
        match self {
            ApiError::Unauthenticated => "Missing login_id.",
            ApiError::InvalidCredentialFormat => "Invalid login_id.",
            ApiError::SessionExpired => "Invalid session. Please login again.",
            ApiError::InvalidCredentials => "Invalid credentials.",
            ApiError::UserNotFound => "User not found.",
            ApiError::ConversationNotFound => "Conversation not found.",
            ApiError::Conflict => "An account with that email, phone number, or username already exists.",
            ApiError::StoreError => "Database error.",
            ApiError::ServerError => "Internal server error.",
            ApiError::UpstreamError => "Failed to reach the agent.",
        }
    }
}

/// Generic message payload returned by the API. The field is a `&'static str`
/// so no dynamic data can leak through it.
pub struct GenericResponse {
    pub message: &'static str,
}

} // verus!
