//! Verified core of a cookie-bound session service: account registration,
//! password login, sliding-expiration session validation, and ownership-guarded
//! access to per-user conversation records.
//!
//! The state lives in an in-memory [`store::Store`]; every operation takes the
//! store, the client-held credential and the current time as explicit arguments
//! and is specified against the store's mathematical model.

pub mod api_messages;
pub mod conversation;
pub mod login;
pub mod register;
pub mod store;
pub mod user;
