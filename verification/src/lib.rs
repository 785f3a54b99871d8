//! Credential checking and session tokens.
//!
//! The crate holds the decisions of an authentication service: which
//! registrations are acceptable, when a login succeeds, what a session token
//! asserts and until when it is good. Durable storage is a collaborator of the
//! caller; its answers come in as plain values.

pub mod errors;
pub mod validation;
pub mod user;
pub mod clock;
pub mod auth;
pub mod password;
pub mod storage;
pub mod credentials;
pub mod laws;
