//! The failures that the service reports.

use vstd::prelude::*;

verus! {

/// The input field that a validation failure is about.
#[derive(Clone, Copy, Debug, PartialEq, Eq, Structural)]
pub enum Field {
    Email,
    Password,
}

/// A failure as the caller of the service sees it.
#[derive(Clone, Copy, Debug, PartialEq, Eq, Structural)]
pub enum AuthError {
    /// The input is malformed; the field named is the first that failed.
    Validation(Field),
    /// The e-mail address is already registered.
    Conflict,
    /// Bad credentials, or a token that is not acceptable. Deliberately coarse.
    Unauthorized,
    /// Storage or password hashing failed.
    Store,
    /// A token could not be signed.
    Signing,
}

/// Why a token was turned down. Kept apart for logs and metrics; towards the
/// outside every variant is [`AuthError::Unauthorized`].
#[derive(Clone, Copy, Debug, PartialEq, Eq, Structural)]
pub enum TokenError {
    /// The signature does not belong to this service's secret.
    InvalidSignature,
    /// The signature is good and the expiry time has passed.
    Expired,
    /// The token is not of the shape that this service issues.
    Malformed,
}

impl TokenError {
    /// The failure shown at an outward boundary: always `Unauthorized`.
    pub fn outward(self) -> (e: AuthError)
        ensures
            e == AuthError::Unauthorized,
    {
        AuthError::Unauthorized
    }
}

} // verus!
