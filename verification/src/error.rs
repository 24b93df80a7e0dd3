//! The ways in which an operation on accounts can fail.

use vstd::prelude::*;

verus! {

/// Why an operation on accounts failed. Every failure is handed to the caller as
/// it occurs: nothing is retried.
#[derive(Debug, PartialEq, Eq, Clone)]
pub enum AuthError {
    /// The redirect URL carries no identity.
    MissingIdentity,
    /// The redirect URL carries no access token.
    MissingAccessToken,
    /// The redirect URL carries no refresh token.
    MissingRefreshToken,
    /// The redirect URL carries no lifetime for the access token, or one that is no
    /// number.
    MissingExpiresIn,
    /// No account is stored under the identity asked for.
    AccountNotFound,
    /// The identity provider or the profile service could not be reached or gave no
    /// usable answer. The text says what the transport reported.
    NetworkError(String),
    /// The account store failed. The text says what the store reported.
    DatabaseError(String),
    /// A text that should have been a URL is none.
    UrlParseError,
}

} // verus!
