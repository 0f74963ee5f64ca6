//! The closed error taxonomy of the authentication core.

use vstd::prelude::*;

verus! {

/// Why a token's claims were rejected.
#[derive(Debug, Clone, Copy, PartialEq, Eq, Structural)]
pub enum ClaimReason {
    /// The token's expiry is not in the future.
    Expired,
    /// The token's audience differs from the configured one.
    WrongAudience,
    /// The token's issuer is not one the provider uses.
    WrongIssuer,
}

/// Every failure the authentication core can report.
#[derive(Debug, Clone, Copy, PartialEq, Eq, Structural)]
pub enum AuthError {
    /// The credential is not a well-formed token, lacks a key id, or
    /// lacks a required claim.
    MalformedToken,
    /// The signing key id is unknown even after a fresh key fetch.
    KeyNotFound,
    /// Fetching the provider's key set failed (network or parse).
    UpstreamUnavailable,
    /// The token's signature does not verify under the resolved key.
    InvalidSignature,
    /// The signature verified but a claim was rejected.
    ClaimRejected(ClaimReason),
    /// A store read or write failed.
    StorageFailure,
    /// The expected audience is not configured.
    ConfigurationMissing,
}

impl AuthError {
    /// True for outcomes of an unauthenticated request, false for
    /// infrastructure failures: clients may retry only the latter.
    pub open spec fn spec_is_rejection(self) -> bool {
        match self {
            AuthError::MalformedToken => true,
            AuthError::KeyNotFound => true,
            AuthError::UpstreamUnavailable => false,
            AuthError::InvalidSignature => true,
            AuthError::ClaimRejected(_) => true,
            AuthError::StorageFailure => false,
            AuthError::ConfigurationMissing => false,
        }
    }

    /// Whether this failure should be surfaced as an authentication
    /// rejection rather than a server error.
    pub fn is_authentication_rejection(&self) -> (r: bool)
        ensures
            r == self.spec_is_rejection(),
    {
        match self {
            AuthError::MalformedToken => true,
            AuthError::KeyNotFound => true,
            AuthError::UpstreamUnavailable => false,
            AuthError::InvalidSignature => true,
            AuthError::ClaimRejected(_) => true,
            AuthError::StorageFailure => false,
            AuthError::ConfigurationMissing => false,
        }
    }

    /// A short description, stable across formatting layers.
    pub fn describe(&self) -> (r: &'static str)
    {
        match self {
            AuthError::MalformedToken => "malformed token",
            AuthError::KeyNotFound => "signing key not found",
            AuthError::UpstreamUnavailable => "key provider unavailable",
            AuthError::InvalidSignature => "invalid signature",
            AuthError::ClaimRejected(ClaimReason::Expired) => "token expired",
            AuthError::ClaimRejected(ClaimReason::WrongAudience) => "wrong audience",
            AuthError::ClaimRejected(ClaimReason::WrongIssuer) => "wrong issuer",
            AuthError::StorageFailure => "storage failure",
            AuthError::ConfigurationMissing => "expected audience not configured",
        }
    }
}

} // verus!
