//! Error taxonomy of the verification engine.
//!
//! Every failure is terminal for the verification call that raised it: the
//! engine never retries and never coalesces a specific failure into a generic
//! one.

use vstd::prelude::*;

verus! {

/// Failure of a key lookup in a key set.
#[derive(Clone, Copy, Debug, PartialEq, Eq, Structural)]
pub enum KeyLookupError {
    /// No key in the set matches the requested key id and algorithm family.
    NoKeyFound,
    /// No key id was given and more than one key of the family is present;
    /// the engine never picks one arbitrarily.
    AmbiguousKeyFound,
}

/// Failure of a single claims-policy rule.
#[derive(Clone, Copy, Debug, PartialEq, Eq, Structural)]
pub enum ClaimsVerificationError {
    /// The `iss` claim does not equal the expected issuer byte for byte.
    IssuerMismatch,
    /// The expected client id is missing from `aud`, or a multi-audience
    /// token carries no matching authorized-party claim.
    AudienceMismatch,
    /// The `sub` claim does not equal the expected subject.
    SubjectMismatch,
    /// The expected nonce is missing from the token or differs from it.
    NonceMismatch,
    /// The access-token hash in the token does not match the recomputed one.
    HashMismatch,
    /// A signed response was demanded but the response carries no signature.
    NoSignature,
    /// The token is expired, or its issue time lies implausibly far in the
    /// future.
    Expired,
}

/// Failure of token verification as a whole.
#[derive(Clone, Copy, Debug, PartialEq, Eq, Structural)]
pub enum VerificationError {
    /// The compact serialization does not have the expected shape, or a
    /// segment fails base64url or JSON decoding.
    InvalidFormat,
    /// The header algorithm is not in the caller's allow-list.
    UnsupportedAlgorithm,
    /// The key set has no candidate, or more than one.
    KeyLookup(KeyLookupError),
    /// The signature-verification primitive rejected the signature.
    CryptoError,
    /// The payload carries a valid signature but does not decode to the
    /// expected claims shape.
    ClaimsParsing,
    /// A claims-policy rule failed after signature verification.
    ClaimsVerification(ClaimsVerificationError),
}

/// Error retrieving user info.
#[derive(Debug, PartialEq, Eq)]
pub enum UserInfoError {
    /// Failed to verify the user info claims.
    ClaimsVerification(ClaimsVerificationError),
    /// Failed to parse the server response.
    Parse,
    /// The transport collaborator failed; its message is surfaced unchanged.
    Request(String),
    /// A signed response failed before the claims stage — a format,
    /// algorithm, key-lookup or signature failure — with the specific kind
    /// preserved, never coalesced.
    Verification(VerificationError),
    /// The server returned an unexpected status code or content type. The
    /// status, the raw body and a diagnostic message are preserved.
    Response(u16, Vec<u8>, String),
    /// An unexpected error occurred.
    Other(String),
}

} // verus!
