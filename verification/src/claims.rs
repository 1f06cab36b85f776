//! The claims carried by an ID Token or a signed UserInfo response.

use vstd::prelude::*;

verus! {

/// The base claims of a token, plus caller-defined additional claims.
///
/// `audiences` is an ordered set of strings; on the wire it is serialized
/// as an array even when it is a singleton. `access_token_hash` holds the
/// base64url text of the `at_hash` claim as raw bytes.
#[derive(Debug, PartialEq, Eq)]
pub struct TokenClaims {
    pub issuer: Option<String>,
    pub audiences: Vec<String>,
    pub subject: String,
    /// Expiry, as seconds since the Unix epoch. Mandatory in an ID Token;
    /// absent from a UserInfo response.
    pub expiry: Option<i64>,
    /// Issue time, as seconds since the Unix epoch.
    pub issued_at: Option<i64>,
    pub nonce: Option<String>,
    pub access_token_hash: Option<Vec<u8>>,
    /// The authorized-party (`azp`) claim.
    pub authorized_party: Option<String>,
    /// Caller-defined additional claims, as name/value pairs of JSON text.
    pub additional: Vec<(String, String)>,
}

impl TokenClaims {
    /// The invariant of a well-formed claims record: the subject is present
    /// and non-empty, and the audience set is non-empty.
    pub open spec fn wf(self) -> bool {
        &&& self.subject@.len() > 0
        &&& self.audiences@.len() > 0
    }

    /// Creates a claims record with the mandatory base claims and no
    /// optional ones.
    pub fn new(issuer: String, audiences: Vec<String>, subject: String, expiry: i64) -> (r:
        TokenClaims)
        ensures
            r.issuer == Some(issuer),
            r.audiences == audiences,
            r.subject == subject,
            r.expiry == Some(expiry),
            r.issued_at is None,
            r.nonce is None,
            r.access_token_hash is None,
            r.authorized_party is None,
            r.additional@.len() == 0,
            subject@.len() > 0 && audiences@.len() > 0 ==> r.wf(),
    {
        TokenClaims {
            issuer: Some(issuer),
            audiences,
            subject,
            expiry: Some(expiry),
            issued_at: None,
            nonce: None,
            access_token_hash: None,
            authorized_party: None,
            additional: Vec::new(),
        }
    }
}

} // verus!
