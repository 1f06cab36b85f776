//! The claims policy engine.
//!
//! After signature verification has established the integrity of a claims
//! record, [`check_claims`] enforces the policy rules in a fixed order, each
//! rule independently toggleable, with the first failure short-circuiting.
//! The whole check is stated exactly by [`spec_check_claims`].

use vstd::prelude::*;

use crate::alg::Alg;
use crate::b64::{b64url_encode, spec_b64url};
use crate::claims::TokenClaims;
use crate::crypto::{sha256, sha256_of, sha384, sha384_of};
use crate::errors::ClaimsVerificationError;

verus! {

/// A verification policy: immutable once a verification call begins.
pub struct ClaimsPolicy {
    /// Whether the `iss` claim must equal `expected_issuer` byte for byte.
    pub require_issuer_match: bool,
    /// Whether `client_id` must appear in the audiences (with the
    /// authorized-party defence for multi-audience tokens).
    pub require_audience_match: bool,
    /// The provider's registered issuer.
    pub expected_issuer: String,
    /// The expected audience: this client's id.
    pub client_id: String,
    /// When given, the `sub` claim must equal it exactly.
    pub expected_subject: Option<String>,
    /// When given, the token must carry an equal nonce.
    pub expected_nonce: Option<String>,
    /// The access token whose hash the `at_hash` claim must match, when one
    /// is available to hash.
    pub access_token: Option<Vec<u8>>,
    /// The time the verification runs at, in seconds since the Unix epoch.
    /// Part of the policy so that the engine stays a pure function of its
    /// inputs.
    pub current_time: i64,
    /// Tolerated clock skew for the issue-time check, in seconds; never
    /// silently unlimited.
    pub clock_skew: i64,
}

impl ClaimsPolicy {
    /// Machine limits on the temporal parameters: a non-negative skew that
    /// cannot overflow the issue-time comparison.
    pub open spec fn wf(self) -> bool {
        &&& 0 <= self.clock_skew
        &&& self.current_time + self.clock_skew <= i64::MAX
    }
}

/// Whether the issuer rule passes (it is only evaluated when the policy
/// requires the match).
pub open spec fn spec_issuer_ok(c: TokenClaims, p: ClaimsPolicy) -> bool {
    !p.require_issuer_match || match c.issuer {
        Some(i) => i@ == p.expected_issuer@,
        None => false,
    }
}

/// Whether the audience rule passes: the client id appears among the
/// audiences, and a token with more than one audience additionally carries
/// an authorized-party claim equal to the client id — otherwise it is
/// rejected even though the plain audience check would pass.
pub open spec fn spec_audience_listed(c: TokenClaims, p: ClaimsPolicy) -> bool {
    exists|i: int| 0 <= i < c.audiences@.len() && c.audiences@[i]@ == p.client_id@
}

pub open spec fn spec_audience_ok(c: TokenClaims, p: ClaimsPolicy) -> bool {
    !p.require_audience_match || (spec_audience_listed(c, p) && (c.audiences@.len() > 1
        ==> match c.authorized_party {
        Some(z) => z@ == p.client_id@,
        None => false,
    }))
}

/// Whether the subject rule passes.
pub open spec fn spec_subject_ok(c: TokenClaims, p: ClaimsPolicy) -> bool {
    match p.expected_subject {
        Some(s) => c.subject@ == s@,
        None => true,
    }
}

/// Whether the nonce rule passes: a verification that expects a nonce and
/// receives a token without one fails, it does not pass through.
pub open spec fn spec_nonce_ok(c: TokenClaims, p: ClaimsPolicy) -> bool {
    match p.expected_nonce {
        Some(n) => match c.nonce {
            Some(m) => m@ == n@,
            None => false,
        },
        None => true,
    }
}

/// The left half of the digest that the signing algorithm implies, base64url
/// encoded: what a correct `at_hash` claim must hold. The `none` algorithm
/// implies no digest, so under it no claim value is accepted (fail closed).
pub open spec fn spec_expected_at_hash(alg: Alg, token: Seq<u8>) -> Option<Seq<u8>> {
    match alg {
        Alg::HmacSha256 => Some(spec_b64url(sha256_of(token).take(16))),
        Alg::RsaSha256 => Some(spec_b64url(sha256_of(token).take(16))),
        Alg::EcdsaP256 => Some(spec_b64url(sha256_of(token).take(16))),
        Alg::RsaSha384 => Some(spec_b64url(sha384_of(token).take(24))),
        Alg::Unsigned => None,
    }
}

/// Whether the access-token-hash rule passes: evaluated only when the claim
/// is present and an access token is available to hash.
pub open spec fn spec_at_hash_ok(c: TokenClaims, p: ClaimsPolicy, alg: Alg) -> bool {
    match c.access_token_hash {
        Some(h) => match p.access_token {
            Some(tok) => match spec_expected_at_hash(alg, tok@) {
                Some(expected) => h@ == expected,
                None => false,
            },
            None => true,
        },
        None => true,
    }
}

/// Whether the temporal rules pass: expiry strictly after the current time,
/// and an issue time, when present, not farther in the future than the
/// tolerated clock skew.
pub open spec fn spec_time_ok(c: TokenClaims, p: ClaimsPolicy) -> bool {
    &&& match c.expiry {
        Some(e) => e > p.current_time,
        None => true,
    }
    &&& match c.issued_at {
        Some(t) => t <= p.current_time + p.clock_skew,
        None => true,
    }
}

/// The whole policy check: the rules in their fixed order, first failure
/// short-circuiting.
pub open spec fn spec_check_claims(c: TokenClaims, p: ClaimsPolicy, alg: Alg) -> Result<
    (),
    ClaimsVerificationError,
> {
    if !spec_issuer_ok(c, p) {
        Err(ClaimsVerificationError::IssuerMismatch)
    } else if !spec_audience_ok(c, p) {
        Err(ClaimsVerificationError::AudienceMismatch)
    } else if !spec_subject_ok(c, p) {
        Err(ClaimsVerificationError::SubjectMismatch)
    } else if !spec_nonce_ok(c, p) {
        Err(ClaimsVerificationError::NonceMismatch)
    } else if !spec_at_hash_ok(c, p, alg) {
        Err(ClaimsVerificationError::HashMismatch)
    } else if !spec_time_ok(c, p) {
        Err(ClaimsVerificationError::Expired)
    } else {
        Ok(())
    }
}

/// Enforces the policy on a claims record whose integrity is already
/// established, under the token's verified signing algorithm `alg`.
pub fn check_claims(c: &TokenClaims, p: &ClaimsPolicy, alg: Alg) -> (r: Result<
    (),
    ClaimsVerificationError,
>)
    requires
        p.wf(),
    ensures
        r == spec_check_claims(*c, *p, alg),
{
    if p.require_issuer_match {
        let issuer_ok = match &c.issuer {
            Some(i) => *i == p.expected_issuer,
            None => false,
        };
        if !issuer_ok {
            return Err(ClaimsVerificationError::IssuerMismatch);
        }
    }
    if p.require_audience_match {
        let mut listed = false;
        let mut i: usize = 0;
        while i < c.audiences.len()
            invariant
                0 <= i <= c.audiences@.len(),
                listed == exists|j: int| 0 <= j < i && c.audiences@[j]@ == p.client_id@,
            decreases c.audiences@.len() - i,
        {
            if c.audiences[i] == p.client_id {
                listed = true;
            }
            i += 1;
        }
        if !listed {
            return Err(ClaimsVerificationError::AudienceMismatch);
        }
        if c.audiences.len() > 1 {
            let azp_ok = match &c.authorized_party {
                Some(z) => *z == p.client_id,
                None => false,
            };
            if !azp_ok {
                return Err(ClaimsVerificationError::AudienceMismatch);
            }
        }
    }
    let subject_ok = match &p.expected_subject {
        Some(s) => c.subject == *s,
        None => true,
    };
    if !subject_ok {
        return Err(ClaimsVerificationError::SubjectMismatch);
    }
    let nonce_ok = match &p.expected_nonce {
        Some(n) => match &c.nonce {
            Some(m) => *m == *n,
            None => false,
        },
        None => true,
    };
    if !nonce_ok {
        return Err(ClaimsVerificationError::NonceMismatch);
    }
    let hash_ok = match &c.access_token_hash {
        Some(h) => match &p.access_token {
            Some(tok) => match expected_at_hash(alg, tok.as_slice()) {
                Some(expected) => crate::alg::bytes_eq(h.as_slice(), expected.as_slice()),
                None => false,
            },
            None => true,
        },
        None => true,
    };
    if !hash_ok {
        return Err(ClaimsVerificationError::HashMismatch);
    }
    let expiry_ok = match c.expiry {
        Some(e) => e > p.current_time,
        None => true,
    };
    if !expiry_ok {
        return Err(ClaimsVerificationError::Expired);
    }
    let iat_ok = match c.issued_at {
        Some(t) => t <= p.current_time + p.clock_skew,
        None => true,
    };
    if !iat_ok {
        return Err(ClaimsVerificationError::Expired);
    }
    Ok(())
}

/// Computes the base64url text a correct `at_hash` claim must hold for a
/// token signed with `alg`.
pub fn expected_at_hash(alg: Alg, token: &[u8]) -> (r: Option<Vec<u8>>)
    ensures
        match spec_expected_at_hash(alg, token@) {
            Some(e) => r matches Some(v) && v@ == e,
            None => r is None,
        },
{
    match alg {
        Alg::HmacSha256 | Alg::RsaSha256 | Alg::EcdsaP256 => {
            let mut digest = sha256(token);
            digest.truncate(16);
            proof {
                assert(digest@ =~= sha256_of(token@).take(16));
            }
            Some(b64url_encode(digest.as_slice()))
        },
        Alg::RsaSha384 => {
            let mut digest = sha384(token);
            digest.truncate(24);
            proof {
                assert(digest@ =~= sha384_of(token@).take(24));
            }
            Some(b64url_encode(digest.as_slice()))
        },
        Alg::Unsigned => None,
    }
}

/// Claims checks are order-independent in outcome: the check succeeds
/// exactly when every individual rule passes, whatever order they would be
/// evaluated in.
pub proof fn lemma_outcome_is_order_independent(c: TokenClaims, p: ClaimsPolicy, alg: Alg)
    ensures
        spec_check_claims(c, p, alg) is Ok <==> spec_issuer_ok(c, p) && spec_audience_ok(c, p)
            && spec_subject_ok(c, p) && spec_nonce_ok(c, p) && spec_at_hash_ok(c, p, alg)
            && spec_time_ok(c, p),
{
}

/// The reported error is order-dependent: a claims record that fails both
/// the issuer rule and the audience rule always reports the issuer failure,
/// the first in the fixed order.
pub proof fn lemma_first_failure_reported(c: TokenClaims, p: ClaimsPolicy, alg: Alg)
    requires
        !spec_issuer_ok(c, p),
        !spec_audience_ok(c, p),
    ensures
        spec_check_claims(c, p, alg) == Err::<(), ClaimsVerificationError>(
            ClaimsVerificationError::IssuerMismatch,
        ),
{
}

} // verus!
