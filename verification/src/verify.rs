//! The signature verifier and the ID Token verification flow.
//!
//! Verification is linear: the declared algorithm is matched against the
//! allow-list before any key access, the signing key is resolved fail
//! closed, the signature is checked over the original wire bytes, the
//! payload is decoded, and only then are the claims policy-checked. Any
//! failure is terminal; once rejected, no further checks run.

use vstd::prelude::*;

use crate::alg::{alg_name, bytes_eq, family_of, spec_alg_name, spec_family_of, Alg, KeyUsage};
use crate::claims::TokenClaims;
use crate::crypto::{ecdsa_p256_verify, hmac_sha256, rsa_sha256_verify, rsa_sha384_verify};
use crate::errors::{ClaimsVerificationError, VerificationError};
use crate::json::{
    parse_token_claims, spec_claims_match_doc, spec_token_doc_ok, strs_view,
};
use crate::jwt::{
    lemma_parsed_token_shape, lemma_parsed_token_unique, parse_compact, spec_claims_json,
    spec_compact_shape_ok, spec_opt_kid, spec_parsed_token, spec_sig_ok, spec_signed_by,
    spec_verifying_material, JsonWebToken,
};
use crate::keys::{
    candidate_count, spec_find_key, spec_is_candidate, spec_kid_view, Key, KeySet,
};
use crate::policy::{
    check_claims, spec_at_hash_ok, spec_audience_listed, spec_audience_ok, spec_check_claims,
    spec_issuer_ok, spec_nonce_ok, spec_subject_ok, spec_time_ok, ClaimsPolicy,
};

verus! {

/// The algorithm whose JOSE name is `name`, if any.
pub open spec fn spec_alg_from_name(name: Seq<u8>) -> Option<Alg> {
    if name == spec_alg_name(Alg::HmacSha256) {
        Some(Alg::HmacSha256)
    } else if name == spec_alg_name(Alg::RsaSha256) {
        Some(Alg::RsaSha256)
    } else if name == spec_alg_name(Alg::RsaSha384) {
        Some(Alg::RsaSha384)
    } else if name == spec_alg_name(Alg::EcdsaP256) {
        Some(Alg::EcdsaP256)
    } else if name == spec_alg_name(Alg::Unsigned) {
        Some(Alg::Unsigned)
    } else {
        None
    }
}

/// Maps a declared algorithm name to the algorithm it names.
pub fn alg_from_name(name: &[u8]) -> (r: Option<Alg>)
    ensures
        r == spec_alg_from_name(name@),
{
    let hs256 = alg_name(Alg::HmacSha256);
    if bytes_eq(name, hs256.as_slice()) {
        return Some(Alg::HmacSha256);
    }
    let rs256 = alg_name(Alg::RsaSha256);
    if bytes_eq(name, rs256.as_slice()) {
        return Some(Alg::RsaSha256);
    }
    let rs384 = alg_name(Alg::RsaSha384);
    if bytes_eq(name, rs384.as_slice()) {
        return Some(Alg::RsaSha384);
    }
    let es256 = alg_name(Alg::EcdsaP256);
    if bytes_eq(name, es256.as_slice()) {
        return Some(Alg::EcdsaP256);
    }
    let unsigned = alg_name(Alg::Unsigned);
    if bytes_eq(name, unsigned.as_slice()) {
        return Some(Alg::Unsigned);
    }
    None
}

/// Each algorithm name names only its own algorithm.
pub proof fn lemma_alg_name_inverse(a: Alg)
    ensures
        spec_alg_from_name(spec_alg_name(a)) == Some(a),
{
    assert(spec_alg_name(Alg::HmacSha256)[0] == 72);
    assert(spec_alg_name(Alg::RsaSha256)[0] == 82);
    assert(spec_alg_name(Alg::RsaSha384)[0] == 82);
    assert(spec_alg_name(Alg::RsaSha384)[2] == 51);
    assert(spec_alg_name(Alg::RsaSha256)[2] == 50);
    assert(spec_alg_name(Alg::EcdsaP256)[0] == 69);
    assert(spec_alg_name(Alg::Unsigned)[0] == 110);
}

/// Whether `a` occurs in the allow-list.
pub open spec fn spec_allowed(allowed: Seq<Alg>, a: Alg) -> bool {
    exists|i: int| 0 <= i < allowed.len() && allowed[i] == a
}

/// Decides membership of `a` in the allow-list.
pub fn alg_allowed(allowed: &Vec<Alg>, a: Alg) -> (r: bool)
    ensures
        r == spec_allowed(allowed@, a),
{
    let mut i: usize = 0;
    while i < allowed.len()
        invariant
            0 <= i <= allowed@.len(),
            forall|j: int| 0 <= j < i ==> allowed@[j] != a,
        decreases allowed@.len() - i,
    {
        if allowed[i] == a {
            return true;
        }
        i += 1;
    }
    false
}

/// The complete outcome of the signature stage on a structured token.
///
/// In order: an unknown or disallowed algorithm is `UnsupportedAlgorithm`
/// before any key access; the explicit `none` algorithm is acceptable only
/// when the policy allows unsigned tokens, and then only with an empty
/// signature; otherwise the key is resolved fail closed and the signature
/// is checked over the exact signing input.
pub open spec fn spec_verify_signature(
    t: JsonWebToken,
    keys: Seq<Key>,
    allowed: Seq<Alg>,
    allow_unsigned: bool,
) -> Result<Alg, VerificationError> {
    match spec_alg_from_name(t.header.alg_name@) {
        None => Err(VerificationError::UnsupportedAlgorithm),
        Some(a) => if !spec_allowed(allowed, a) {
            Err(VerificationError::UnsupportedAlgorithm)
        } else if a == Alg::Unsigned {
            if !allow_unsigned {
                Err(
                    VerificationError::ClaimsVerification(ClaimsVerificationError::NoSignature),
                )
            } else if t.signature@.len() == 0 {
                Ok(a)
            } else {
                Err(VerificationError::CryptoError)
            }
        } else {
            let kid = spec_opt_kid(t.header.key_id);
            let fam = spec_family_of(a);
            if candidate_count(keys, kid, fam) == 0 {
                Err(VerificationError::KeyLookup(crate::errors::KeyLookupError::NoKeyFound))
            } else if candidate_count(keys, kid, fam) >= 2 {
                Err(
                    VerificationError::KeyLookup(
                        crate::errors::KeyLookupError::AmbiguousKeyFound,
                    ),
                )
            } else {
                let k = spec_find_key(keys, kid, fam);
                if spec_sig_ok(a, k.material@, t.spec_signing_input(), t.signature@) {
                    Ok(a)
                } else {
                    Err(VerificationError::CryptoError)
                }
            }
        },
    }
}

/// Runs the signature stage on a structured token: resolves the algorithm
/// against the allow-list, looks the key up, and checks the signature over
/// the original wire bytes. Returns the verified algorithm.
pub fn verify_signature(
    t: &JsonWebToken,
    keys: &KeySet,
    allowed: &Vec<Alg>,
    allow_unsigned: bool,
) -> (r: Result<Alg, VerificationError>)
    ensures
        r == spec_verify_signature(*t, keys.keys@, allowed@, allow_unsigned),
{
    let a = match alg_from_name(t.header.alg_name.as_slice()) {
        Some(a) => a,
        None => {
            return Err(VerificationError::UnsupportedAlgorithm);
        },
    };
    if !alg_allowed(allowed, a) {
        return Err(VerificationError::UnsupportedAlgorithm);
    }
    if let Alg::Unsigned = a {
        if !allow_unsigned {
            return Err(
                VerificationError::ClaimsVerification(ClaimsVerificationError::NoSignature),
            );
        }
        if t.signature.len() == 0 {
            return Ok(a);
        }
        return Err(VerificationError::CryptoError);
    }
    let kid: Option<&String> = match &t.header.key_id {
        Some(s) => Some(s),
        None => None,
    };
    proof {
        assert(spec_kid_view(kid) == spec_opt_kid(t.header.key_id));
    }
    let key = match keys.find_key(kid, family_of(a)) {
        Ok(k) => k,
        Err(e) => {
            return Err(VerificationError::KeyLookup(e));
        },
    };
    let input = t.signing_input();
    let sig_ok = match a {
        Alg::HmacSha256 => {
            let tag = hmac_sha256(key.material.as_slice(), input.as_slice());
            bytes_eq(tag.as_slice(), t.signature.as_slice())
        },
        Alg::RsaSha256 => rsa_sha256_verify(
            key.material.as_slice(),
            input.as_slice(),
            t.signature.as_slice(),
        ),
        Alg::RsaSha384 => rsa_sha384_verify(
            key.material.as_slice(),
            input.as_slice(),
            t.signature.as_slice(),
        ),
        Alg::EcdsaP256 => ecdsa_p256_verify(
            key.material.as_slice(),
            input.as_slice(),
            t.signature.as_slice(),
        ),
        Alg::Unsigned => false,
    };
    if sig_ok {
        Ok(a)
    } else {
        Err(VerificationError::CryptoError)
    }
}

/// The signature stage reads only the header views, the signing input and
/// the signature: tokens that agree on those get the same outcome.
pub proof fn lemma_verify_signature_congruent(
    t1: JsonWebToken,
    t2: JsonWebToken,
    keys: Seq<Key>,
    allowed: Seq<Alg>,
    allow_unsigned: bool,
)
    requires
        t1.header.alg_name@ == t2.header.alg_name@,
        spec_opt_kid(t1.header.key_id) == spec_opt_kid(t2.header.key_id),
        t1.spec_signing_input() == t2.spec_signing_input(),
        t1.signature@ == t2.signature@,
    ensures
        spec_verify_signature(t1, keys, allowed, allow_unsigned) == spec_verify_signature(
            t2,
            keys,
            allowed,
            allow_unsigned,
        ),
{
}

/// The policy check reads the claims only through the views that
/// [`spec_claims_match_doc`] pins to the document: two records matching
/// the same document get the same outcome.
pub proof fn lemma_check_claims_congruent(
    c1: TokenClaims,
    c2: TokenClaims,
    doc: Seq<u8>,
    p: ClaimsPolicy,
    a: Alg,
)
    requires
        spec_claims_match_doc(c1, doc),
        spec_claims_match_doc(c2, doc),
    ensures
        spec_check_claims(c1, p, a) == spec_check_claims(c2, p, a),
{
    assert(spec_issuer_ok(c1, p) == spec_issuer_ok(c2, p));
    assert(c1.audiences@.len() == c2.audiences@.len()) by {
        assert(strs_view(c1.audiences@).len() == strs_view(c2.audiences@).len());
    }
    assert forall|i: int| 0 <= i < c1.audiences@.len() implies c1.audiences@[i]@
        == c2.audiences@[i]@ by {
        assert(strs_view(c1.audiences@)[i] == c1.audiences@[i]@);
        assert(strs_view(c2.audiences@)[i] == c2.audiences@[i]@);
    }
    assert(spec_audience_listed(c1, p) == spec_audience_listed(c2, p)) by {
        if spec_audience_listed(c1, p) {
            let i = choose|i: int|
                0 <= i < c1.audiences@.len() && c1.audiences@[i]@ == p.client_id@;
            assert(c2.audiences@[i]@ == p.client_id@);
        }
        if spec_audience_listed(c2, p) {
            let i = choose|i: int|
                0 <= i < c2.audiences@.len() && c2.audiences@[i]@ == p.client_id@;
            assert(c1.audiences@[i]@ == p.client_id@);
        }
    }
    assert(spec_audience_ok(c1, p) == spec_audience_ok(c2, p));
    assert(spec_subject_ok(c1, p) == spec_subject_ok(c2, p));
    assert(spec_nonce_ok(c1, p) == spec_nonce_ok(c2, p));
    assert(spec_at_hash_ok(c1, p, a) == spec_at_hash_ok(c2, p, a));
    assert(spec_time_ok(c1, p) == spec_time_ok(c2, p));
}

/// What acceptance of ID Token wire bytes means, stage by stage, with the
/// parsed token, the verified algorithm and the decoded claims record as
/// witnesses: the token parses from the bytes, its signature verifies
/// under the key set and allow-list, its payload has the ID Token claims
/// shape, and the claims pass the policy.
pub open spec fn spec_accepted_token(
    bytes: Seq<u8>,
    t: JsonWebToken,
    a: Alg,
    c: TokenClaims,
    keys: Seq<Key>,
    allowed: Seq<Alg>,
    allow_unsigned: bool,
    policy: ClaimsPolicy,
) -> bool {
    &&& spec_parsed_token(bytes, t)
    &&& spec_verify_signature(t, keys, allowed, allow_unsigned) == Ok::<Alg, VerificationError>(a)
    &&& spec_token_doc_ok(t.payload@, true)
    &&& spec_claims_match_doc(c, t.payload@)
    &&& spec_check_claims(c, policy, a) == Ok::<(), ClaimsVerificationError>(())
}

/// Verifies an ID Token end to end.
///
/// The verifier is constructed with the provider's issuer, the expected
/// client id, the provider's key set and the allowed signing algorithms;
/// none of these can be weakened per verification call.
pub struct IdTokenVerifier {
    pub keys: KeySet,
    pub allowed_algs: Vec<Alg>,
    /// Whether the explicit `none` algorithm is acceptable.
    pub allow_unsigned: bool,
    pub policy: ClaimsPolicy,
}

impl IdTokenVerifier {
    /// Creates a verifier that requires issuer and audience matches against
    /// `issuer` and `client_id`, rejects unsigned tokens, and checks time
    /// against `current_time` with `clock_skew` seconds of tolerance.
    pub fn new(
        issuer: String,
        client_id: String,
        keys: KeySet,
        allowed_algs: Vec<Alg>,
        current_time: i64,
        clock_skew: i64,
    ) -> (r: IdTokenVerifier)
        ensures
            r.keys == keys,
            r.allowed_algs == allowed_algs,
            r.allow_unsigned == false,
            r.policy.require_issuer_match == true,
            r.policy.require_audience_match == true,
            r.policy.expected_issuer == issuer,
            r.policy.client_id == client_id,
            r.policy.expected_subject is None,
            r.policy.expected_nonce is None,
            r.policy.access_token is None,
            r.policy.current_time == current_time,
            r.policy.clock_skew == clock_skew,
    {
        IdTokenVerifier {
            keys,
            allowed_algs,
            allow_unsigned: false,
            policy: ClaimsPolicy {
                require_issuer_match: true,
                require_audience_match: true,
                expected_issuer: issuer,
                client_id,
                expected_subject: None,
                expected_nonce: None,
                access_token: None,
                current_time,
                clock_skew,
            },
        }
    }

    /// Demands that the token carry this nonce: the same nonce that was
    /// embedded in the original authorization request.
    pub fn expect_nonce(self, nonce: String) -> (r: IdTokenVerifier)
        ensures
            r.policy.expected_nonce == Some(nonce),
            r.keys == self.keys,
            r.allowed_algs == self.allowed_algs,
            r.allow_unsigned == self.allow_unsigned,
            r.policy == (ClaimsPolicy { expected_nonce: Some(nonce), ..self.policy }),
    {
        IdTokenVerifier {
            policy: ClaimsPolicy { expected_nonce: Some(nonce), ..self.policy },
            ..self
        }
    }

    /// Supplies the access token whose hash the `at_hash` claim must match.
    pub fn with_access_token(self, token: Vec<u8>) -> (r: IdTokenVerifier)
        ensures
            r.policy.access_token == Some(token),
            r.keys == self.keys,
            r.allowed_algs == self.allowed_algs,
            r.allow_unsigned == self.allow_unsigned,
            r.policy == (ClaimsPolicy { access_token: Some(token), ..self.policy }),
    {
        IdTokenVerifier {
            policy: ClaimsPolicy { access_token: Some(token), ..self.policy },
            ..self
        }
    }

    /// Verifies the compact serialization of an ID Token: parses it, checks
    /// the signature, decodes the claims and enforces the policy. No
    /// partial result is ever returned.
    ///
    /// Success is owed exactly on accepted wire bytes
    /// ([`spec_accepted_token`]), and every failure carries the error of
    /// the first failing stage: the parse, the signature stage, the claims
    /// decode, or the policy, in that order.
    pub fn verified_claims(&self, token_bytes: &[u8]) -> (r: Result<
        TokenClaims,
        VerificationError,
    >)
        requires
            self.policy.wf(),
        ensures
            r matches Ok(c) ==> c.wf() && c.issuer is Some && c.expiry is Some && (exists|
                t: JsonWebToken,
                a: Alg,
            | #![auto]
                spec_parsed_token(token_bytes@, t) && spec_verify_signature(
                    t,
                    self.keys.keys@,
                    self.allowed_algs@,
                    self.allow_unsigned,
                ) == Ok::<Alg, VerificationError>(a) && spec_token_doc_ok(t.payload@, true)
                    && spec_claims_match_doc(c, t.payload@) && spec_check_claims(
                    c,
                    self.policy,
                    a,
                ) == Ok::<(), ClaimsVerificationError>(())),
            (exists|t: JsonWebToken, a: Alg, c: TokenClaims| #![auto]
                spec_accepted_token(
                    token_bytes@,
                    t,
                    a,
                    c,
                    self.keys.keys@,
                    self.allowed_algs@,
                    self.allow_unsigned,
                    self.policy,
                )) ==> r is Ok,
            r matches Err(e) ==> (!spec_compact_shape_ok(token_bytes@) && e
                == VerificationError::InvalidFormat) || (exists|t: JsonWebToken| #![auto]
                spec_parsed_token(token_bytes@, t) && (spec_verify_signature(
                    t,
                    self.keys.keys@,
                    self.allowed_algs@,
                    self.allow_unsigned,
                ) == Err::<Alg, VerificationError>(e) || (exists|a: Alg| #![auto]
                    spec_verify_signature(
                        t,
                        self.keys.keys@,
                        self.allowed_algs@,
                        self.allow_unsigned,
                    ) == Ok::<Alg, VerificationError>(a) && ((!spec_token_doc_ok(t.payload@, true)
                        && e == VerificationError::ClaimsParsing) || (spec_token_doc_ok(
                        t.payload@,
                        true,
                    ) && exists|c: TokenClaims, ce: ClaimsVerificationError| #![auto]
                        spec_claims_match_doc(c, t.payload@) && spec_check_claims(
                            c,
                            self.policy,
                            a,
                        ) == Err::<(), ClaimsVerificationError>(ce) && e
                            == VerificationError::ClaimsVerification(ce)))))),
    {
        let ghost keys = self.keys.keys@;
        let ghost allowed = self.allowed_algs@;
        let ghost au = self.allow_unsigned;
        let t = match parse_compact(token_bytes) {
            Ok(t) => t,
            Err(e) => {
                proof {
                    if exists|t0: JsonWebToken, a0: Alg, c0: TokenClaims| #![auto]
                        spec_accepted_token(token_bytes@, t0, a0, c0, keys, allowed, au, self.policy) {
                        let (t0, a0, c0) = choose|t0: JsonWebToken, a0: Alg, c0: TokenClaims| #![auto]
                            spec_accepted_token(token_bytes@, t0, a0, c0, keys, allowed, au, self.policy);
                        lemma_parsed_token_shape(token_bytes@, t0);
                        assert(false);
                    }
                }
                return Err(e);
            },
        };
        let a = match verify_signature(&t, &self.keys, &self.allowed_algs, self.allow_unsigned) {
            Ok(a) => a,
            Err(e) => {
                proof {
                    if exists|t0: JsonWebToken, a0: Alg, c0: TokenClaims| #![auto]
                        spec_accepted_token(token_bytes@, t0, a0, c0, keys, allowed, au, self.policy) {
                        let (t0, a0, c0) = choose|t0: JsonWebToken, a0: Alg, c0: TokenClaims| #![auto]
                            spec_accepted_token(token_bytes@, t0, a0, c0, keys, allowed, au, self.policy);
                        lemma_parsed_token_unique(token_bytes@, t0, t);
                        lemma_verify_signature_congruent(t0, t, keys, allowed, au);
                        assert(false);
                    }
                    assert(spec_parsed_token(token_bytes@, t) && spec_verify_signature(
                        t,
                        keys,
                        allowed,
                        au,
                    ) == Err::<Alg, VerificationError>(e));
                }
                return Err(e);
            },
        };
        let c = match parse_token_claims(t.payload.as_slice(), true) {
            Some(c) => c,
            None => {
                proof {
                    if exists|t0: JsonWebToken, a0: Alg, c0: TokenClaims| #![auto]
                        spec_accepted_token(token_bytes@, t0, a0, c0, keys, allowed, au, self.policy) {
                        let (t0, a0, c0) = choose|t0: JsonWebToken, a0: Alg, c0: TokenClaims| #![auto]
                            spec_accepted_token(token_bytes@, t0, a0, c0, keys, allowed, au, self.policy);
                        lemma_parsed_token_unique(token_bytes@, t0, t);
                        assert(false);
                    }
                    assert(spec_parsed_token(token_bytes@, t) && spec_verify_signature(
                        t,
                        keys,
                        allowed,
                        au,
                    ) == Ok::<Alg, VerificationError>(a) && !spec_token_doc_ok(t.payload@, true));
                }
                return Err(VerificationError::ClaimsParsing);
            },
        };
        match check_claims(&c, &self.policy, a) {
            Ok(()) => {
                proof {
                    let gt = t;
                    let ga = a;
                    assert(spec_parsed_token(token_bytes@, gt) && spec_verify_signature(
                        gt,
                        keys,
                        allowed,
                        au,
                    ) == Ok::<Alg, VerificationError>(ga) && spec_token_doc_ok(gt.payload@, true)
                        && spec_claims_match_doc(c, gt.payload@) && spec_check_claims(
                        c,
                        self.policy,
                        ga,
                    ) == Ok::<(), ClaimsVerificationError>(()));
                }
                Ok(c)
            },
            Err(ce) => {
                proof {
                    if exists|t0: JsonWebToken, a0: Alg, c0: TokenClaims| #![auto]
                        spec_accepted_token(token_bytes@, t0, a0, c0, keys, allowed, au, self.policy) {
                        let (t0, a0, c0) = choose|t0: JsonWebToken, a0: Alg, c0: TokenClaims| #![auto]
                            spec_accepted_token(token_bytes@, t0, a0, c0, keys, allowed, au, self.policy);
                        lemma_parsed_token_unique(token_bytes@, t0, t);
                        lemma_verify_signature_congruent(t0, t, keys, allowed, au);
                        lemma_check_claims_congruent(c0, c, t0.payload@, self.policy, a0);
                        assert(false);
                    }
                    assert(spec_parsed_token(token_bytes@, t) && spec_verify_signature(
                        t,
                        keys,
                        allowed,
                        au,
                    ) == Ok::<Alg, VerificationError>(a) && spec_token_doc_ok(t.payload@, true)
                        && spec_claims_match_doc(c, t.payload@) && spec_check_claims(
                        c,
                        self.policy,
                        a,
                    ) == Err::<(), ClaimsVerificationError>(ce));
                }
                Err(VerificationError::ClaimsVerification(ce))
            },
        }
    }
}

// ---------------------------------------------------------------------------
// Laws
// ---------------------------------------------------------------------------
/// A token whose declared algorithm is unknown or not in the allow-list is
/// rejected as `UnsupportedAlgorithm` whatever keys exist: the outcome does
/// not depend on the key set at all.
pub proof fn lemma_unsupported_algorithm_regardless_of_keys(
    t: JsonWebToken,
    keys1: Seq<Key>,
    keys2: Seq<Key>,
    allowed: Seq<Alg>,
    allow_unsigned: bool,
)
    requires
        match spec_alg_from_name(t.header.alg_name@) {
            Some(a) => !spec_allowed(allowed, a),
            None => true,
        },
    ensures
        spec_verify_signature(t, keys1, allowed, allow_unsigned) == Err::<
            Alg,
            VerificationError,
        >(VerificationError::UnsupportedAlgorithm),
        spec_verify_signature(t, keys1, allowed, allow_unsigned) == spec_verify_signature(
            t,
            keys2,
            allowed,
            allow_unsigned,
        ),
{
}

/// Round trip at the token level: a token signed with key `k` under `alg`
/// verifies against a key set holding exactly the matching verification key
/// `vk`, and its payload is the canonical serialization of the signed
/// claims. (The claims decoder is exercised by tests, as its JSON parser is
/// outside the verifier's reach.)
#[verifier::rlimit(100)]
pub proof fn lemma_sign_verify_round_trip(
    t: JsonWebToken,
    k: Key,
    vk: Key,
    alg: Alg,
    c: TokenClaims,
    keys: Seq<Key>,
    allowed: Seq<Alg>,
    allow_unsigned: bool,
)
    requires
        spec_signed_by(t, k, alg, c),
        alg != Alg::Unsigned,
        spec_allowed(allowed, alg),
        keys.len() == 1,
        keys[0] == vk,
        vk.usage == KeyUsage::Signature,
        vk.family == spec_family_of(alg),
        spec_opt_kid(vk.key_id) == spec_opt_kid(k.key_id),
        vk.material@ == spec_verifying_material(alg, k.material@),
    ensures
        spec_verify_signature(t, keys, allowed, allow_unsigned) == Ok::<
            Alg,
            VerificationError,
        >(alg),
        t.payload@ == spec_claims_json(c),
{
    lemma_alg_name_inverse(alg);
    let kid = spec_opt_kid(t.header.key_id);
    let fam = spec_family_of(alg);
    assert(spec_is_candidate(vk, kid, fam));
    assert(keys.drop_last() =~= Seq::<Key>::empty());
    assert(candidate_count(Seq::<Key>::empty(), kid, fam) == 0);
    assert(keys.last() == vk);
    assert(candidate_count(keys, kid, fam) == 1);
    assert(spec_find_key(keys, kid, fam) == vk);
}

/// Tampering with the signature after signing is always caught: a token
/// that keeps a signed token's header and payload segments but carries any
/// other signature is rejected as `CryptoError`, never silently passed.
/// (Stated for HMAC, where the valid signature is unique; the payload side
/// of tamper detection rests on the digest primitive and is exercised by
/// tests.)
#[verifier::rlimit(100)]
pub proof fn lemma_signature_tamper_rejected(
    t: JsonWebToken,
    t2: JsonWebToken,
    k: Key,
    c: TokenClaims,
    keys: Seq<Key>,
    allowed: Seq<Alg>,
    allow_unsigned: bool,
)
    requires
        spec_signed_by(t, k, Alg::HmacSha256, c),
        spec_allowed(allowed, Alg::HmacSha256),
        keys.len() == 1,
        keys[0] == k,
        k.usage == KeyUsage::Signature,
        k.family == spec_family_of(Alg::HmacSha256),
        t2.header == t.header,
        t2.header_b64@ == t.header_b64@,
        t2.payload_b64@ == t.payload_b64@,
        t2.signature@ != t.signature@,
    ensures
        spec_verify_signature(t2, keys, allowed, allow_unsigned) == Err::<
            Alg,
            VerificationError,
        >(VerificationError::CryptoError),
{
    lemma_alg_name_inverse(Alg::HmacSha256);
    let kid = spec_opt_kid(t2.header.key_id);
    let fam = spec_family_of(Alg::HmacSha256);
    assert(spec_is_candidate(k, kid, fam));
    assert(keys.drop_last() =~= Seq::<Key>::empty());
    assert(candidate_count(Seq::<Key>::empty(), kid, fam) == 0);
    assert(keys.last() == k);
    assert(candidate_count(keys, kid, fam) == 1);
    assert(spec_find_key(keys, kid, fam) == k);
    assert(t2.spec_signing_input() == t.spec_signing_input());
}

/// Verification is referentially transparent: any two results that meet
/// the signature stage's contract on the same inputs are equal, so
/// verifying the same token twice under the same key set and policy gives
/// the same outcome.
pub proof fn lemma_verification_idempotent(
    t: JsonWebToken,
    keys: Seq<Key>,
    allowed: Seq<Alg>,
    allow_unsigned: bool,
    r1: Result<Alg, VerificationError>,
    r2: Result<Alg, VerificationError>,
)
    requires
        r1 == spec_verify_signature(t, keys, allowed, allow_unsigned),
        r2 == spec_verify_signature(t, keys, allowed, allow_unsigned),
    ensures
        r1 == r2,
{
}

} // verus!
