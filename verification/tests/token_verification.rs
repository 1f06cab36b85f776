use oidc_core::alg::{Alg, KeyFamily, KeyUsage};
use oidc_core::b64::b64url_encode;
use oidc_core::crypto::hmac_sha256;
use oidc_core::claims::TokenClaims;
use oidc_core::errors::{ClaimsVerificationError, KeyLookupError, VerificationError};
use oidc_core::jwt::sign_token;
use oidc_core::keys::{Key, KeySet};
use oidc_core::policy::expected_at_hash;
use oidc_core::verify::IdTokenVerifier;

const NOW: i64 = 1_700_000_000;
const SKEW: i64 = 300;

fn tv_hmac_key(kid: Option<&str>) -> Key {
    Key {
        key_id: kid.map(|s| s.to_string()),
        family: KeyFamily::Hmac,
        usage: KeyUsage::Signature,
        material: b"a-shared-secret-of-reasonable-len".to_vec(),
    }
}

fn tv_claims() -> TokenClaims {
    TokenClaims::new(
        "https://issuer.example".to_string(),
        vec!["client1".to_string()],
        "subject-1".to_string(),
        NOW + 600,
    )
}

fn tv_verifier(keys: Vec<Key>) -> IdTokenVerifier {
    IdTokenVerifier::new(
        "https://issuer.example".to_string(),
        "client1".to_string(),
        KeySet::new(keys),
        vec![Alg::HmacSha256],
        NOW,
        SKEW,
    )
}

#[test]
fn round_trip_hmac() {
    let key = tv_hmac_key(None);
    let token = sign_token(&tv_claims(), &key, Alg::HmacSha256).unwrap();
    let wire = token.compact();
    let verifier = tv_verifier(vec![tv_hmac_key(None)]);
    let claims = verifier.verified_claims(&wire).expect("round trip must verify");
    assert_eq!(claims.subject, "subject-1");
    assert_eq!(claims.issuer, Some("https://issuer.example".to_string()));
    assert_eq!(claims.audiences, vec!["client1".to_string()]);
    assert_eq!(claims.expiry, Some(NOW + 600));
}

#[test]
fn algorithm_not_allow_listed_is_unsupported() {
    let key = tv_hmac_key(None);
    let token = sign_token(&tv_claims(), &key, Alg::HmacSha256).unwrap();
    let wire = token.compact();
    let mut verifier = tv_verifier(vec![tv_hmac_key(None)]);
    verifier.allowed_algs = vec![Alg::RsaSha256];
    // The matching key exists, but the allow-list decides first.
    assert_eq!(
        verifier.verified_claims(&wire).unwrap_err(),
        VerificationError::UnsupportedAlgorithm
    );
}

#[test]
fn two_keys_of_family_without_key_id_is_ambiguous() {
    let key = tv_hmac_key(None);
    let token = sign_token(&tv_claims(), &key, Alg::HmacSha256).unwrap();
    let wire = token.compact();
    let mut other = tv_hmac_key(None);
    other.material = b"another-secret".to_vec();
    let verifier = tv_verifier(vec![tv_hmac_key(None), other]);
    assert_eq!(
        verifier.verified_claims(&wire).unwrap_err(),
        VerificationError::KeyLookup(KeyLookupError::AmbiguousKeyFound)
    );
}

#[test]
fn key_id_resolves_among_many() {
    let key = tv_hmac_key(Some("k1"));
    let token = sign_token(&tv_claims(), &key, Alg::HmacSha256).unwrap();
    let wire = token.compact();
    let mut other = tv_hmac_key(Some("k2"));
    other.material = b"another-secret".to_vec();
    let verifier = tv_verifier(vec![other, tv_hmac_key(Some("k1"))]);
    let claims = verifier.verified_claims(&wire).expect("kid lookup must resolve");
    assert_eq!(claims.subject, "subject-1");
}

#[test]
fn no_key_of_family_is_no_key_found() {
    let key = tv_hmac_key(None);
    let token = sign_token(&tv_claims(), &key, Alg::HmacSha256).unwrap();
    let wire = token.compact();
    let rsa_only = Key {
        key_id: None,
        family: KeyFamily::Rsa,
        usage: KeyUsage::Signature,
        material: vec![1, 2, 3],
    };
    let verifier = tv_verifier(vec![rsa_only]);
    assert_eq!(
        verifier.verified_claims(&wire).unwrap_err(),
        VerificationError::KeyLookup(KeyLookupError::NoKeyFound)
    );
}

#[test]
fn encryption_keys_never_serve_signature_lookups() {
    let key = tv_hmac_key(None);
    let token = sign_token(&tv_claims(), &key, Alg::HmacSha256).unwrap();
    let wire = token.compact();
    let mut enc = tv_hmac_key(None);
    enc.usage = KeyUsage::Encryption;
    let verifier = tv_verifier(vec![enc]);
    assert_eq!(
        verifier.verified_claims(&wire).unwrap_err(),
        VerificationError::KeyLookup(KeyLookupError::NoKeyFound)
    );
}

fn tv_tamper_segment(wire: &[u8], segment: usize) -> Vec<u8> {
    let mut dots = Vec::new();
    for (i, b) in wire.iter().enumerate() {
        if *b == b'.' {
            dots.push(i);
        }
    }
    assert_eq!(dots.len(), 2);
    let pos = match segment {
        1 => dots[0] + 2,
        2 => dots[1] + 2,
        _ => panic!("segment out of range"),
    };
    let mut out = wire.to_vec();
    out[pos] = if out[pos] == b'a' { b'b' } else { b'a' };
    out
}

#[test]
fn payload_tampering_is_crypto_error() {
    let key = tv_hmac_key(None);
    let token = sign_token(&tv_claims(), &key, Alg::HmacSha256).unwrap();
    let wire = token.compact();
    let tampered = tv_tamper_segment(&wire, 1);
    let verifier = tv_verifier(vec![tv_hmac_key(None)]);
    assert_eq!(
        verifier.verified_claims(&tampered).unwrap_err(),
        VerificationError::CryptoError
    );
}

#[test]
fn signature_tampering_is_crypto_error() {
    let key = tv_hmac_key(None);
    let token = sign_token(&tv_claims(), &key, Alg::HmacSha256).unwrap();
    let wire = token.compact();
    let tampered = tv_tamper_segment(&wire, 2);
    let verifier = tv_verifier(vec![tv_hmac_key(None)]);
    assert_eq!(
        verifier.verified_claims(&tampered).unwrap_err(),
        VerificationError::CryptoError
    );
}

#[test]
fn verification_is_idempotent() {
    let key = tv_hmac_key(None);
    let token = sign_token(&tv_claims(), &key, Alg::HmacSha256).unwrap();
    let wire = token.compact();
    let verifier = tv_verifier(vec![tv_hmac_key(None)]);
    let first = verifier.verified_claims(&wire).expect("first verification");
    let second = verifier.verified_claims(&wire).expect("second verification");
    assert_eq!(first, second);
    let bad_verifier = tv_verifier(vec![tv_hmac_key(None)]).expect_nonce("abc".to_string());
    assert_eq!(
        bad_verifier.verified_claims(&wire).unwrap_err(),
        bad_verifier.verified_claims(&wire).unwrap_err()
    );
}

#[test]
fn nonce_match_succeeds() {
    let mut claims = tv_claims();
    claims.nonce = Some("abc".to_string());
    let key = tv_hmac_key(None);
    let token = sign_token(&claims, &key, Alg::HmacSha256).unwrap();
    let verifier = tv_verifier(vec![tv_hmac_key(None)]).expect_nonce("abc".to_string());
    let got = verifier.verified_claims(&token.compact()).expect("nonce must match");
    assert_eq!(got.subject, "subject-1");
}

#[test]
fn nonce_mismatch_is_reported() {
    let mut claims = tv_claims();
    claims.nonce = Some("xyz".to_string());
    let key = tv_hmac_key(None);
    let token = sign_token(&claims, &key, Alg::HmacSha256).unwrap();
    let verifier = tv_verifier(vec![tv_hmac_key(None)]).expect_nonce("abc".to_string());
    assert_eq!(
        verifier.verified_claims(&token.compact()).unwrap_err(),
        VerificationError::ClaimsVerification(ClaimsVerificationError::NonceMismatch)
    );
}

#[test]
fn missing_nonce_is_a_failure_not_a_pass() {
    let key = tv_hmac_key(None);
    let token = sign_token(&tv_claims(), &key, Alg::HmacSha256).unwrap();
    let verifier = tv_verifier(vec![tv_hmac_key(None)]).expect_nonce("abc".to_string());
    assert_eq!(
        verifier.verified_claims(&token.compact()).unwrap_err(),
        VerificationError::ClaimsVerification(ClaimsVerificationError::NonceMismatch)
    );
}

#[test]
fn multi_audience_without_authorized_party_is_rejected() {
    let mut claims = tv_claims();
    claims.audiences = vec!["client1".to_string(), "client2".to_string()];
    let key = tv_hmac_key(None);
    let token = sign_token(&claims, &key, Alg::HmacSha256).unwrap();
    let verifier = tv_verifier(vec![tv_hmac_key(None)]);
    assert_eq!(
        verifier.verified_claims(&token.compact()).unwrap_err(),
        VerificationError::ClaimsVerification(ClaimsVerificationError::AudienceMismatch)
    );
}

#[test]
fn multi_audience_with_authorized_party_passes() {
    let mut claims = tv_claims();
    claims.audiences = vec!["client1".to_string(), "client2".to_string()];
    claims.authorized_party = Some("client1".to_string());
    let key = tv_hmac_key(None);
    let token = sign_token(&claims, &key, Alg::HmacSha256).unwrap();
    let verifier = tv_verifier(vec![tv_hmac_key(None)]);
    assert!(verifier.verified_claims(&token.compact()).is_ok());
}

#[test]
fn expired_token_is_rejected() {
    let mut claims = tv_claims();
    claims.expiry = Some(NOW - 1);
    let key = tv_hmac_key(None);
    let token = sign_token(&claims, &key, Alg::HmacSha256).unwrap();
    let verifier = tv_verifier(vec![tv_hmac_key(None)]);
    assert_eq!(
        verifier.verified_claims(&token.compact()).unwrap_err(),
        VerificationError::ClaimsVerification(ClaimsVerificationError::Expired)
    );
}

#[test]
fn issue_time_beyond_clock_skew_is_rejected() {
    let mut claims = tv_claims();
    claims.issued_at = Some(NOW + SKEW + 1);
    let key = tv_hmac_key(None);
    let token = sign_token(&claims, &key, Alg::HmacSha256).unwrap();
    let verifier = tv_verifier(vec![tv_hmac_key(None)]);
    assert_eq!(
        verifier.verified_claims(&token.compact()).unwrap_err(),
        VerificationError::ClaimsVerification(ClaimsVerificationError::Expired)
    );
    let mut within = tv_claims();
    within.issued_at = Some(NOW + SKEW);
    let token2 = sign_token(&within, &key, Alg::HmacSha256).unwrap();
    assert!(verifier.verified_claims(&token2.compact()).is_ok());
}

#[test]
fn access_token_hash_is_checked() {
    let access_token = b"the-access-token".to_vec();
    let mut claims = tv_claims();
    claims.access_token_hash = expected_at_hash(Alg::HmacSha256, &access_token);
    let key = tv_hmac_key(None);
    let token = sign_token(&claims, &key, Alg::HmacSha256).unwrap();
    let ok = tv_verifier(vec![tv_hmac_key(None)]).with_access_token(access_token);
    assert!(ok.verified_claims(&token.compact()).is_ok());
    let wrong = tv_verifier(vec![tv_hmac_key(None)]).with_access_token(b"another-token".to_vec());
    assert_eq!(
        wrong.verified_claims(&token.compact()).unwrap_err(),
        VerificationError::ClaimsVerification(ClaimsVerificationError::HashMismatch)
    );
}

#[test]
fn unsigned_tokens_need_explicit_permission() {
    let none_key = Key {
        key_id: None,
        family: KeyFamily::NoKey,
        usage: KeyUsage::Signature,
        material: Vec::new(),
    };
    let token = sign_token(&tv_claims(), &none_key, Alg::Unsigned).unwrap();
    let wire = token.compact();
    let mut verifier = tv_verifier(Vec::new());
    verifier.allowed_algs = vec![Alg::Unsigned];
    assert_eq!(
        verifier.verified_claims(&wire).unwrap_err(),
        VerificationError::ClaimsVerification(ClaimsVerificationError::NoSignature)
    );
    verifier.allow_unsigned = true;
    assert!(verifier.verified_claims(&wire).is_ok());
}

#[test]
fn malformed_wire_is_invalid_format() {
    let verifier = tv_verifier(vec![tv_hmac_key(None)]);
    assert_eq!(
        verifier.verified_claims(b"only-one-segment").unwrap_err(),
        VerificationError::InvalidFormat
    );
    assert_eq!(
        verifier.verified_claims(b"a.b.c.d").unwrap_err(),
        VerificationError::InvalidFormat
    );
    assert_eq!(
        verifier.verified_claims(b"!!!.###.$$$").unwrap_err(),
        VerificationError::InvalidFormat
    );
}

fn tv_craft(payload: &[u8]) -> Vec<u8> {
    let header = b64url_encode(b"{\"alg\":\"HS256\"}");
    let payload_b64 = b64url_encode(payload);
    let mut input = header.clone();
    input.push(b'.');
    input.extend_from_slice(&payload_b64);
    let sig = hmac_sha256(b"a-shared-secret-of-reasonable-len", &input);
    let sig_b64 = b64url_encode(&sig);
    let mut out = input;
    out.push(b'.');
    out.extend_from_slice(&sig_b64);
    out
}

#[test]
fn valid_signature_with_malformed_claims_is_claims_parsing() {
    let verifier = tv_verifier(vec![tv_hmac_key(None)]);
    // A correctly signed payload that is not JSON is still rejected.
    assert_eq!(
        verifier.verified_claims(&tv_craft(b"not json")).unwrap_err(),
        VerificationError::ClaimsParsing
    );
    // The mandatory ID Token claims must be present even under a valid
    // signature: this payload has no expiry.
    let no_exp = br#"{"sub":"s","iss":"https://issuer.example","aud":"client1"}"#;
    assert_eq!(
        verifier.verified_claims(&tv_craft(no_exp)).unwrap_err(),
        VerificationError::ClaimsParsing
    );
}

#[test]
fn single_string_audience_is_accepted() {
    let wire = tv_craft(
        br#"{"sub":"s1","iss":"https://issuer.example","aud":"client1","exp":1700000600}"#,
    );
    let verifier = tv_verifier(vec![tv_hmac_key(None)]);
    let claims = verifier.verified_claims(&wire).expect("string audience");
    assert_eq!(claims.audiences, vec!["client1".to_string()]);
    assert_eq!(claims.subject, "s1");
}
