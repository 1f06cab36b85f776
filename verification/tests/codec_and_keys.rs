use oidc_core::alg::{Alg, KeyFamily, KeyUsage};
use oidc_core::b64::{b64url_decode, b64url_encode};
use oidc_core::claims::TokenClaims;
use oidc_core::crypto::{hmac_sha256, sha256, sha384};
use oidc_core::errors::{ClaimsVerificationError, KeyLookupError};
use oidc_core::jwt::claims_to_json;
use oidc_core::keys::{Key, KeySet};
use oidc_core::policy::{check_claims, ClaimsPolicy};

fn ck_key(kid: Option<&str>, family: KeyFamily, usage: KeyUsage) -> Key {
    Key {
        key_id: kid.map(|s| s.to_string()),
        family,
        usage,
        material: b"secret".to_vec(),
    }
}

#[test]
fn base64url_encodes_without_padding() {
    assert_eq!(b64url_encode(b"hello"), b"aGVsbG8".to_vec());
    assert_eq!(b64url_encode(b""), Vec::<u8>::new());
    assert_eq!(b64url_encode(&[251, 255]), b"-_8".to_vec());
}

#[test]
fn base64url_decode_inverts_encode() {
    let data: Vec<u8> = (0u8..=255).collect();
    let encoded = b64url_encode(&data);
    assert_eq!(b64url_decode(&encoded), Some(data));
    assert_eq!(b64url_decode(b"aGVsbG8"), Some(b"hello".to_vec()));
}

#[test]
fn base64url_decode_rejects_invalid_input() {
    assert_eq!(b64url_decode(b"a"), None);
    assert_eq!(b64url_decode(b"ab=="), None);
    assert_eq!(b64url_decode(b"a+b/"), None);
    assert_eq!(b64url_decode(b"\x00\x01"), None);
}

#[test]
fn sha256_matches_known_vector() {
    let digest = sha256(b"abc");
    let expected: Vec<u8> = vec![
        0xba, 0x78, 0x16, 0xbf, 0x8f, 0x01, 0xcf, 0xea, 0x41, 0x41, 0x40, 0xde, 0x5d, 0xae,
        0x22, 0x23, 0xb0, 0x03, 0x61, 0xa3, 0x96, 0x17, 0x7a, 0x9c, 0xb4, 0x10, 0xff, 0x61,
        0xf2, 0x00, 0x15, 0xad,
    ];
    assert_eq!(digest, expected);
}

#[test]
fn claims_serialize_canonically() {
    let claims = TokenClaims::new(
        "https://issuer.example".to_string(),
        vec!["client1".to_string()],
        "sub1".to_string(),
        100,
    );
    assert_eq!(
        String::from_utf8(claims_to_json(&claims)).unwrap(),
        "{\"sub\":\"sub1\",\"iss\":\"https://issuer.example\",\"aud\":[\"client1\"],\"exp\":100}"
    );
}

#[test]
fn claims_serialization_escapes_and_keeps_extras() {
    let mut claims = TokenClaims::new(
        "https://i".to_string(),
        vec!["a\"b".to_string(), "c".to_string()],
        "s".to_string(),
        -5,
    );
    claims.additional.push(("tfa_method".to_string(), "\"u2f\"".to_string()));
    // An additional claim colliding with a mandatory name is filtered out:
    // the mandatory claim wins.
    claims.additional.push(("sub".to_string(), "\"evil\"".to_string()));
    assert_eq!(
        String::from_utf8(claims_to_json(&claims)).unwrap(),
        "{\"sub\":\"s\",\"iss\":\"https://i\",\"aud\":[\"a\\\"b\",\"c\"],\"exp\":-5,\"tfa_method\":\"u2f\"}"
    );
}

#[test]
fn find_key_by_key_id_never_falls_back() {
    let set = KeySet::new(vec![ck_key(Some("k1"), KeyFamily::Hmac, KeyUsage::Signature)]);
    let miss = "k2".to_string();
    assert_eq!(
        set.find_key(Some(&miss), KeyFamily::Hmac).unwrap_err(),
        KeyLookupError::NoKeyFound
    );
    let hit = "k1".to_string();
    assert!(set.find_key(Some(&hit), KeyFamily::Hmac).is_ok());
}

#[test]
fn find_key_without_id_needs_exactly_one_candidate() {
    let set = KeySet::new(vec![
        ck_key(None, KeyFamily::Hmac, KeyUsage::Signature),
        ck_key(None, KeyFamily::Hmac, KeyUsage::Signature),
    ]);
    assert_eq!(
        set.find_key(None, KeyFamily::Hmac).unwrap_err(),
        KeyLookupError::AmbiguousKeyFound
    );
    let single = KeySet::new(vec![
        ck_key(None, KeyFamily::Hmac, KeyUsage::Signature),
        ck_key(None, KeyFamily::Rsa, KeyUsage::Signature),
        ck_key(None, KeyFamily::Hmac, KeyUsage::Encryption),
    ]);
    let found = single.find_key(None, KeyFamily::Hmac).expect("one candidate");
    assert_eq!(found.family, KeyFamily::Hmac);
    assert_eq!(found.usage, KeyUsage::Signature);
    assert_eq!(
        single.find_key(None, KeyFamily::Ec).unwrap_err(),
        KeyLookupError::NoKeyFound
    );
}

fn ck_policy() -> ClaimsPolicy {
    ClaimsPolicy {
        require_issuer_match: true,
        require_audience_match: true,
        expected_issuer: "https://issuer.example".to_string(),
        client_id: "client1".to_string(),
        expected_subject: None,
        expected_nonce: None,
        access_token: None,
        current_time: 1_700_000_000,
        clock_skew: 300,
    }
}

#[test]
fn first_failing_rule_is_the_reported_one() {
    // Fails both the issuer and the audience rule: the issuer failure is
    // reported, first in the fixed order.
    let claims = TokenClaims::new(
        "https://rogue.example".to_string(),
        vec!["someone-else".to_string()],
        "s".to_string(),
        1_700_000_600,
    );
    assert_eq!(
        check_claims(&claims, &ck_policy(), Alg::HmacSha256),
        Err(ClaimsVerificationError::IssuerMismatch)
    );
    // With the issuer corrected, the audience failure surfaces.
    let claims2 = TokenClaims::new(
        "https://issuer.example".to_string(),
        vec!["someone-else".to_string()],
        "s".to_string(),
        1_700_000_600,
    );
    assert_eq!(
        check_claims(&claims2, &ck_policy(), Alg::HmacSha256),
        Err(ClaimsVerificationError::AudienceMismatch)
    );
}

#[test]
fn claims_check_passes_when_every_rule_passes() {
    let claims = TokenClaims::new(
        "https://issuer.example".to_string(),
        vec!["client1".to_string()],
        "s".to_string(),
        1_700_000_600,
    );
    assert_eq!(check_claims(&claims, &ck_policy(), Alg::HmacSha256), Ok(()));
}

#[test]
fn hmac_sha256_matches_rfc_4231_vector() {
    let key = [0x0bu8; 20];
    let tag = hmac_sha256(&key, b"Hi There");
    let expected: Vec<u8> = vec![
        0xb0, 0x34, 0x4c, 0x61, 0xd8, 0xdb, 0x38, 0x53, 0x5c, 0xa8, 0xaf, 0xce, 0xaf, 0x0b,
        0xf1, 0x2b, 0x88, 0x1d, 0xc2, 0x00, 0xc9, 0x83, 0x3d, 0xa7, 0x26, 0xe9, 0x37, 0x6c,
        0x2e, 0x32, 0xcf, 0xf7,
    ];
    assert_eq!(tag, expected);
}

#[test]
fn sha384_matches_known_vector() {
    let digest = sha384(b"abc");
    let expected: Vec<u8> = vec![
        0xcb, 0x00, 0x75, 0x3f, 0x45, 0xa3, 0x5e, 0x8b, 0xb5, 0xa0, 0x3d, 0x69, 0x9a, 0xc6,
        0x50, 0x07, 0x27, 0x2c, 0x32, 0xab, 0x0e, 0xde, 0xd1, 0x63, 0x1a, 0x8b, 0x60, 0x5a,
        0x43, 0xff, 0x5b, 0xed, 0x80, 0x86, 0x07, 0x2b, 0xa1, 0xe7, 0xcc, 0x23, 0x58, 0xba,
        0xec, 0xa1, 0x34, 0xc8, 0x25, 0xa7,
    ];
    assert_eq!(digest, expected);
}
