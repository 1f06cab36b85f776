use oidc_core::alg::{Alg, KeyFamily, KeyUsage};
use oidc_core::errors::{ClaimsVerificationError, UserInfoError, VerificationError};
use oidc_core::http_utils::{
    auth_bearer, check_content_type, content_type_has_essence, HttpResponse,
};
use oidc_core::keys::{Key, KeySet};
use oidc_core::user_info::{
    StandardClaims, UserInfoClaims, UserInfoJsonWebToken, UserInfoRequest, UserInfoVerifier,
};

const NOW: i64 = 1_700_000_000;

fn ui_key() -> Key {
    Key {
        key_id: None,
        family: KeyFamily::Hmac,
        usage: KeyUsage::Signature,
        material: b"userinfo-secret".to_vec(),
    }
}

fn ui_verifier(expected_subject: Option<&str>) -> UserInfoVerifier {
    UserInfoVerifier::new(
        "https://issuer.example".to_string(),
        "client1".to_string(),
        KeySet::new(vec![ui_key()]),
        vec![Alg::HmacSha256],
        expected_subject.map(|s| s.to_string()),
        NOW,
        300,
    )
}

fn ui_request(require_signed: bool, expected_subject: Option<&str>) -> UserInfoRequest {
    UserInfoRequest {
        url: "https://issuer.example/userinfo".to_string(),
        access_token: "token123".to_string(),
        require_signed_response: require_signed,
        signed_response_verifier: ui_verifier(expected_subject),
    }
}

fn ui_response(status: u16, content_type: Option<&str>, body: &[u8]) -> HttpResponse {
    let mut headers = Vec::new();
    if let Some(ct) = content_type {
        headers.push(("Content-Type".to_string(), ct.to_string()));
    }
    HttpResponse { status, headers, body: body.to_vec() }
}

#[test]
fn essence_matching_ignores_case_and_parameters() {
    assert!(content_type_has_essence("APPLICATION/JSON; charset=utf-8", "application/json"));
    assert!(content_type_has_essence("application/jwt", "Application/JWT"));
    assert!(!content_type_has_essence("application/jwt", "application/json"));
    assert!(!content_type_has_essence("application/jsonx", "application/json"));
}

#[test]
fn content_type_check_passes_without_header() {
    let none = ui_response(200, None, b"{}");
    assert!(check_content_type(&none, "application/json").is_ok());
    let right = ui_response(200, Some("application/json; charset=utf-8"), b"{}");
    assert!(check_content_type(&right, "application/json").is_ok());
    let wrong = ui_response(200, Some("text/html"), b"{}");
    assert!(check_content_type(&wrong, "application/json").is_err());
}

#[test]
fn bearer_header_is_well_formed() {
    let (name, value) = auth_bearer("token123");
    assert_eq!(name, "Authorization");
    assert_eq!(value, "Bearer token123");
}

#[test]
fn prepared_request_carries_accept_and_bearer() {
    let req = ui_request(false, None).prepare_request();
    assert_eq!(req.method, "GET");
    assert_eq!(req.url, "https://issuer.example/userinfo");
    assert_eq!(req.headers[0], ("Accept".to_string(), "application/json".to_string()));
    assert_eq!(
        req.headers[1],
        ("Authorization".to_string(), "Bearer token123".to_string())
    );
    assert!(req.body.is_empty());
}

#[test]
fn unsigned_json_is_rejected_before_parsing_when_signature_required() {
    // The body is not even JSON: it must never be parsed.
    let response = ui_response(200, Some("application/json"), b"this is not json at all");
    let result = ui_request(true, None).user_info_response(response);
    assert_eq!(
        result.unwrap_err(),
        UserInfoError::ClaimsVerification(ClaimsVerificationError::NoSignature)
    );
}

#[test]
fn json_response_parses_claims() {
    let body = br#"{"iss":"https://server.example.com","sub":"24400320","aud":["s6BhdRkqt3"],"tfa_method":"u2f","email":"j@example.com","email_verified":true}"#;
    let response = ui_response(200, Some("application/json; charset=utf-8"), body);
    let claims = ui_request(false, None).user_info_response(response).expect("json claims");
    assert_eq!(claims.standard_claims.sub, "24400320");
    assert_eq!(claims.issuer, Some("https://server.example.com".to_string()));
    assert_eq!(claims.audiences, Some(vec!["s6BhdRkqt3".to_string()]));
    assert_eq!(claims.standard_claims.email, Some("j@example.com".to_string()));
    assert_eq!(claims.standard_claims.email_verified, Some(true));
    assert_eq!(
        claims.additional_claims,
        vec![("tfa_method".to_string(), "\"u2f\"".to_string())]
    );
}

#[test]
fn missing_content_type_is_treated_as_json() {
    let body = br#"{"sub":"alice"}"#;
    let response = ui_response(200, None, body);
    let claims = ui_request(false, None).user_info_response(response).expect("default json");
    assert_eq!(claims.standard_claims.sub, "alice");
}

#[test]
fn subject_cross_check_rejects_other_subjects() {
    let body = br#"{"sub":"mallory"}"#;
    let response = ui_response(200, Some("application/json"), body);
    let result = ui_request(false, Some("alice")).user_info_response(response);
    assert_eq!(
        result.unwrap_err(),
        UserInfoError::ClaimsVerification(ClaimsVerificationError::SubjectMismatch)
    );
}

#[test]
fn from_json_requires_a_subject() {
    assert_eq!(
        UserInfoClaims::from_json(br#"{"iss":"https://x"}"#, None).unwrap_err(),
        UserInfoError::Parse
    );
    assert_eq!(
        UserInfoClaims::from_json(br#"{"sub":""}"#, None).unwrap_err(),
        UserInfoError::Parse
    );
    assert_eq!(
        UserInfoClaims::from_json(b"not json", None).unwrap_err(),
        UserInfoError::Parse
    );
}

#[test]
fn unexpected_status_preserves_the_body() {
    let response = ui_response(404, Some("application/json"), b"the raw body");
    match ui_request(false, None).user_info_response(response).unwrap_err() {
        UserInfoError::Response(status, body, _) => {
            assert_eq!(status, 404);
            assert_eq!(body, b"the raw body".to_vec());
        },
        other => panic!("expected a response error, got {:?}", other),
    }
}

#[test]
fn unexpected_content_type_preserves_the_body() {
    let response = ui_response(200, Some("text/html"), b"<html>");
    match ui_request(false, None).user_info_response(response).unwrap_err() {
        UserInfoError::Response(status, body, _) => {
            assert_eq!(status, 200);
            assert_eq!(body, b"<html>".to_vec());
        },
        other => panic!("expected a response error, got {:?}", other),
    }
}

#[test]
fn signed_jwt_response_round_trips() {
    let mut standard = StandardClaims::new("alice".to_string());
    standard.email = Some("alice@example.com".to_string());
    let mut claims = UserInfoClaims::new(standard, Vec::new());
    claims.set_issuer(Some("https://issuer.example".to_string()));
    claims.set_audiences(Some(vec!["client1".to_string()]));
    let jwt = UserInfoJsonWebToken::new(claims, &ui_key(), Alg::HmacSha256).expect("signing");
    let body = jwt.token.compact();
    let response = ui_response(200, Some("application/jwt"), &body);
    let got = ui_request(true, Some("alice")).user_info_response(response).expect("signed claims");
    assert_eq!(got.standard_claims.sub, "alice");
    assert_eq!(got.standard_claims.email, Some("alice@example.com".to_string()));
    assert_eq!(got.issuer, Some("https://issuer.example".to_string()));
}

#[test]
fn signed_jwt_with_wrong_subject_is_rejected() {
    let claims = UserInfoClaims::new(StandardClaims::new("mallory".to_string()), Vec::new());
    let jwt = UserInfoJsonWebToken::new(claims, &ui_key(), Alg::HmacSha256).expect("signing");
    let body = jwt.token.compact();
    let response = ui_response(200, Some("application/jwt"), &body);
    let result = ui_request(true, Some("alice")).user_info_response(response);
    assert_eq!(
        result.unwrap_err(),
        UserInfoError::ClaimsVerification(ClaimsVerificationError::SubjectMismatch)
    );
}

#[test]
fn issuer_match_on_signed_responses_is_opt_in() {
    let mut claims = UserInfoClaims::new(StandardClaims::new("alice".to_string()), Vec::new());
    claims.set_issuer(Some("https://rogue.example".to_string()));
    let jwt = UserInfoJsonWebToken::new(claims, &ui_key(), Alg::HmacSha256).expect("signing");
    let body = jwt.token.compact();
    // Off by default: the rogue issuer passes.
    let lax = ui_request(true, None);
    let response = ui_response(200, Some("application/jwt"), &body);
    assert!(lax.user_info_response(response).is_ok());
    // Demanded: the rogue issuer is rejected.
    let strict = ui_request(true, None).require_issuer_match(true);
    let response2 = ui_response(200, Some("application/jwt"), &body);
    assert_eq!(
        strict.user_info_response(response2).unwrap_err(),
        UserInfoError::ClaimsVerification(ClaimsVerificationError::IssuerMismatch)
    );
}

#[test]
fn any_content_type_value_may_match() {
    // Several Content-Type headers: a non-matching first value and a
    // matching later one pass the check, as the original accepted any
    // matching value.
    let response = HttpResponse {
        status: 200,
        headers: vec![
            ("Content-Type".to_string(), "text/html".to_string()),
            ("content-type".to_string(), "application/json; charset=utf-8".to_string()),
        ],
        body: b"{}".to_vec(),
    };
    assert!(check_content_type(&response, "application/json").is_ok());
    let only_wrong = HttpResponse {
        status: 200,
        headers: vec![("Content-Type".to_string(), "text/html".to_string())],
        body: b"{}".to_vec(),
    };
    assert!(check_content_type(&only_wrong, "application/json").is_err());
}

#[test]
fn jwt_path_preserves_failure_kinds() {
    let claims = UserInfoClaims::new(StandardClaims::new("alice".to_string()), Vec::new());
    let jwt = UserInfoJsonWebToken::new(claims, &ui_key(), Alg::HmacSha256).expect("signing");
    let mut body = jwt.token.compact();
    // Tamper with the signature: the crypto failure kind survives the
    // UserInfo error mapping.
    let last_dot = body.iter().rposition(|b| *b == b'.').unwrap();
    body[last_dot + 2] = if body[last_dot + 2] == b'a' { b'b' } else { b'a' };
    let response = ui_response(200, Some("application/jwt"), &body);
    assert_eq!(
        ui_request(true, None).user_info_response(response).unwrap_err(),
        UserInfoError::Verification(VerificationError::CryptoError)
    );
}

#[test]
fn malformed_profile_member_is_a_parse_failure() {
    // "email" must be a string when present.
    assert_eq!(
        UserInfoClaims::from_json(br#"{"sub":"a","email":5}"#, None).unwrap_err(),
        UserInfoError::Parse
    );
    // A non-object document never parses as claims.
    assert_eq!(
        UserInfoClaims::from_json(br#""just a string""#, None).unwrap_err(),
        UserInfoError::Parse
    );
}
