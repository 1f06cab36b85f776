use oidc_core::alg::{Alg, KeyFamily, KeyUsage};
use oidc_core::claims::TokenClaims;
use oidc_core::crypto::{ecdsa_p256_public_key, rsa_public_key_der};
use oidc_core::errors::VerificationError;
use oidc_core::jwt::sign_token;
use oidc_core::keys::{Key, KeySet};
use oidc_core::verify::IdTokenVerifier;

const NOW: i64 = 1_700_000_000;

/// A throwaway 2048-bit RSA private key (PKCS#8 DER), for tests only.
fn ca_rsa_private_der() -> Vec<u8> {
    vec![
        48, 130, 4, 190, 2, 1, 0, 48, 13, 6, 9, 42, 134, 72, 134, 247,
        13, 1, 1, 1, 5, 0, 4, 130, 4, 168, 48, 130, 4, 164, 2, 1,
        0, 2, 130, 1, 1, 0, 219, 175, 189, 21, 194, 186, 112, 113, 63, 140,
        11, 91, 35, 53, 155, 208, 67, 23, 103, 111, 121, 94, 201, 192, 228, 126,
        250, 206, 211, 198, 132, 67, 85, 223, 117, 1, 204, 36, 248, 105, 211, 217,
        205, 62, 96, 244, 127, 61, 246, 133, 160, 138, 106, 157, 34, 247, 94, 196,
        222, 53, 37, 29, 223, 193, 32, 223, 190, 192, 79, 74, 189, 60, 158, 235,
        149, 249, 204, 238, 27, 100, 118, 56, 98, 189, 175, 14, 37, 95, 225, 109,
        19, 184, 188, 21, 57, 123, 1, 54, 25, 251, 207, 188, 239, 236, 91, 146,
        94, 40, 58, 63, 100, 94, 153, 175, 111, 199, 141, 94, 99, 34, 170, 94,
        7, 45, 48, 107, 236, 219, 32, 199, 134, 74, 93, 159, 64, 86, 253, 56,
        7, 250, 170, 225, 168, 139, 142, 40, 49, 149, 11, 171, 68, 105, 63, 142,
        169, 189, 94, 58, 204, 251, 94, 213, 28, 189, 241, 218, 39, 122, 1, 157,
        170, 173, 131, 17, 49, 151, 230, 113, 23, 245, 253, 75, 179, 216, 162, 170,
        118, 78, 76, 186, 98, 155, 61, 208, 138, 20, 174, 215, 252, 224, 124, 175,
        53, 4, 44, 82, 122, 139, 254, 201, 63, 178, 91, 131, 244, 7, 203, 223,
        87, 191, 106, 225, 166, 64, 106, 58, 177, 158, 252, 68, 102, 48, 127, 229,
        246, 67, 173, 161, 183, 189, 72, 69, 133, 32, 102, 77, 175, 9, 53, 138,
        128, 168, 111, 96, 62, 215, 2, 3, 1, 0, 1, 2, 130, 1, 0, 108,
        19, 161, 136, 222, 147, 93, 53, 1, 167, 210, 128, 100, 42, 127, 252, 173,
        189, 10, 88, 119, 147, 207, 218, 179, 46, 219, 17, 188, 114, 249, 231, 172,
        139, 241, 226, 207, 253, 82, 46, 178, 24, 1, 22, 146, 153, 70, 46, 4,
        37, 74, 77, 62, 85, 14, 250, 54, 167, 208, 143, 193, 178, 88, 61, 137,
        128, 57, 182, 31, 108, 43, 251, 242, 77, 1, 43, 243, 11, 34, 243, 194,
        11, 76, 92, 120, 14, 20, 9, 254, 251, 108, 11, 226, 143, 232, 134, 224,
        154, 46, 159, 72, 220, 113, 6, 77, 40, 141, 100, 233, 254, 252, 208, 99,
        120, 65, 28, 33, 170, 209, 71, 161, 28, 0, 24, 213, 173, 10, 200, 251,
        19, 160, 244, 145, 171, 26, 114, 218, 242, 232, 45, 118, 113, 51, 167, 32,
        33, 208, 172, 188, 204, 117, 111, 153, 42, 111, 254, 242, 215, 81, 6, 126,
        171, 123, 196, 191, 96, 78, 229, 230, 13, 148, 174, 173, 208, 25, 57, 78,
        162, 216, 189, 13, 176, 96, 163, 237, 130, 74, 102, 205, 94, 169, 86, 115,
        142, 137, 51, 23, 218, 245, 62, 189, 184, 109, 27, 185, 10, 138, 25, 52,
        18, 30, 122, 158, 196, 22, 72, 118, 130, 102, 28, 246, 41, 116, 122, 72,
        180, 144, 23, 206, 138, 33, 209, 127, 29, 243, 141, 75, 31, 226, 110, 148,
        114, 159, 166, 5, 77, 140, 44, 136, 169, 57, 9, 80, 8, 49, 209, 2,
        129, 129, 0, 253, 139, 23, 188, 50, 197, 195, 187, 5, 220, 59, 136, 142,
        229, 69, 27, 246, 192, 131, 108, 141, 100, 121, 162, 184, 105, 18, 22, 22,
        235, 161, 131, 254, 231, 242, 146, 62, 2, 184, 230, 123, 198, 173, 20, 13,
        78, 217, 144, 202, 5, 72, 179, 235, 41, 172, 158, 234, 165, 203, 134, 250,
        246, 120, 153, 205, 246, 180, 236, 55, 201, 13, 226, 218, 92, 116, 182, 250,
        231, 132, 79, 120, 153, 26, 221, 223, 197, 184, 26, 79, 191, 171, 104, 123,
        239, 77, 24, 61, 2, 198, 189, 93, 132, 100, 235, 73, 158, 162, 210, 94,
        184, 241, 84, 209, 41, 193, 112, 243, 182, 66, 213, 73, 254, 166, 144, 204,
        179, 146, 81, 2, 129, 129, 0, 221, 208, 170, 55, 43, 194, 228, 112, 32,
        60, 106, 25, 217, 182, 117, 155, 175, 51, 174, 169, 117, 206, 143, 195, 175,
        63, 119, 195, 85, 7, 17, 39, 134, 22, 43, 247, 161, 93, 81, 190, 131,
        198, 138, 119, 93, 135, 30, 88, 7, 138, 158, 59, 157, 186, 92, 38, 109,
        94, 44, 30, 36, 89, 44, 137, 225, 74, 119, 242, 207, 63, 148, 228, 163,
        148, 150, 114, 189, 143, 227, 218, 108, 85, 37, 240, 145, 199, 117, 199, 87,
        165, 234, 68, 242, 105, 198, 27, 217, 36, 100, 251, 28, 85, 177, 66, 218,
        181, 200, 114, 21, 192, 79, 219, 233, 53, 176, 31, 178, 102, 193, 15, 206,
        84, 40, 157, 141, 96, 12, 167, 2, 129, 129, 0, 193, 203, 136, 71, 220,
        147, 23, 41, 163, 176, 19, 125, 44, 164, 7, 239, 248, 234, 107, 74, 20,
        197, 0, 200, 36, 166, 131, 33, 137, 65, 112, 2, 65, 91, 175, 40, 162,
        231, 87, 199, 44, 66, 206, 214, 109, 217, 160, 40, 176, 145, 219, 97, 82,
        85, 87, 81, 92, 207, 127, 66, 220, 30, 122, 78, 45, 132, 238, 3, 68,
        28, 148, 85, 154, 76, 99, 21, 221, 176, 10, 140, 232, 4, 54, 233, 242,
        121, 225, 95, 147, 39, 80, 240, 27, 18, 237, 93, 162, 124, 181, 197, 214,
        110, 52, 233, 55, 43, 95, 14, 231, 65, 251, 140, 182, 23, 113, 121, 81,
        127, 53, 148, 107, 235, 142, 11, 77, 187, 208, 17, 2, 129, 128, 114, 182,
        168, 96, 241, 243, 207, 186, 33, 33, 189, 105, 115, 11, 134, 149, 38, 45,
        159, 69, 170, 84, 82, 75, 76, 69, 145, 133, 102, 98, 202, 63, 91, 123,
        249, 239, 13, 247, 185, 255, 194, 28, 154, 157, 146, 179, 255, 64, 93, 94,
        21, 233, 20, 240, 61, 25, 238, 115, 198, 115, 44, 47, 37, 246, 132, 153,
        195, 160, 194, 7, 202, 211, 215, 185, 79, 121, 53, 137, 197, 183, 191, 80,
        229, 215, 29, 61, 63, 47, 1, 168, 31, 152, 218, 153, 83, 72, 49, 171,
        61, 194, 19, 236, 73, 73, 30, 220, 230, 54, 2, 3, 188, 9, 41, 249,
        135, 5, 77, 121, 16, 157, 65, 2, 139, 34, 183, 235, 149, 127, 2, 129,
        129, 0, 205, 126, 195, 24, 175, 139, 16, 9, 144, 245, 11, 89, 33, 83,
        17, 199, 0, 114, 9, 43, 193, 41, 158, 80, 231, 18, 206, 89, 91, 101,
        45, 238, 30, 110, 39, 203, 81, 90, 252, 196, 180, 93, 63, 180, 54, 250,
        225, 136, 246, 48, 47, 48, 253, 33, 43, 62, 15, 143, 60, 16, 101, 150,
        51, 14, 173, 234, 49, 36, 80, 232, 217, 204, 43, 253, 188, 30, 50, 35,
        132, 224, 233, 24, 226, 132, 212, 87, 219, 141, 182, 229, 228, 114, 28, 141,
        96, 155, 79, 139, 93, 171, 102, 14, 132, 212, 226, 59, 43, 129, 191, 96,
        38, 29, 70, 46, 170, 177, 64, 186, 199, 183, 129, 110, 36, 109, 182, 51,
        249, 80,
    ]
}

fn ca_claims() -> TokenClaims {
    TokenClaims::new(
        "https://issuer.example".to_string(),
        vec!["client1".to_string()],
        "subject-1".to_string(),
        NOW + 600,
    )
}

fn ca_verifier(keys: Vec<Key>, algs: Vec<Alg>) -> IdTokenVerifier {
    IdTokenVerifier::new(
        "https://issuer.example".to_string(),
        "client1".to_string(),
        KeySet::new(keys),
        algs,
        NOW,
        300,
    )
}

#[test]
fn rsa_sha256_round_trip() {
    let priv_der = ca_rsa_private_der();
    let pub_der = rsa_public_key_der(&priv_der).expect("public key extraction");
    let signing_key = Key {
        key_id: None,
        family: KeyFamily::Rsa,
        usage: KeyUsage::Signature,
        material: priv_der,
    };
    let verify_key = Key {
        key_id: None,
        family: KeyFamily::Rsa,
        usage: KeyUsage::Signature,
        material: pub_der,
    };
    let token = sign_token(&ca_claims(), &signing_key, Alg::RsaSha256).expect("rsa signing");
    let verifier = ca_verifier(vec![verify_key], vec![Alg::RsaSha256]);
    let claims = verifier.verified_claims(&token.compact()).expect("rsa round trip");
    assert_eq!(claims.subject, "subject-1");
}

#[test]
fn rsa_sha384_round_trip_and_tampering() {
    let priv_der = ca_rsa_private_der();
    let pub_der = rsa_public_key_der(&priv_der).expect("public key extraction");
    let signing_key = Key {
        key_id: None,
        family: KeyFamily::Rsa,
        usage: KeyUsage::Signature,
        material: priv_der,
    };
    let verify_key = Key {
        key_id: None,
        family: KeyFamily::Rsa,
        usage: KeyUsage::Signature,
        material: pub_der,
    };
    let token = sign_token(&ca_claims(), &signing_key, Alg::RsaSha384).expect("rsa signing");
    let verifier = ca_verifier(vec![verify_key], vec![Alg::RsaSha384]);
    let wire = token.compact();
    assert!(verifier.verified_claims(&wire).is_ok());
    let mut tampered = wire.clone();
    let dot = tampered.iter().position(|b| *b == b'.').unwrap();
    tampered[dot + 2] = if tampered[dot + 2] == b'a' { b'b' } else { b'a' };
    assert_eq!(
        verifier.verified_claims(&tampered).unwrap_err(),
        VerificationError::CryptoError
    );
}

#[test]
fn ecdsa_p256_round_trip_and_tampering() {
    let priv_scalar: Vec<u8> = (1u8..=32).collect();
    let pub_sec1 = ecdsa_p256_public_key(&priv_scalar).expect("public point");
    let signing_key = Key {
        key_id: None,
        family: KeyFamily::Ec,
        usage: KeyUsage::Signature,
        material: priv_scalar,
    };
    let verify_key = Key {
        key_id: None,
        family: KeyFamily::Ec,
        usage: KeyUsage::Signature,
        material: pub_sec1,
    };
    let token = sign_token(&ca_claims(), &signing_key, Alg::EcdsaP256).expect("ecdsa signing");
    let verifier = ca_verifier(vec![verify_key], vec![Alg::EcdsaP256]);
    let wire = token.compact();
    let claims = verifier.verified_claims(&wire).expect("ecdsa round trip");
    assert_eq!(claims.subject, "subject-1");
    let mut tampered = wire.clone();
    let last_dot = wire.iter().rposition(|b| *b == b'.').unwrap();
    tampered[last_dot + 2] = if tampered[last_dot + 2] == b'a' { b'b' } else { b'a' };
    assert_eq!(
        verifier.verified_claims(&tampered).unwrap_err(),
        VerificationError::CryptoError
    );
}

#[test]
fn bad_rsa_key_material_fails_signing() {
    let signing_key = Key {
        key_id: None,
        family: KeyFamily::Rsa,
        usage: KeyUsage::Signature,
        material: vec![1, 2, 3],
    };
    assert_eq!(
        sign_token(&ca_claims(), &signing_key, Alg::RsaSha256).unwrap_err(),
        VerificationError::CryptoError
    );
}
