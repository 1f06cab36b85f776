//! Trusted wrappers around the cryptographic primitives.
//!
//! Each digest or signature is a function of its inputs alone; its value is
//! given a name (an uninterpreted spec function) rather than written out,
//! and the wrappers state of each call only what the crates document: output
//! lengths, determinism, and that a signature produced by signing verifies
//! under the matching public key.

use hmac::Mac;
use p256::ecdsa::signature::{SignatureEncoding, Signer, Verifier};
use rsa::pkcs1::{DecodeRsaPublicKey, EncodeRsaPublicKey};
use rsa::pkcs8::DecodePrivateKey;
use sha2::Digest;
use vstd::prelude::*;

verus! {

/// The HMAC-SHA-256 tag of `msg` under `key`.
pub uninterp spec fn hmac_sha256_of(key: Seq<u8>, msg: Seq<u8>) -> Seq<u8>;

/// Relies on `hmac::Hmac` over SHA-256: the tag depends on the key and
/// message alone, is 32 bytes long, and keys of any length are accepted.
#[verifier::external_body]
pub fn hmac_sha256(key: &[u8], msg: &[u8]) -> (r: Vec<u8>)
    ensures
        r@ == hmac_sha256_of(key@, msg@),
        r@.len() == 32,
{
    let mut mac = <hmac::Hmac<sha2::Sha256> as Mac>::new_from_slice(key).expect(
        "any key length is accepted",
    );
    mac.update(msg);
    mac.finalize().into_bytes().to_vec()
}

/// The SHA-256 digest of `msg`.
pub uninterp spec fn sha256_of(msg: Seq<u8>) -> Seq<u8>;

/// Relies on `sha2::Sha256`: the digest depends on the message alone and is
/// 32 bytes long.
#[verifier::external_body]
pub fn sha256(msg: &[u8]) -> (r: Vec<u8>)
    ensures
        r@ == sha256_of(msg@),
        r@.len() == 32,
{
    sha2::Sha256::digest(msg).to_vec()
}

/// The SHA-384 digest of `msg`.
pub uninterp spec fn sha384_of(msg: Seq<u8>) -> Seq<u8>;

/// Relies on `sha2::Sha384`: the digest depends on the message alone and is
/// 48 bytes long.
#[verifier::external_body]
pub fn sha384(msg: &[u8]) -> (r: Vec<u8>)
    ensures
        r@ == sha384_of(msg@),
        r@.len() == 48,
{
    sha2::Sha384::digest(msg).to_vec()
}

/// Whether `sig` is a valid RSASSA-PKCS1-v1_5 SHA-256 signature on `msg`
/// under the public key `pub_der` (PKCS#1 DER). Inputs under which the key
/// or signature does not even parse are mapped to `false`.
pub uninterp spec fn rsa_sha256_verifies(pub_der: Seq<u8>, msg: Seq<u8>, sig: Seq<u8>) -> bool;

/// Whether `sig` is a valid RSASSA-PKCS1-v1_5 SHA-384 signature on `msg`
/// under the public key `pub_der` (PKCS#1 DER), with unparsable inputs
/// mapped to `false`.
pub uninterp spec fn rsa_sha384_verifies(pub_der: Seq<u8>, msg: Seq<u8>, sig: Seq<u8>) -> bool;

/// Whether `priv_der` parses as a PKCS#8 RSA private key large enough for
/// a SHA-256 PKCS#1 v1.5 signature: exactly when signing succeeds.
pub uninterp spec fn rsa_sha256_priv_ok(priv_der: Seq<u8>) -> bool;

/// As [`rsa_sha256_priv_ok`], for SHA-384 (a larger digest needs a larger
/// modulus).
pub uninterp spec fn rsa_sha384_priv_ok(priv_der: Seq<u8>) -> bool;

/// The RSASSA-PKCS1-v1_5 SHA-256 signature on `msg` under the private key
/// `priv_der` (PKCS#8 DER); the scheme is deterministic.
pub uninterp spec fn rsa_sha256_signature_of(priv_der: Seq<u8>, msg: Seq<u8>) -> Seq<u8>;

/// The RSASSA-PKCS1-v1_5 SHA-384 signature on `msg` under `priv_der`.
pub uninterp spec fn rsa_sha384_signature_of(priv_der: Seq<u8>, msg: Seq<u8>) -> Seq<u8>;

/// The PKCS#1 DER encoding of the public key belonging to the PKCS#8
/// private key `priv_der`.
pub uninterp spec fn rsa_public_der_of(priv_der: Seq<u8>) -> Seq<u8>;

/// Relies on `rsa::pkcs1v15::VerifyingKey<Sha256>`: acceptance of a
/// signature depends on the public key, message and signature alone.
#[verifier::external_body]
pub fn rsa_sha256_verify(pub_der: &[u8], msg: &[u8], sig: &[u8]) -> (r: bool)
    ensures
        r == rsa_sha256_verifies(pub_der@, msg@, sig@),
{
    let key = match rsa::RsaPublicKey::from_pkcs1_der(pub_der) {
        Ok(k) => k,
        Err(_) => return false,
    };
    let sig = match rsa::pkcs1v15::Signature::try_from(sig) {
        Ok(s) => s,
        Err(_) => return false,
    };
    rsa::pkcs1v15::VerifyingKey::<sha2::Sha256>::new(key).verify(msg, &sig).is_ok()
}

/// Relies on `rsa::pkcs1v15::VerifyingKey<Sha384>`, as the SHA-256 variant.
#[verifier::external_body]
pub fn rsa_sha384_verify(pub_der: &[u8], msg: &[u8], sig: &[u8]) -> (r: bool)
    ensures
        r == rsa_sha384_verifies(pub_der@, msg@, sig@),
{
    let key = match rsa::RsaPublicKey::from_pkcs1_der(pub_der) {
        Ok(k) => k,
        Err(_) => return false,
    };
    let sig = match rsa::pkcs1v15::Signature::try_from(sig) {
        Ok(s) => s,
        Err(_) => return false,
    };
    rsa::pkcs1v15::VerifyingKey::<sha2::Sha384>::new(key).verify(msg, &sig).is_ok()
}

/// Relies on `rsa::pkcs1v15::SigningKey<Sha256>`: the scheme is
/// deterministic, it succeeds exactly when the key parses and its modulus
/// fits the padded digest, and a signature it produces verifies under the
/// matching public key.
#[verifier::external_body]
pub fn rsa_sha256_sign(priv_der: &[u8], msg: &[u8]) -> (r: Option<Vec<u8>>)
    ensures
        r is Some <==> rsa_sha256_priv_ok(priv_der@),
        r matches Some(s) ==> s@ == rsa_sha256_signature_of(priv_der@, msg@)
            && rsa_sha256_verifies(rsa_public_der_of(priv_der@), msg@, s@),
{
    let key = match rsa::RsaPrivateKey::from_pkcs8_der(priv_der) {
        Ok(k) => k,
        Err(_) => return None,
    };
    match rsa::pkcs1v15::SigningKey::<sha2::Sha256>::new(key).try_sign(msg) {
        Ok(sig) => Some(sig.to_vec()),
        Err(_) => None,
    }
}

/// Relies on `rsa::pkcs1v15::SigningKey<Sha384>`, as the SHA-256 variant.
#[verifier::external_body]
pub fn rsa_sha384_sign(priv_der: &[u8], msg: &[u8]) -> (r: Option<Vec<u8>>)
    ensures
        r is Some <==> rsa_sha384_priv_ok(priv_der@),
        r matches Some(s) ==> s@ == rsa_sha384_signature_of(priv_der@, msg@)
            && rsa_sha384_verifies(rsa_public_der_of(priv_der@), msg@, s@),
{
    let key = match rsa::RsaPrivateKey::from_pkcs8_der(priv_der) {
        Ok(k) => k,
        Err(_) => return None,
    };
    match rsa::pkcs1v15::SigningKey::<sha2::Sha384>::new(key).try_sign(msg) {
        Ok(sig) => Some(sig.to_vec()),
        Err(_) => None,
    }
}

/// Relies on `rsa` key encoding: the public key of a private key, in PKCS#1
/// DER, depends on the private key alone.
#[verifier::external_body]
pub fn rsa_public_key_der(priv_der: &[u8]) -> (r: Option<Vec<u8>>)
    ensures
        r matches Some(p) ==> p@ == rsa_public_der_of(priv_der@),
{
    let key = match rsa::RsaPrivateKey::from_pkcs8_der(priv_der) {
        Ok(k) => k,
        Err(_) => return None,
    };
    match key.to_public_key().to_pkcs1_der() {
        Ok(der) => Some(der.as_bytes().to_vec()),
        Err(_) => None,
    }
}

/// Whether `sig` (64 raw bytes) is a valid ECDSA P-256 SHA-256 signature on
/// `msg` under the public key `pub_sec1` (SEC1 encoding), with unparsable
/// inputs mapped to `false`.
pub uninterp spec fn ecdsa_p256_verifies(pub_sec1: Seq<u8>, msg: Seq<u8>, sig: Seq<u8>) -> bool;

/// Whether `priv_scalar` is a valid P-256 private scalar, so that signing
/// `msg` succeeds (the signing path is deterministic, so its success is
/// too; it can also reject a specific message whose deterministic nonce
/// degenerates, an event of negligible measure that this name absorbs).
pub uninterp spec fn ecdsa_p256_sign_ok(priv_scalar: Seq<u8>, msg: Seq<u8>) -> bool;

/// The ECDSA P-256 SHA-256 signature on `msg` under the 32-byte private
/// scalar `priv_scalar`; signing is deterministic per RFC 6979.
pub uninterp spec fn ecdsa_p256_signature_of(priv_scalar: Seq<u8>, msg: Seq<u8>) -> Seq<u8>;

/// The uncompressed SEC1 encoding of the public key belonging to
/// `priv_scalar`.
pub uninterp spec fn ecdsa_p256_public_sec1_of(priv_scalar: Seq<u8>) -> Seq<u8>;

/// Relies on `p256::ecdsa::VerifyingKey`: acceptance of a signature depends
/// on the public key, message and signature alone.
#[verifier::external_body]
pub fn ecdsa_p256_verify(pub_sec1: &[u8], msg: &[u8], sig: &[u8]) -> (r: bool)
    ensures
        r == ecdsa_p256_verifies(pub_sec1@, msg@, sig@),
{
    let key = match p256::ecdsa::VerifyingKey::from_sec1_bytes(pub_sec1) {
        Ok(k) => k,
        Err(_) => return false,
    };
    let sig = match p256::ecdsa::Signature::from_slice(sig) {
        Ok(s) => s,
        Err(_) => return false,
    };
    key.verify(msg, &sig).is_ok()
}

/// Relies on `p256::ecdsa::SigningKey`: signing is deterministic (RFC
/// 6979), and a signature it produces verifies under the matching public
/// key.
#[verifier::external_body]
pub fn ecdsa_p256_sign(priv_scalar: &[u8], msg: &[u8]) -> (r: Option<Vec<u8>>)
    ensures
        r is Some <==> ecdsa_p256_sign_ok(priv_scalar@, msg@),
        r matches Some(s) ==> s@ == ecdsa_p256_signature_of(priv_scalar@, msg@)
            && ecdsa_p256_verifies(ecdsa_p256_public_sec1_of(priv_scalar@), msg@, s@),
{
    let key = match p256::ecdsa::SigningKey::from_slice(priv_scalar) {
        Ok(k) => k,
        Err(_) => return None,
    };
    let signed: Result<p256::ecdsa::Signature, p256::ecdsa::Error> = key.try_sign(msg);
    match signed {
        Ok(sig) => Some(sig.to_vec()),
        Err(_) => None,
    }
}

/// Relies on `p256` key encoding: the uncompressed SEC1 public point of a
/// private scalar depends on the scalar alone.
#[verifier::external_body]
pub fn ecdsa_p256_public_key(priv_scalar: &[u8]) -> (r: Option<Vec<u8>>)
    ensures
        r matches Some(p) ==> p@ == ecdsa_p256_public_sec1_of(priv_scalar@),
{
    let key = match p256::ecdsa::SigningKey::from_slice(priv_scalar) {
        Ok(k) => k,
        Err(_) => return None,
    };
    Some(p256::ecdsa::VerifyingKey::from(&key).to_encoded_point(false).as_bytes().to_vec())
}

} // verus!
