//! Signing algorithms, key families and key usages.
//!
//! The closed set of concrete algorithm variants is dispatched at
//! verification time by the token's declared algorithm, never bound per call
//! site, which keeps cryptographic agility without threading type parameters
//! through every type.

use vstd::prelude::*;

verus! {

/// A concrete JWS signing algorithm.
#[derive(Clone, Copy, Debug, PartialEq, Eq, Hash, Structural)]
pub enum Alg {
    /// HMAC with SHA-256 (`HS256`).
    HmacSha256,
    /// RSASSA-PKCS1-v1_5 with SHA-256 (`RS256`).
    RsaSha256,
    /// RSASSA-PKCS1-v1_5 with SHA-384 (`RS384`).
    RsaSha384,
    /// ECDSA on P-256 with SHA-256 (`ES256`).
    EcdsaP256,
    /// The explicit `none` algorithm: no signature at all.
    Unsigned,
}

/// The family a key belongs to. A key can only verify tokens whose declared
/// algorithm falls in the same family.
#[derive(Clone, Copy, Debug, PartialEq, Eq, Hash, Structural)]
pub enum KeyFamily {
    Rsa,
    Ec,
    Hmac,
    /// The family of the `none` algorithm, which uses no key.
    NoKey,
}

/// What a key may be used for. A key restricted to encryption is never
/// handed to a signature-verification lookup.
#[derive(Clone, Copy, Debug, PartialEq, Eq, Hash, Structural)]
pub enum KeyUsage {
    Signature,
    Encryption,
}

/// The family of each algorithm.
pub open spec fn spec_family_of(alg: Alg) -> KeyFamily {
    match alg {
        Alg::HmacSha256 => KeyFamily::Hmac,
        Alg::RsaSha256 => KeyFamily::Rsa,
        Alg::RsaSha384 => KeyFamily::Rsa,
        Alg::EcdsaP256 => KeyFamily::Ec,
        Alg::Unsigned => KeyFamily::NoKey,
    }
}

/// Returns the family of `alg`.
pub fn family_of(alg: Alg) -> (r: KeyFamily)
    ensures
        r == spec_family_of(alg),
{
    match alg {
        Alg::HmacSha256 => KeyFamily::Hmac,
        Alg::RsaSha256 => KeyFamily::Rsa,
        Alg::RsaSha384 => KeyFamily::Rsa,
        Alg::EcdsaP256 => KeyFamily::Ec,
        Alg::Unsigned => KeyFamily::NoKey,
    }
}

/// The JOSE `alg` header name of each algorithm.
pub open spec fn spec_alg_name(alg: Alg) -> Seq<u8> {
    match alg {
        Alg::HmacSha256 => seq![72u8, 83u8, 50u8, 53u8, 54u8],  // "HS256"
        Alg::RsaSha256 => seq![82u8, 83u8, 50u8, 53u8, 54u8],  // "RS256"
        Alg::RsaSha384 => seq![82u8, 83u8, 51u8, 56u8, 52u8],  // "RS384"
        Alg::EcdsaP256 => seq![69u8, 83u8, 50u8, 53u8, 54u8],  // "ES256"
        Alg::Unsigned => seq![110u8, 111u8, 110u8, 101u8],  // "none"
    }
}

/// Returns the JOSE `alg` header name of `alg` as bytes.
pub fn alg_name(alg: Alg) -> (r: Vec<u8>)
    ensures
        r@ == spec_alg_name(alg),
{
    let mut r: Vec<u8> = Vec::new();
    match alg {
        Alg::HmacSha256 => {
            r.push(72);
            r.push(83);
            r.push(50);
            r.push(53);
            r.push(54);
        },
        Alg::RsaSha256 => {
            r.push(82);
            r.push(83);
            r.push(50);
            r.push(53);
            r.push(54);
        },
        Alg::RsaSha384 => {
            r.push(82);
            r.push(83);
            r.push(51);
            r.push(56);
            r.push(52);
        },
        Alg::EcdsaP256 => {
            r.push(69);
            r.push(83);
            r.push(50);
            r.push(53);
            r.push(54);
        },
        Alg::Unsigned => {
            r.push(110);
            r.push(111);
            r.push(110);
            r.push(101);
        },
    }
    proof {
        assert(r@ =~= spec_alg_name(alg));
    }
    r
}

/// Equality of two byte sequences, used by the name lookups.
pub fn bytes_eq(a: &[u8], b: &[u8]) -> (r: bool)
    ensures
        r == (a@ == b@),
{
    if a.len() != b.len() {
        proof {
            assert(a@.len() != b@.len());
        }
        return false;
    }
    let mut i: usize = 0;
    while i < a.len()
        invariant
            0 <= i <= a.len(),
            a.len() == b.len(),
            forall|j: int| 0 <= j < i ==> a@[j] == b@[j],
        decreases a.len() - i,
    {
        if a[i] != b[i] {
            return false;
        }
        i += 1;
    }
    proof {
        assert(a@ =~= b@);
    }
    true
}

} // verus!
