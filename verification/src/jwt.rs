//! The JSON Web Token container: the compact wire format, its parser, the
//! canonical claims serializer, and token signing.
//!
//! The wire format is `base64url(header) "." base64url(payload) "."
//! base64url(signature)`; a token under the `none` algorithm keeps the
//! trailing separator with an empty signature segment. The signature always
//! covers the exact wire bytes of the first two segments: the engine never
//! re-serializes and compares.

use vstd::prelude::*;

use crate::alg::{alg_name, spec_alg_name, spec_family_of, Alg, KeyUsage};
use crate::b64::{b64url_decode, b64url_encode, spec_b64url};
use crate::claims::TokenClaims;
use crate::crypto::{
    ecdsa_p256_public_sec1_of, ecdsa_p256_sign, ecdsa_p256_sign_ok, ecdsa_p256_verifies,
    hmac_sha256, hmac_sha256_of, rsa_public_der_of, rsa_sha256_priv_ok, rsa_sha256_sign,
    rsa_sha256_verifies, rsa_sha384_priv_ok, rsa_sha384_sign, rsa_sha384_verifies,
};
use crate::errors::VerificationError;
use crate::json::{doc_member_present, doc_member_str, json_member_str_of, spec_is_base_claim, spec_member_str_ok};
use crate::keys::Key;
use vstd::slice::{slice_subrange, slice_to_vec};
use vstd::utf8::encode_utf8;

verus! {

/// The UTF-8 bytes of a string value.
pub open spec fn str_bytes(s: Seq<char>) -> Seq<u8> {
    encode_utf8(s)
}

/// The view of an optional key id.
pub open spec fn spec_opt_kid(o: Option<String>) -> Option<Seq<char>> {
    match o {
        Some(s) => Some(s@),
        None => None,
    }
}

// ---------------------------------------------------------------------------
// JSON emission
// ---------------------------------------------------------------------------
/// The lower-case hex digit of a value below 16.
pub open spec fn spec_hex_digit(n: u8) -> u8 {
    if n < 10 {
        (48 + n) as u8
    } else {
        (87 + n) as u8
    }
}

/// The escaping of one byte inside a JSON string: quote and backslash get a
/// backslash, control bytes become `\u00XX`, and every other byte stands as
/// it is (UTF-8 continuation bytes all lie above the control range).
pub open spec fn spec_escape_byte(b: u8) -> Seq<u8> {
    if b == 34 {
        seq![92u8, 34u8]
    } else if b == 92 {
        seq![92u8, 92u8]
    } else if b < 32 {
        seq![92u8, 117u8, 48u8, 48u8, spec_hex_digit(b / 16), spec_hex_digit(b % 16)]
    } else {
        seq![b]
    }
}

/// The JSON escaping of a byte string.
pub open spec fn spec_json_escape(s: Seq<u8>) -> Seq<u8>
    decreases s.len(),
{
    if s.len() == 0 {
        Seq::empty()
    } else {
        spec_escape_byte(s[0]) + spec_json_escape(s.drop_first())
    }
}

/// A JSON string literal: quote, escaped content, quote.
pub open spec fn spec_json_string(s: Seq<u8>) -> Seq<u8> {
    seq![34u8] + spec_json_escape(s) + seq![34u8]
}

/// The decimal digits of a natural number.
pub open spec fn spec_dec_nat(n: nat) -> Seq<u8>
    decreases n,
{
    if n < 10 {
        seq![(48 + n) as u8]
    } else {
        spec_dec_nat(n / 10) + seq![(48 + n % 10) as u8]
    }
}

/// The decimal text of an integer, with a leading minus for negatives.
pub open spec fn spec_dec_int(n: int) -> Seq<u8> {
    if n >= 0 {
        spec_dec_nat(n as nat)
    } else {
        seq![45u8] + spec_dec_nat((-n) as nat)
    }
}

/// Appends `b` to `out`.
pub fn push_bytes(out: &mut Vec<u8>, b: &[u8])
    ensures
        final(out)@ == old(out)@ + b@,
{
    let mut i: usize = 0;
    while i < b.len()
        invariant
            0 <= i <= b@.len(),
            out@ == old(out)@ + b@.take(i as int),
        decreases b@.len() - i,
    {
        out.push(b[i]);
        proof {
            assert(old(out)@ + b@.take(i + 1) =~= (old(out)@ + b@.take(i as int)).push(
                b@[i as int],
            ));
        }
        i += 1;
    }
    proof {
        assert(b@.take(b@.len() as int) =~= b@);
    }
}

/// Appends the JSON escaping of `s` to `out`.
pub fn push_escaped(out: &mut Vec<u8>, s: &[u8])
    ensures
        final(out)@ == old(out)@ + spec_json_escape(s@),
    decreases s@.len(),
{
    if s.len() == 0 {
        proof {
            assert(out@ =~= old(out)@ + spec_json_escape(s@));
        }
        return ;
    }
    let b = s[0];
    if b == 34 {
        out.push(92);
        out.push(34);
    } else if b == 92 {
        out.push(92);
        out.push(92);
    } else if b < 32 {
        out.push(92);
        out.push(117);
        out.push(48);
        out.push(48);
        out.push(if b / 16 < 10 {
            48 + b / 16
        } else {
            87 + b / 16
        });
        out.push(if b % 16 < 10 {
            48 + b % 16
        } else {
            87 + b % 16
        });
    } else {
        out.push(b);
    }
    proof {
        assert(out@ =~= old(out)@ + spec_escape_byte(s@[0]));
    }
    let rest = slice_subrange(s, 1, s.len());
    push_escaped(out, rest);
    proof {
        assert(rest@ =~= s@.drop_first());
        assert(out@ =~= old(out)@ + spec_json_escape(s@));
    }
}

/// Appends the JSON string literal of `s` to `out`.
pub fn push_json_string(out: &mut Vec<u8>, s: &[u8])
    ensures
        final(out)@ == old(out)@ + spec_json_string(s@),
{
    out.push(34);
    push_escaped(out, s);
    out.push(34);
    proof {
        assert(out@ =~= old(out)@ + spec_json_string(s@));
    }
}

/// Appends the decimal digits of `n` to `out`.
pub fn push_dec_u64(out: &mut Vec<u8>, n: u64)
    ensures
        final(out)@ == old(out)@ + spec_dec_nat(n as nat),
    decreases n,
{
    if n < 10 {
        out.push(48 + n as u8);
        proof {
            assert(out@ =~= old(out)@ + spec_dec_nat(n as nat));
        }
    } else {
        push_dec_u64(out, n / 10);
        out.push(48 + (n % 10) as u8);
        proof {
            assert(out@ =~= old(out)@ + spec_dec_nat(n as nat));
        }
    }
}

/// Appends the decimal text of `t` to `out`.
pub fn push_dec_i64(out: &mut Vec<u8>, t: i64)
    ensures
        final(out)@ == old(out)@ + spec_dec_int(t as int),
{
    if t >= 0 {
        push_dec_u64(out, t as u64);
    } else {
        out.push(45);
        let m: u64 = if t == i64::MIN {
            9223372036854775808u64
        } else {
            (-t) as u64
        };
        push_dec_u64(out, m);
        proof {
            assert(out@ =~= old(out)@ + spec_dec_int(t as int));
        }
    }
}

/// The serialized audience array items, comma separated.
pub open spec fn spec_audience_items(auds: Seq<String>) -> Seq<u8>
    decreases auds.len(),
{
    if auds.len() == 0 {
        Seq::empty()
    } else if auds.len() == 1 {
        spec_json_string(str_bytes(auds[0]@))
    } else {
        spec_json_string(str_bytes(auds[0]@)) + seq![44u8] + spec_audience_items(auds.drop_first())
    }
}

/// Appends the audience items from index `i` on.
fn push_audience_items(out: &mut Vec<u8>, auds: &Vec<String>, i: usize)
    requires
        i <= auds@.len(),
    ensures
        final(out)@ == old(out)@ + spec_audience_items(auds@.skip(i as int)),
    decreases auds@.len() - i,
{
    if i == auds.len() {
        proof {
            assert(out@ =~= old(out)@ + spec_audience_items(auds@.skip(i as int)));
        }
        return ;
    }
    push_json_string(out, auds[i].as_str().as_bytes());
    if i + 1 < auds.len() {
        out.push(44);
    }
    push_audience_items(out, auds, i + 1);
    proof {
        assert(auds@.skip(i as int).drop_first() =~= auds@.skip(i + 1));
        assert(auds@.skip(i as int)[0] == auds@[i as int]);
        assert(out@ =~= old(out)@ + spec_audience_items(auds@.skip(i as int)));
    }
}

/// The serialized additional-claim members, each with a leading comma, with
/// any member whose name collides with a base claim filtered out: the
/// mandatory claims always win, and the filtering is structural.
pub open spec fn spec_additional_members(extra: Seq<(String, String)>) -> Seq<u8>
    decreases extra.len(),
{
    if extra.len() == 0 {
        Seq::empty()
    } else {
        (if spec_is_base_claim(str_bytes(extra[0].0@)) {
            Seq::<u8>::empty()
        } else {
            seq![44u8] + spec_json_string(str_bytes(extra[0].0@)) + seq![58u8] + str_bytes(
                extra[0].1@,
            )
        }) + spec_additional_members(extra.drop_first())
    }
}

/// Appends the additional-claim members from index `i` on.
fn push_additional_members(out: &mut Vec<u8>, extra: &Vec<(String, String)>, i: usize)
    requires
        i <= extra@.len(),
    ensures
        final(out)@ == old(out)@ + spec_additional_members(extra@.skip(i as int)),
    decreases extra@.len() - i,
{
    if i == extra.len() {
        proof {
            assert(out@ =~= old(out)@ + spec_additional_members(extra@.skip(i as int)));
        }
        return ;
    }
    if !crate::json::is_base_claim_bytes(extra[i].0.as_str().as_bytes()) {
        out.push(44);
        push_json_string(out, extra[i].0.as_str().as_bytes());
        out.push(58);
        push_bytes(out, extra[i].1.as_str().as_bytes());
    }
    push_additional_members(out, extra, i + 1);
    proof {
        assert(extra@.skip(i as int).drop_first() =~= extra@.skip(i + 1));
        assert(extra@.skip(i as int)[0] == extra@[i as int]);
        assert(out@ =~= old(out)@ + spec_additional_members(extra@.skip(i as int)));
    }
}

/// An optional string-valued member with a leading comma.
pub open spec fn spec_member_str(name: Seq<char>, v: Option<String>) -> Seq<u8> {
    match v {
        Some(s) => seq![44u8] + spec_json_string(str_bytes(name)) + seq![58u8] + spec_json_string(
            str_bytes(s@),
        ),
        None => Seq::<u8>::empty(),
    }
}

/// An optional integer-valued member with a leading comma.
pub open spec fn spec_member_int(name: Seq<char>, v: Option<i64>) -> Seq<u8> {
    match v {
        Some(t) => seq![44u8] + spec_json_string(str_bytes(name)) + seq![58u8] + spec_dec_int(
            t as int,
        ),
        None => Seq::<u8>::empty(),
    }
}

/// An optional member holding a byte string, with a leading comma.
pub open spec fn spec_member_bytes(name: Seq<char>, v: Option<Vec<u8>>) -> Seq<u8> {
    match v {
        Some(h) => seq![44u8] + spec_json_string(str_bytes(name)) + seq![58u8] + spec_json_string(
            h@,
        ),
        None => Seq::<u8>::empty(),
    }
}

/// The audience member: an array even for a single audience, absent when
/// there is none.
pub open spec fn spec_member_aud(auds: Seq<String>) -> Seq<u8> {
    if auds.len() > 0 {
        seq![44u8] + spec_json_string(str_bytes("aud"@)) + seq![58u8] + seq![91u8]
            + spec_audience_items(auds) + seq![93u8]
    } else {
        Seq::<u8>::empty()
    }
}

fn push_member_str(out: &mut Vec<u8>, name: &str, v: &Option<String>)
    ensures
        final(out)@ == old(out)@ + spec_member_str(name@, *v),
{
    match v {
        Some(s) => {
            out.push(44);
            push_json_string(out, name.as_bytes());
            out.push(58);
            push_json_string(out, s.as_str().as_bytes());
            proof {
                assert(out@ =~= old(out)@ + spec_member_str(name@, *v));
            }
        },
        None => {},
    }
}

fn push_member_int(out: &mut Vec<u8>, name: &str, v: &Option<i64>)
    ensures
        final(out)@ == old(out)@ + spec_member_int(name@, *v),
{
    match v {
        Some(t) => {
            out.push(44);
            push_json_string(out, name.as_bytes());
            out.push(58);
            push_dec_i64(out, *t);
            proof {
                assert(out@ =~= old(out)@ + spec_member_int(name@, *v));
            }
        },
        None => {},
    }
}

fn push_member_bytes(out: &mut Vec<u8>, name: &str, v: &Option<Vec<u8>>)
    ensures
        final(out)@ == old(out)@ + spec_member_bytes(name@, *v),
{
    match v {
        Some(h) => {
            out.push(44);
            push_json_string(out, name.as_bytes());
            out.push(58);
            push_json_string(out, h.as_slice());
            proof {
                assert(out@ =~= old(out)@ + spec_member_bytes(name@, *v));
            }
        },
        None => {},
    }
}

fn push_member_aud(out: &mut Vec<u8>, auds: &Vec<String>)
    ensures
        final(out)@ == old(out)@ + spec_member_aud(auds@),
{
    if auds.len() > 0 {
        out.push(44);
        push_json_string(out, "aud".as_bytes());
        out.push(58);
        out.push(91);
        push_audience_items(out, auds, 0);
        out.push(93);
        proof {
            assert(auds@.skip(0) =~= auds@);
            assert(out@ =~= old(out)@ + spec_member_aud(auds@));
        }
    }
}

/// The canonical claims serialization: the union of the mandatory claims
/// and the additional claims, an additional claim losing to a mandatory one
/// on a name collision. The audiences are serialized as an array even when
/// there is only one.
#[verifier::opaque]
pub open spec fn spec_claims_json(c: TokenClaims) -> Seq<u8> {
    seq![123u8] + spec_json_string(str_bytes("sub"@)) + seq![58u8] + spec_json_string(
        str_bytes(c.subject@),
    ) + spec_member_str("iss"@, c.issuer) + spec_member_aud(c.audiences@) + spec_member_int(
        "exp"@,
        c.expiry,
    ) + spec_member_int("iat"@, c.issued_at) + spec_member_str("nonce"@, c.nonce)
        + spec_member_bytes("at_hash"@, c.access_token_hash) + spec_member_str(
        "azp"@,
        c.authorized_party,
    ) + spec_additional_members(c.additional@) + seq![125u8]
}

/// Serializes a claims record to its canonical JSON text.
#[verifier::rlimit(100)]
pub fn claims_to_json(c: &TokenClaims) -> (r: Vec<u8>)
    ensures
        r@ == spec_claims_json(*c),
{
    let mut out: Vec<u8> = Vec::new();
    out.push(123);
    push_json_string(&mut out, "sub".as_bytes());
    out.push(58);
    push_json_string(&mut out, c.subject.as_str().as_bytes());
    push_member_str(&mut out, "iss", &c.issuer);
    push_member_aud(&mut out, &c.audiences);
    push_member_int(&mut out, "exp", &c.expiry);
    push_member_int(&mut out, "iat", &c.issued_at);
    push_member_str(&mut out, "nonce", &c.nonce);
    push_member_bytes(&mut out, "at_hash", &c.access_token_hash);
    push_member_str(&mut out, "azp", &c.authorized_party);
    push_additional_members(&mut out, &c.additional, 0);
    proof {
        assert(c.additional@.skip(0) =~= c.additional@);
    }
    out.push(125);
    proof {
        reveal(spec_claims_json);
        assert(out@ =~= spec_claims_json(*c));
    }
    out
}

/// The serialized JOSE header: the algorithm name and, when the signing key
/// carries one, the key id.
#[verifier::opaque]
pub open spec fn spec_header_json(alg: Alg, kid: Option<Seq<char>>) -> Seq<u8> {
    seq![123u8] + spec_json_string(str_bytes("alg"@)) + seq![58u8] + spec_json_string(
        spec_alg_name(alg),
    ) + (match kid {
        Some(k) => seq![44u8] + spec_json_string(str_bytes("kid"@)) + seq![58u8]
            + spec_json_string(str_bytes(k)),
        None => Seq::<u8>::empty(),
    }) + seq![125u8]
}

/// Serializes the JOSE header.
pub fn header_to_json(alg: Alg, kid: &Option<String>) -> (r: Vec<u8>)
    ensures
        r@ == spec_header_json(alg, spec_opt_kid(*kid)),
{
    let mut out: Vec<u8> = Vec::new();
    out.push(123);
    push_json_string(&mut out, "alg".as_bytes());
    out.push(58);
    let name = alg_name(alg);
    push_json_string(&mut out, name.as_slice());
    match kid {
        Some(k) => {
            out.push(44);
            push_json_string(&mut out, "kid".as_bytes());
            out.push(58);
            push_json_string(&mut out, k.as_str().as_bytes());
        },
        None => {},
    }
    out.push(125);
    proof {
        reveal(spec_header_json);
        assert(out@ =~= spec_header_json(alg, spec_opt_kid(*kid)));
    }
    out
}

// ---------------------------------------------------------------------------
// The token container
// ---------------------------------------------------------------------------
/// The parsed JOSE header: the declared algorithm name (matched against the
/// allow-list before any key access) and the optional key id.
#[derive(Debug)]
pub struct JoseHeader {
    pub alg_name: Vec<u8>,
    pub key_id: Option<String>,
}

/// A parsed (or freshly signed) token. The wire segments are kept exactly
/// as received, so that the signature is checked over the original bytes.
#[derive(Debug)]
pub struct JsonWebToken {
    pub header: JoseHeader,
    pub header_b64: Vec<u8>,
    pub payload_b64: Vec<u8>,
    pub sig_b64: Vec<u8>,
    pub payload: Vec<u8>,
    pub signature: Vec<u8>,
}

impl JsonWebToken {
    /// The exact wire bytes the signature covers.
    pub open spec fn spec_signing_input(self) -> Seq<u8> {
        self.header_b64@ + seq![46u8] + self.payload_b64@
    }

    /// The compact serialization of the whole token.
    pub open spec fn spec_compact(self) -> Seq<u8> {
        self.header_b64@ + seq![46u8] + self.payload_b64@ + seq![46u8] + self.sig_b64@
    }

    /// The decoded fields match the wire segments.
    pub open spec fn wf(self) -> bool {
        &&& self.payload_b64@ == spec_b64url(self.payload@)
        &&& self.sig_b64@ == spec_b64url(self.signature@)
    }

    /// Returns the bytes the signature covers.
    pub fn signing_input(&self) -> (r: Vec<u8>)
        ensures
            r@ == self.spec_signing_input(),
    {
        let mut out: Vec<u8> = Vec::new();
        push_bytes(&mut out, self.header_b64.as_slice());
        out.push(46);
        push_bytes(&mut out, self.payload_b64.as_slice());
        proof {
            assert(out@ =~= self.spec_signing_input());
        }
        out
    }

    /// Returns the compact serialization.
    pub fn compact(&self) -> (r: Vec<u8>)
        ensures
            r@ == self.spec_compact(),
    {
        let mut out: Vec<u8> = Vec::new();
        push_bytes(&mut out, self.header_b64.as_slice());
        out.push(46);
        push_bytes(&mut out, self.payload_b64.as_slice());
        out.push(46);
        push_bytes(&mut out, self.sig_b64.as_slice());
        proof {
            assert(out@ =~= self.spec_compact());
        }
        out
    }
}

/// The shape a decoded JOSE header must have: a string `alg` member, and a
/// `kid` member that is a string when present at all.
pub open spec fn spec_header_shape_ok(hb: Seq<u8>) -> bool {
    &&& json_member_str_of(hb, "alg"@) is Some
    &&& spec_member_str_ok(hb, "kid"@)
}

/// Whether `bytes` is a well-formed compact serialization: three
/// canonically encoded segments joined by dots, whose header has the JOSE
/// shape.
pub open spec fn spec_compact_shape_ok(bytes: Seq<u8>) -> bool {
    exists|hb: Seq<u8>, pb: Seq<u8>, sb: Seq<u8>| #![auto]
        bytes == spec_b64url(hb) + seq![46u8] + spec_b64url(pb) + seq![46u8] + spec_b64url(sb)
            && spec_header_shape_ok(hb)
}

/// In a three-segment compact serialization the dots stand exactly at the
/// two separator positions.
proof fn lemma_compact_dot_positions(h: Seq<u8>, p: Seq<u8>, s: Seq<u8>, w: Seq<u8>)
    requires
        w == h + seq![46u8] + p + seq![46u8] + s,
        forall|i: int| 0 <= i < h.len() ==> h[i] != 46,
        forall|i: int| 0 <= i < p.len() ==> p[i] != 46,
        forall|i: int| 0 <= i < s.len() ==> s[i] != 46,
    ensures
        w.len() == h.len() + p.len() + s.len() + 2,
        forall|j: int|
            0 <= j < w.len() ==> (w[j] == 46 <==> (j == h.len() || j == h.len() + 1 + p.len())),
{
    assert forall|j: int|
        0 <= j < w.len() implies (w[j] == 46 <==> (j == h.len() || j == h.len() + 1
        + p.len())) by {
        if j < h.len() {
            assert(w[j] == h[j]);
        } else if j == h.len() {
            assert(w[j] == 46);
        } else if j < h.len() + 1 + p.len() {
            assert(w[j] == p[j - h.len() - 1]);
        } else if j == h.len() + 1 + p.len() {
            assert(w[j] == 46);
        } else {
            assert(w[j] == s[j - h.len() - p.len() - 2]);
        }
    }
}

/// The facts [`spec_compact_shape_ok`] gives about a concrete witness.
proof fn lemma_compact_witness(bytes: Seq<u8>) -> (w: (Seq<u8>, Seq<u8>, Seq<u8>))
    requires
        spec_compact_shape_ok(bytes),
    ensures
        bytes == spec_b64url(w.0) + seq![46u8] + spec_b64url(w.1) + seq![46u8] + spec_b64url(w.2),
        spec_header_shape_ok(w.0),
        forall|i: int| 0 <= i < spec_b64url(w.0).len() ==> spec_b64url(w.0)[i] != 46,
        forall|i: int| 0 <= i < spec_b64url(w.1).len() ==> spec_b64url(w.1)[i] != 46,
        forall|i: int| 0 <= i < spec_b64url(w.2).len() ==> spec_b64url(w.2)[i] != 46,
        bytes.len() == spec_b64url(w.0).len() + spec_b64url(w.1).len() + spec_b64url(w.2).len()
            + 2,
        forall|j: int|
            0 <= j < bytes.len() ==> (bytes[j] == 46 <==> (j == spec_b64url(w.0).len() || j
                == spec_b64url(w.0).len() + 1 + spec_b64url(w.1).len())),
{
    let (hb, pb, sb) = choose|hb: Seq<u8>, pb: Seq<u8>, sb: Seq<u8>| #![auto]
        bytes == spec_b64url(hb) + seq![46u8] + spec_b64url(pb) + seq![46u8] + spec_b64url(sb)
            && spec_header_shape_ok(hb);
    crate::b64::lemma_b64url_no_dot(hb);
    crate::b64::lemma_b64url_no_dot(pb);
    crate::b64::lemma_b64url_no_dot(sb);
    lemma_compact_dot_positions(spec_b64url(hb), spec_b64url(pb), spec_b64url(sb), bytes);
    (hb, pb, sb)
}

/// Parses a compact serialization into its three segments, decodes them,
/// and reads the JOSE header.
///
/// Parsing succeeds exactly on well-formed inputs: the wire bytes must
/// hold exactly two dots, every segment must decode under base64url, and
/// the header must carry a string `alg` member (`kid`, when present, must
/// be a string too); every failure is `InvalidFormat`. On success the
/// token's segments reassemble the input exactly, hold no dot, and the
/// header fields are the document's members.
pub fn parse_compact(bytes: &[u8]) -> (r: Result<JsonWebToken, VerificationError>)
    ensures
        r matches Ok(t) ==> t.wf() && bytes@ == t.spec_compact(),
        r matches Ok(t) ==> (forall|i: int| 0 <= i < t.header_b64@.len() ==> t.header_b64@[i] != 46)
            && (forall|i: int| 0 <= i < t.payload_b64@.len() ==> t.payload_b64@[i] != 46) && (
        forall|i: int| 0 <= i < t.sig_b64@.len() ==> t.sig_b64@[i] != 46),
        r matches Ok(t) ==> exists|hb: Seq<u8>| #![auto]
            t.header_b64@ == spec_b64url(hb) && spec_header_shape_ok(hb) && (
            match json_member_str_of(hb, "alg"@) {
                Some(a) => t.header.alg_name@ == str_bytes(a),
                None => false,
            }) && (match json_member_str_of(hb, "kid"@) {
                Some(k) => t.header.key_id matches Some(ks) && ks@ == k,
                None => t.header.key_id is None,
            }),
        r matches Err(e) ==> e == VerificationError::InvalidFormat,
        r matches Ok(t) ==> spec_parsed_token(bytes@, t),
        spec_compact_shape_ok(bytes@) ==> r is Ok,
{
    let n = bytes.len();
    let mut dot_count: usize = 0;
    let mut p1: usize = 0;
    let mut p2: usize = 0;
    let mut i: usize = 0;
    while i < n
        invariant
            0 <= i <= n,
            n == bytes@.len(),
            dot_count <= 2,
            dot_count == 0 ==> forall|j: int| 0 <= j < i ==> bytes@[j] != 46,
            dot_count == 1 ==> 0 <= p1 < i && bytes@[p1 as int] == 46 && forall|j: int|
                0 <= j < i && j != p1 ==> bytes@[j] != 46,
            dot_count == 2 ==> 0 <= p1 < p2 < i && bytes@[p1 as int] == 46 && bytes@[p2 as int]
                == 46 && forall|j: int| 0 <= j < i && j != p1 && j != p2 ==> bytes@[j] != 46,
        decreases n - i,
    {
        if bytes[i] == 46 {
            if dot_count == 0 {
                p1 = i;
            } else if dot_count == 1 {
                p2 = i;
            } else {
                proof {
                    if spec_compact_shape_ok(bytes@) {
                        let w = lemma_compact_witness(bytes@);
                        assert(false);
                    }
                }
                return Err(VerificationError::InvalidFormat);
            }
            dot_count += 1;
        }
        i += 1;
    }
    if dot_count != 2 {
        proof {
            if spec_compact_shape_ok(bytes@) {
                let w = lemma_compact_witness(bytes@);
                assert(bytes@[spec_b64url(w.0).len() as int] == 46);
                assert(bytes@[spec_b64url(w.0).len() + 1 + spec_b64url(w.1).len() as int] == 46);
                assert(false);
            }
        }
        return Err(VerificationError::InvalidFormat);
    }
    proof {
        if spec_compact_shape_ok(bytes@) {
            let w = lemma_compact_witness(bytes@);
            assert(p1 == spec_b64url(w.0).len());
            assert(p2 == spec_b64url(w.0).len() + 1 + spec_b64url(w.1).len());
        }
    }
    let seg0 = slice_subrange(bytes, 0, p1);
    let seg1 = slice_subrange(bytes, p1 + 1, p2);
    let seg2 = slice_subrange(bytes, p2 + 1, n);
    proof {
        if spec_compact_shape_ok(bytes@) {
            let w = lemma_compact_witness(bytes@);
            assert(seg0@ =~= spec_b64url(w.0));
            assert(seg1@ =~= spec_b64url(w.1));
            assert(seg2@ =~= spec_b64url(w.2));
        }
    }
    let header_json = match b64url_decode(seg0) {
        Some(v) => v,
        None => {
            return Err(VerificationError::InvalidFormat);
        },
    };
    let payload = match b64url_decode(seg1) {
        Some(v) => v,
        None => {
            return Err(VerificationError::InvalidFormat);
        },
    };
    let signature = match b64url_decode(seg2) {
        Some(v) => v,
        None => {
            return Err(VerificationError::InvalidFormat);
        },
    };
    proof {
        if spec_compact_shape_ok(bytes@) {
            let w = lemma_compact_witness(bytes@);
            assert(seg0@ =~= spec_b64url(w.0));
            assert(header_json@ == w.0);
        }
    }
    let alg_text = match doc_member_str(header_json.as_slice(), "alg") {
        Some(s) => s,
        None => {
            return Err(VerificationError::InvalidFormat);
        },
    };
    let key_id = match doc_member_str(header_json.as_slice(), "kid") {
        Some(s) => Some(s),
        None => {
            if doc_member_present(header_json.as_slice(), "kid") {
                proof {
                    if spec_compact_shape_ok(bytes@) {
                        let w = lemma_compact_witness(bytes@);
                        assert(seg0@ =~= spec_b64url(w.0));
                        assert(header_json@ == w.0);
                    }
                }
                return Err(VerificationError::InvalidFormat);
            }
            None
        },
    };
    let t = JsonWebToken {
        header: JoseHeader { alg_name: alg_text.as_str().as_bytes_vec(), key_id },
        header_b64: slice_to_vec(seg0),
        payload_b64: slice_to_vec(seg1),
        sig_b64: slice_to_vec(seg2),
        payload,
        signature,
    };
    proof {
        assert(bytes@ =~= t.spec_compact());
        assert(t.header_b64@ == spec_b64url(header_json@) && spec_header_shape_ok(header_json@)
            && (match json_member_str_of(header_json@, "alg"@) {
            Some(a) => t.header.alg_name@ == str_bytes(a),
            None => false,
        }) && (match json_member_str_of(header_json@, "kid"@) {
            Some(k) => t.header.key_id matches Some(ks) && ks@ == k,
            None => t.header.key_id is None,
        }));
    }
    Ok(t)
}

/// Splitting at a separator that occurs in neither left part is
/// unambiguous.
proof fn lemma_split_unique(x: Seq<u8>, y: Seq<u8>, x2: Seq<u8>, y2: Seq<u8>)
    requires
        x + seq![46u8] + y == x2 + seq![46u8] + y2,
        forall|i: int| 0 <= i < x.len() ==> x[i] != 46,
        forall|i: int| 0 <= i < x2.len() ==> x2[i] != 46,
    ensures
        x == x2,
        y == y2,
{
    let s = x + seq![46u8] + y;
    let s2 = x2 + seq![46u8] + y2;
    if x.len() < x2.len() {
        assert(s[x.len() as int] == 46);
        assert(s2[x.len() as int] == x2[x.len() as int]);
        assert(false);
    }
    if x2.len() < x.len() {
        assert(s2[x2.len() as int] == 46);
        assert(s[x2.len() as int] == x[x2.len() as int]);
        assert(false);
    }
    assert forall|i: int| 0 <= i < x.len() implies x[i] == x2[i] by {
        assert(s[i] == x[i]);
        assert(s2[i] == x2[i]);
    }
    assert(x =~= x2);
    assert(s.len() == x.len() + 1 + y.len());
    assert(s2.len() == x2.len() + 1 + y2.len());
    assert(s.len() == s2.len());
    assert(y.len() == y2.len());
    assert forall|i: int| 0 <= i < y.len() implies y[i] == y2[i] by {
        assert(s[x.len() + 1 + i] == y[i]);
        assert(s2[x.len() + 1 + i] == y2[i]);
    }
    assert(y =~= y2);
}

/// The compact serialization decomposes uniquely: two three-segment
/// decompositions whose first two segments are dot-free and whose wire
/// bytes agree are the same decomposition.
pub proof fn lemma_compact_decomposition_unique(
    a: Seq<u8>,
    b: Seq<u8>,
    c: Seq<u8>,
    a2: Seq<u8>,
    b2: Seq<u8>,
    c2: Seq<u8>,
)
    requires
        a + seq![46u8] + b + seq![46u8] + c == a2 + seq![46u8] + b2 + seq![46u8] + c2,
        forall|i: int| 0 <= i < a.len() ==> a[i] != 46,
        forall|i: int| 0 <= i < a2.len() ==> a2[i] != 46,
        forall|i: int| 0 <= i < b.len() ==> b[i] != 46,
        forall|i: int| 0 <= i < b2.len() ==> b2[i] != 46,
    ensures
        a == a2,
        b == b2,
        c == c2,
{
    assert(a + seq![46u8] + (b + seq![46u8] + c) =~= a + seq![46u8] + b + seq![46u8] + c);
    assert(a2 + seq![46u8] + (b2 + seq![46u8] + c2) =~= a2 + seq![46u8] + b2 + seq![46u8] + c2);
    lemma_split_unique(a, b + seq![46u8] + c, a2, b2 + seq![46u8] + c2);
    lemma_split_unique(b, c, b2, c2);
}

/// Parsing the compact form of a signed token recovers exactly the signed
/// token's segments and decoded fields: with
/// [`crate::verify::lemma_sign_verify_round_trip`], the wire round trip is
/// pinned down to the JSON codec. The hypotheses on `t2` are what
/// [`parse_compact`] ensures of its result.
pub proof fn lemma_parse_recovers_signed_token(
    t: JsonWebToken,
    t2: JsonWebToken,
    k: Key,
    alg: Alg,
    c: TokenClaims,
)
    requires
        spec_signed_by(t, k, alg, c),
        t2.wf(),
        t2.spec_compact() == t.spec_compact(),
        forall|i: int| 0 <= i < t2.header_b64@.len() ==> t2.header_b64@[i] != 46,
        forall|i: int| 0 <= i < t2.payload_b64@.len() ==> t2.payload_b64@[i] != 46,
    ensures
        t2.header_b64@ == t.header_b64@,
        t2.payload_b64@ == t.payload_b64@,
        t2.sig_b64@ == t.sig_b64@,
        t2.payload@ == t.payload@,
        t2.signature@ == t.signature@,
{
    crate::b64::lemma_b64url_no_dot(spec_header_json(alg, spec_opt_kid(k.key_id)));
    crate::b64::lemma_b64url_no_dot(t.payload@);
    lemma_compact_decomposition_unique(
        t2.header_b64@,
        t2.payload_b64@,
        t2.sig_b64@,
        t.header_b64@,
        t.payload_b64@,
        t.sig_b64@,
    );
    crate::b64::lemma_b64url_injective(t2.payload@, t.payload@);
    crate::b64::lemma_b64url_injective(t2.signature@, t.signature@);
}

/// What [`parse_compact`] establishes of its output: a well-formed token
/// whose dot-free segments reassemble the wire bytes exactly and whose
/// header fields are the decoded header document's members.
pub open spec fn spec_parsed_token(bytes: Seq<u8>, t: JsonWebToken) -> bool {
    &&& t.wf()
    &&& bytes == t.spec_compact()
    &&& (forall|i: int| 0 <= i < t.header_b64@.len() ==> t.header_b64@[i] != 46)
    &&& (forall|i: int| 0 <= i < t.payload_b64@.len() ==> t.payload_b64@[i] != 46)
    &&& (forall|i: int| 0 <= i < t.sig_b64@.len() ==> t.sig_b64@[i] != 46)
    &&& exists|hb: Seq<u8>| #![auto]
        t.header_b64@ == spec_b64url(hb) && spec_header_shape_ok(hb) && (
        match json_member_str_of(hb, "alg"@) {
            Some(a) => t.header.alg_name@ == str_bytes(a),
            None => false,
        }) && (match json_member_str_of(hb, "kid"@) {
            Some(k) => t.header.key_id matches Some(ks) && ks@ == k,
            None => t.header.key_id is None,
        })
}

/// A parsed token is evidence that the wire bytes had the compact shape.
pub proof fn lemma_parsed_token_shape(bytes: Seq<u8>, t: JsonWebToken)
    requires
        spec_parsed_token(bytes, t),
    ensures
        spec_compact_shape_ok(bytes),
{
    let hb = choose|hb: Seq<u8>| #![auto]
        t.header_b64@ == spec_b64url(hb) && spec_header_shape_ok(hb) && (
        match json_member_str_of(hb, "alg"@) {
            Some(a) => t.header.alg_name@ == str_bytes(a),
            None => false,
        }) && (match json_member_str_of(hb, "kid"@) {
            Some(k) => t.header.key_id matches Some(ks) && ks@ == k,
            None => t.header.key_id is None,
        });
    assert(bytes == spec_b64url(hb) + seq![46u8] + spec_b64url(t.payload@) + seq![46u8]
        + spec_b64url(t.signature@) && spec_header_shape_ok(hb));
}

/// Two parsed tokens of the same wire bytes agree on every field the
/// verifier reads: the decomposition is unique, the decodings are pinned
/// by injectivity, and the header members are functions of the header
/// document.
pub proof fn lemma_parsed_token_unique(bytes: Seq<u8>, t1: JsonWebToken, t2: JsonWebToken)
    requires
        spec_parsed_token(bytes, t1),
        spec_parsed_token(bytes, t2),
    ensures
        t1.header_b64@ == t2.header_b64@,
        t1.payload_b64@ == t2.payload_b64@,
        t1.sig_b64@ == t2.sig_b64@,
        t1.payload@ == t2.payload@,
        t1.signature@ == t2.signature@,
        t1.header.alg_name@ == t2.header.alg_name@,
        spec_opt_kid(t1.header.key_id) == spec_opt_kid(t2.header.key_id),
        t1.spec_signing_input() == t2.spec_signing_input(),
{
    lemma_compact_decomposition_unique(
        t1.header_b64@,
        t1.payload_b64@,
        t1.sig_b64@,
        t2.header_b64@,
        t2.payload_b64@,
        t2.sig_b64@,
    );
    crate::b64::lemma_b64url_injective(t1.payload@, t2.payload@);
    crate::b64::lemma_b64url_injective(t1.signature@, t2.signature@);
    let hb1 = choose|hb: Seq<u8>| #![auto]
        t1.header_b64@ == spec_b64url(hb) && spec_header_shape_ok(hb) && (
        match json_member_str_of(hb, "alg"@) {
            Some(a) => t1.header.alg_name@ == str_bytes(a),
            None => false,
        }) && (match json_member_str_of(hb, "kid"@) {
            Some(k) => t1.header.key_id matches Some(ks) && ks@ == k,
            None => t1.header.key_id is None,
        });
    let hb2 = choose|hb: Seq<u8>| #![auto]
        t2.header_b64@ == spec_b64url(hb) && spec_header_shape_ok(hb) && (
        match json_member_str_of(hb, "alg"@) {
            Some(a) => t2.header.alg_name@ == str_bytes(a),
            None => false,
        }) && (match json_member_str_of(hb, "kid"@) {
            Some(k) => t2.header.key_id matches Some(ks) && ks@ == k,
            None => t2.header.key_id is None,
        });
    crate::b64::lemma_b64url_injective(hb1, hb2);
    assert(t1.spec_signing_input() =~= t2.spec_signing_input());
}

// ---------------------------------------------------------------------------
// Signing
// ---------------------------------------------------------------------------
/// Whether `sig` is valid under `alg` for the verification key material
/// `material` over `input`. Under the `none` algorithm validity means the
/// signature is empty.
pub open spec fn spec_sig_ok(alg: Alg, material: Seq<u8>, input: Seq<u8>, sig: Seq<u8>) -> bool {
    match alg {
        Alg::HmacSha256 => sig == hmac_sha256_of(material, input),
        Alg::RsaSha256 => rsa_sha256_verifies(material, input, sig),
        Alg::RsaSha384 => rsa_sha384_verifies(material, input, sig),
        Alg::EcdsaP256 => ecdsa_p256_verifies(material, input, sig),
        Alg::Unsigned => sig.len() == 0,
    }
}

/// The verification-side key material matching the signing-side material of
/// `alg`: HMAC shares its secret, the asymmetric families publish the
/// public part.
pub open spec fn spec_verifying_material(alg: Alg, material: Seq<u8>) -> Seq<u8> {
    match alg {
        Alg::HmacSha256 => material,
        Alg::RsaSha256 => rsa_public_der_of(material),
        Alg::RsaSha384 => rsa_public_der_of(material),
        Alg::EcdsaP256 => ecdsa_p256_public_sec1_of(material),
        Alg::Unsigned => material,
    }
}

/// What [`sign_token`] guarantees of its output: a well-formed token whose
/// header declares `alg` and carries the key's id, whose payload is the
/// canonical serialization of `c`, and whose signature is valid over the
/// exact signing input under the verification material of `k`.
pub open spec fn spec_signed_by(t: JsonWebToken, k: Key, alg: Alg, c: TokenClaims) -> bool {
    &&& t.wf()
    &&& t.header.alg_name@ == spec_alg_name(alg)
    &&& spec_opt_kid(t.header.key_id) == spec_opt_kid(k.key_id)
    &&& t.header_b64@ == spec_b64url(spec_header_json(alg, spec_opt_kid(k.key_id)))
    &&& t.payload@ == spec_claims_json(c)
    &&& spec_sig_ok(alg, spec_verifying_material(alg, k.material@), t.spec_signing_input(), t.signature@)
}

/// Signs the claims under `key` and `alg`, producing a structured token
/// whose compact form is `t.compact()`.
///
/// Signing under HMAC or the `none` algorithm always succeeds; under the
/// asymmetric families it fails with `CryptoError` when the key material
/// does not parse as a private key of the family.
pub fn sign_token(c: &TokenClaims, key: &Key, alg: Alg) -> (r: Result<
    JsonWebToken,
    VerificationError,
>)
    requires
        key.usage == KeyUsage::Signature,
        key.family == spec_family_of(alg),
    ensures
        r matches Ok(t) ==> spec_signed_by(t, *key, alg, *c),
        alg == Alg::HmacSha256 || alg == Alg::Unsigned ==> r is Ok,
        alg == Alg::RsaSha256 ==> (r is Ok <==> rsa_sha256_priv_ok(key.material@)),
        alg == Alg::RsaSha384 ==> (r is Ok <==> rsa_sha384_priv_ok(key.material@)),
        alg == Alg::EcdsaP256 ==> (r is Ok <==> ecdsa_p256_sign_ok(
            key.material@,
            spec_b64url(spec_header_json(alg, spec_opt_kid(key.key_id))) + seq![46u8]
                + spec_b64url(spec_claims_json(*c)),
        )),
        r matches Err(e) ==> e == VerificationError::CryptoError,
{
    let header_json = header_to_json(alg, &key.key_id);
    let payload_json = claims_to_json(c);
    let header_b64 = b64url_encode(header_json.as_slice());
    let payload_b64 = b64url_encode(payload_json.as_slice());
    let mut input: Vec<u8> = Vec::new();
    push_bytes(&mut input, header_b64.as_slice());
    input.push(46);
    push_bytes(&mut input, payload_b64.as_slice());
    let signature: Vec<u8> = match alg {
        Alg::HmacSha256 => hmac_sha256(key.material.as_slice(), input.as_slice()),
        Alg::RsaSha256 => match rsa_sha256_sign(key.material.as_slice(), input.as_slice()) {
            Some(s) => s,
            None => {
                return Err(VerificationError::CryptoError);
            },
        },
        Alg::RsaSha384 => match rsa_sha384_sign(key.material.as_slice(), input.as_slice()) {
            Some(s) => s,
            None => {
                return Err(VerificationError::CryptoError);
            },
        },
        Alg::EcdsaP256 => match ecdsa_p256_sign(key.material.as_slice(), input.as_slice()) {
            Some(s) => s,
            None => {
                proof {
                    assert(input@ =~= spec_b64url(
                        spec_header_json(alg, spec_opt_kid(key.key_id)),
                    ) + seq![46u8] + spec_b64url(spec_claims_json(*c)));
                }
                return Err(VerificationError::CryptoError);
            },
        },
        Alg::Unsigned => Vec::new(),
    };
    proof {
        assert(input@ =~= spec_b64url(spec_header_json(alg, spec_opt_kid(key.key_id)))
            + seq![46u8] + spec_b64url(spec_claims_json(*c)));
    }
    let sig_b64 = b64url_encode(signature.as_slice());
    let kid = match &key.key_id {
        Some(s) => Some(s.clone()),
        None => None,
    };
    let t = JsonWebToken {
        header: JoseHeader { alg_name: alg_name(alg), key_id: kid },
        header_b64,
        payload_b64,
        sig_b64,
        payload: payload_json,
        signature,
    };
    proof {
        assert(t.spec_signing_input() =~= input@);
    }
    Ok(t)
}

} // verus!
