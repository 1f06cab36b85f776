//! The JSON boundary: trusted wrappers around `serde_json` and the verified
//! extraction of claims records from parsed documents.
//!
//! A parsed document is opaque to the verifier, so nothing is promised about
//! the values the wrappers hand out; everything the engine decides about
//! them afterwards (presence, emptiness, shape) is verified code.

use serde_json::Value;
use vstd::prelude::*;

use crate::alg::bytes_eq;
use crate::claims::TokenClaims;
use vstd::string::StrSliceExecFns;

verus! {

#[verifier::external_type_specification]
#[verifier::external_body]
pub struct ExValue(serde_json::Value);

/// Relies on `serde_json::from_slice`: parses one JSON document, rejecting
/// malformed input.
#[verifier::external_body]
pub fn json_parse(bytes: &[u8]) -> Option<Value> {
    serde_json::from_slice::<Value>(bytes).ok()
}





/// The JSON text of a string value: quoted and escaped, a function of the
/// characters alone.
pub uninterp spec fn json_quoted_of(s: Seq<char>) -> Seq<char>;

/// Relies on `serde_json::Value`'s `to_string` on a string value: the
/// quoted, escaped JSON text, depending on the characters alone.
#[verifier::external_body]
pub fn json_quote(s: &str) -> (r: String)
    ensures
        r@ == json_quoted_of(s@),
{
    serde_json::Value::String(s.to_owned()).to_string()
}


/// Relies on `serde_json::Value::as_object`: the members of an object
/// value, in sorted key order (the crate's default map is ordered by key).
#[verifier::external_body]
pub fn json_as_object(v: &Value) -> Option<Vec<(String, Value)>> {
    v.as_object().map(|m| m.iter().map(|(k, val)| (k.clone(), val.clone())).collect())
}

/// Relies on `serde_json::Value`'s `to_string`: the JSON text of a value.
#[verifier::external_body]
pub fn json_value_text(v: &Value) -> String {
    v.to_string()
}

/// Whether `doc` parses as a JSON document whose top level is an object.
pub uninterp spec fn json_doc_is_object(doc: Seq<u8>) -> bool;

/// Whether the document at `doc` is an object with a member `name`.
pub uninterp spec fn json_member_present(doc: Seq<u8>, name: Seq<char>) -> bool;

/// The characters of the member `name` of the document at `doc`, when the
/// document parses, is an object, carries that member, and the member is a
/// string.
pub uninterp spec fn json_member_str_of(doc: Seq<u8>, name: Seq<char>) -> Option<Seq<char>>;

/// As [`json_member_str_of`], for a member that is an integer fitting an
/// `i64`.
pub uninterp spec fn json_member_i64_of(doc: Seq<u8>, name: Seq<char>) -> Option<int>;

/// As [`json_member_str_of`], for a boolean member.
pub uninterp spec fn json_member_bool_of(doc: Seq<u8>, name: Seq<char>) -> Option<bool>;

/// The audiences of the document at `doc`: the empty sequence when `aud`
/// is absent, the singleton for a string member, the element characters
/// for an array of strings, and nothing when the member has any other
/// shape (or the document is not an object).
pub uninterp spec fn json_audiences_of(doc: Seq<u8>) -> Option<Seq<Seq<char>>>;

/// The views of a sequence of strings.
pub open spec fn strs_view(s: Seq<String>) -> Seq<Seq<char>> {
    Seq::new(s.len(), |i: int| s[i]@)
}

/// Relies on `serde_json::from_slice` and `Value::is_object`: whether the
/// bytes parse as a JSON object.
#[verifier::external_body]
pub fn doc_is_object(bytes: &[u8]) -> (r: bool)
    ensures
        r == json_doc_is_object(bytes@),
{
    serde_json::from_slice::<Value>(bytes).map(|v| v.is_object()).unwrap_or(false)
}

/// Relies on `serde_json::from_slice` and `Value::get`: whether the parsed
/// object carries the member.
#[verifier::external_body]
pub fn doc_member_present(bytes: &[u8], name: &str) -> (r: bool)
    ensures
        r == json_member_present(bytes@, name@),
{
    match serde_json::from_slice::<Value>(bytes) {
        Ok(v) => v.get(name).is_some(),
        Err(_) => false,
    }
}

/// Relies on `serde_json::from_slice`, `Value::get` and `Value::as_str`:
/// reads a string member straight from the document bytes; the result is a
/// function of the bytes and the name alone.
#[verifier::external_body]
pub fn doc_member_str(bytes: &[u8], name: &str) -> (r: Option<String>)
    ensures
        r matches Some(s) ==> json_member_str_of(bytes@, name@) == Some(s@),
        r is None ==> json_member_str_of(bytes@, name@) is None,
{
    let v = match serde_json::from_slice::<Value>(bytes) {
        Ok(v) => v,
        Err(_) => return None,
    };
    v.get(name).and_then(|m| m.as_str()).map(|s| s.to_owned())
}

/// As [`doc_member_str`], through `Value::as_i64`.
#[verifier::external_body]
pub fn doc_member_i64(bytes: &[u8], name: &str) -> (r: Option<i64>)
    ensures
        r matches Some(t) ==> json_member_i64_of(bytes@, name@) == Some(t as int),
        r is None ==> json_member_i64_of(bytes@, name@) is None,
{
    let v = match serde_json::from_slice::<Value>(bytes) {
        Ok(v) => v,
        Err(_) => return None,
    };
    v.get(name).and_then(|m| m.as_i64())
}

/// As [`doc_member_str`], through `Value::as_bool`.
#[verifier::external_body]
pub fn doc_member_bool(bytes: &[u8], name: &str) -> (r: Option<bool>)
    ensures
        r matches Some(b) ==> json_member_bool_of(bytes@, name@) == Some(b),
        r is None ==> json_member_bool_of(bytes@, name@) is None,
{
    let v = match serde_json::from_slice::<Value>(bytes) {
        Ok(v) => v,
        Err(_) => return None,
    };
    v.get(name).and_then(|m| m.as_bool())
}

/// Relies on `serde_json::from_slice`, `Value::get`, `Value::as_str` and
/// `Value::as_array`: the audiences of the document, reading `aud` as a
/// single string or an array of strings.
#[verifier::external_body]
pub fn doc_audiences(bytes: &[u8]) -> (r: Option<Vec<String>>)
    ensures
        r matches Some(v) ==> json_audiences_of(bytes@) == Some(strs_view(v@)),
        r is None ==> json_audiences_of(bytes@) is None,
{
    let v = match serde_json::from_slice::<Value>(bytes) {
        Ok(v) if v.is_object() => v,
        _ => return None,
    };
    match v.get("aud") {
        None => Some(Vec::new()),
        Some(Value::String(s)) => Some(vec![s.clone()]),
        Some(Value::Array(items)) => items.iter().map(
            |item| item.as_str().map(|s| s.to_owned()),
        ).collect(),
        Some(_) => None,
    }
}

/// Whether the member, when present, has the string shape.
pub open spec fn spec_member_str_ok(doc: Seq<u8>, name: Seq<char>) -> bool {
    json_member_present(doc, name) ==> json_member_str_of(doc, name) is Some
}

/// Whether the member, when present, has the integer shape.
pub open spec fn spec_member_i64_ok(doc: Seq<u8>, name: Seq<char>) -> bool {
    json_member_present(doc, name) ==> json_member_i64_of(doc, name) is Some
}

/// Whether the member, when present, has the boolean shape.
pub open spec fn spec_member_bool_ok(doc: Seq<u8>, name: Seq<char>) -> bool {
    json_member_present(doc, name) ==> json_member_bool_of(doc, name) is Some
}

/// Whether the document has the claims shape: a JSON object with a
/// non-empty string subject, audiences of a recognized shape, and every
/// optional base member — when present — of its expected shape. With
/// `id_token` set, issuer, expiry and a non-empty audience list are
/// mandatory.
pub open spec fn spec_token_doc_ok(doc: Seq<u8>, id_token: bool) -> bool {
    &&& json_doc_is_object(doc)
    &&& (match json_member_str_of(doc, "sub"@) {
        Some(s) => s.len() > 0,
        None => false,
    })
    &&& spec_member_str_ok(doc, "iss"@)
    &&& json_audiences_of(doc) is Some
    &&& spec_member_i64_ok(doc, "exp"@)
    &&& spec_member_i64_ok(doc, "iat"@)
    &&& spec_member_str_ok(doc, "nonce"@)
    &&& spec_member_str_ok(doc, "at_hash"@)
    &&& spec_member_str_ok(doc, "azp"@)
    &&& (id_token ==> json_member_str_of(doc, "iss"@) is Some && json_member_i64_of(doc, "exp"@) is Some
        && (match json_audiences_of(doc) {
        Some(a) => a.len() > 0,
        None => false,
    }))
}

/// Whether a claims record holds exactly what the document's base members
/// say, member by member, over the JSON names.
pub open spec fn spec_claims_match_doc(c: TokenClaims, doc: Seq<u8>) -> bool {
    &&& json_member_str_of(doc, "sub"@) == Some(c.subject@)
    &&& (match json_member_str_of(doc, "iss"@) {
        Some(s) => c.issuer matches Some(i) && i@ == s,
        None => c.issuer is None,
    })
    &&& (match json_audiences_of(doc) {
        Some(a) => strs_view(c.audiences@) == a,
        None => false,
    })
    &&& (match json_member_i64_of(doc, "exp"@) {
        Some(t) => c.expiry matches Some(x) && x == t,
        None => c.expiry is None,
    })
    &&& (match json_member_i64_of(doc, "iat"@) {
        Some(t) => c.issued_at matches Some(x) && x == t,
        None => c.issued_at is None,
    })
    &&& (match json_member_str_of(doc, "nonce"@) {
        Some(s) => c.nonce matches Some(n) && n@ == s,
        None => c.nonce is None,
    })
    &&& (match json_member_str_of(doc, "at_hash"@) {
        Some(s) => c.access_token_hash matches Some(h) && h@ == vstd::utf8::encode_utf8(s),
        None => c.access_token_hash is None,
    })
    &&& (match json_member_str_of(doc, "azp"@) {
        Some(s) => c.authorized_party matches Some(z) && z@ == s,
        None => c.authorized_party is None,
    })
}

/// Reads an optional string member: absent is fine, a present member of
/// another shape is malformed.
pub fn opt_str_member(bytes: &[u8], name: &str) -> (r: Result<Option<String>, ()>)
    ensures
        r matches Ok(o) ==> (match json_member_str_of(bytes@, name@) {
            Some(s) => o matches Some(v) && v@ == s,
            None => o is None,
        }),
        r is Ok <==> spec_member_str_ok(bytes@, name@),
{
    match doc_member_str(bytes, name) {
        Some(s) => Ok(Some(s)),
        None => {
            if doc_member_present(bytes, name) {
                Err(())
            } else {
                Ok(None)
            }
        },
    }
}

/// As [`opt_str_member`], for an integer member.
pub fn opt_i64_member(bytes: &[u8], name: &str) -> (r: Result<Option<i64>, ()>)
    ensures
        r matches Ok(o) ==> (match json_member_i64_of(bytes@, name@) {
            Some(t) => o matches Some(x) && x == t,
            None => o is None,
        }),
        r is Ok <==> spec_member_i64_ok(bytes@, name@),
{
    match doc_member_i64(bytes, name) {
        Some(t) => Ok(Some(t)),
        None => {
            if doc_member_present(bytes, name) {
                Err(())
            } else {
                Ok(None)
            }
        },
    }
}

/// As [`opt_str_member`], for a boolean member.
pub fn opt_bool_member(bytes: &[u8], name: &str) -> (r: Result<Option<bool>, ()>)
    ensures
        r matches Ok(o) ==> (match json_member_bool_of(bytes@, name@) {
            Some(b) => o matches Some(x) && x == b,
            None => o is None,
        }),
        r is Ok <==> spec_member_bool_ok(bytes@, name@),
{
    match doc_member_bool(bytes, name) {
        Some(b) => Ok(Some(b)),
        None => {
            if doc_member_present(bytes, name) {
                Err(())
            } else {
                Ok(None)
            }
        },
    }
}

/// Whether `name` (as UTF-8 bytes) is one of the base claims the engine
/// itself reads, and so never an additional claim.
pub open spec fn spec_is_base_claim(name: Seq<u8>) -> bool {
    ||| name == vstd::utf8::encode_utf8("iss"@)
    ||| name == vstd::utf8::encode_utf8("aud"@)
    ||| name == vstd::utf8::encode_utf8("sub"@)
    ||| name == vstd::utf8::encode_utf8("exp"@)
    ||| name == vstd::utf8::encode_utf8("iat"@)
    ||| name == vstd::utf8::encode_utf8("nonce"@)
    ||| name == vstd::utf8::encode_utf8("at_hash"@)
    ||| name == vstd::utf8::encode_utf8("azp"@)
}

/// Decides [`spec_is_base_claim`] on a byte string.
pub fn is_base_claim_bytes(b: &[u8]) -> (r: bool)
    ensures
        r == spec_is_base_claim(b@),
{
    bytes_eq(b, "iss".as_bytes()) || bytes_eq(b, "aud".as_bytes()) || bytes_eq(
        b,
        "sub".as_bytes(),
    ) || bytes_eq(b, "exp".as_bytes()) || bytes_eq(b, "iat".as_bytes()) || bytes_eq(
        b,
        "nonce".as_bytes(),
    ) || bytes_eq(b, "at_hash".as_bytes()) || bytes_eq(b, "azp".as_bytes())
}

/// Whether `name` is a base claim.
fn is_base_claim(name: &str) -> (r: bool)
    ensures
        r == spec_is_base_claim(vstd::utf8::encode_utf8(name@)),
{
    is_base_claim_bytes(name.as_bytes())
}


/// Extracts a claims record from the JSON text `bytes`.
///
/// Succeeds exactly on documents of the claims shape
/// ([`spec_token_doc_ok`]), and the returned record holds what the
/// document's base members say ([`spec_claims_match_doc`]); members the
/// engine does not read are collected as additional claims. A member of
/// the wrong shape is malformed, even beside a valid signature.
pub fn parse_token_claims(bytes: &[u8], id_token: bool) -> (r: Option<TokenClaims>)
    ensures
        r is Some <==> spec_token_doc_ok(bytes@, id_token),
        r matches Some(c) ==> spec_claims_match_doc(c, bytes@),
        r matches Some(c) ==> c.subject@.len() > 0,
        id_token ==> (r matches Some(c) ==> c.wf() && c.issuer is Some && c.expiry is Some),
{
    if !doc_is_object(bytes) {
        return None;
    }
    let subject = match doc_member_str(bytes, "sub") {
        Some(s) => s,
        None => {
            return None;
        },
    };
    if subject.as_str().is_empty() {
        return None;
    }
    let issuer = match opt_str_member(bytes, "iss") {
        Ok(o) => o,
        Err(()) => {
            return None;
        },
    };
    let audiences = match doc_audiences(bytes) {
        Some(a) => a,
        None => {
            return None;
        },
    };
    let expiry = match opt_i64_member(bytes, "exp") {
        Ok(o) => o,
        Err(()) => {
            return None;
        },
    };
    let issued_at = match opt_i64_member(bytes, "iat") {
        Ok(o) => o,
        Err(()) => {
            return None;
        },
    };
    let nonce = match opt_str_member(bytes, "nonce") {
        Ok(o) => o,
        Err(()) => {
            return None;
        },
    };
    let access_token_hash = match opt_str_member(bytes, "at_hash") {
        Ok(Some(s)) => Some(s.as_str().as_bytes_vec()),
        Ok(None) => None,
        Err(()) => {
            return None;
        },
    };
    let authorized_party = match opt_str_member(bytes, "azp") {
        Ok(o) => o,
        Err(()) => {
            return None;
        },
    };
    if id_token && (issuer.is_none() || expiry.is_none() || audiences.len() == 0) {
        return None;
    }
    let mut additional: Vec<(String, String)> = Vec::new();
    match json_parse(bytes) {
        Some(doc) => match json_as_object(&doc) {
            Some(members) => {
                let mut i: usize = 0;
                while i < members.len()
                    decreases members@.len() - i,
                {
                    if !is_base_claim(members[i].0.as_str()) {
                        let text = json_value_text(&members[i].1);
                        let name = members[i].0.clone();
                        additional.push((name, text));
                    }
                    i += 1;
                }
            },
            None => {},
        },
        None => {},
    }
    proof {
        assert(strs_view(audiences@) =~= strs_view(audiences@));
    }
    Some(
        TokenClaims {
            issuer,
            audiences,
            subject,
            expiry,
            issued_at,
            nonce,
            access_token_hash,
            authorized_party,
            additional,
        },
    )
}

} // verus!
