//! Plain-value HTTP helpers: content-type inspection and the bearer
//! authorization header.
//!
//! Responses are inspected via `Content-Type`, matched on the type/subtype
//! essence only: parameters such as charset are ignored, and the match is
//! case-insensitive, as RFC 7231 requires of media types.

use vstd::prelude::*;

use vstd::string::{StrSliceExecFns, StringExecFns, StringSliceAdditionalSpecFns};

verus! {

pub const MIME_TYPE_JSON: &'static str = "application/json";

pub const MIME_TYPE_JWKS: &'static str = "application/jwk-set+json";

pub const MIME_TYPE_JWT: &'static str = "application/jwt";

pub const BEARER: &'static str = "Bearer";

/// An outgoing request, as plain values for the transport collaborator.
pub struct HttpRequest {
    pub method: String,
    pub url: String,
    pub headers: Vec<(String, String)>,
    pub body: Vec<u8>,
}

/// A transport response, as plain values: status code, headers and the full
/// body.
pub struct HttpResponse {
    pub status: u16,
    pub headers: Vec<(String, String)>,
    pub body: Vec<u8>,
}

/// ASCII lower-casing of one byte.
pub open spec fn spec_ascii_lower(b: u8) -> u8 {
    if 65 <= b && b <= 90 {
        (b + 32) as u8
    } else {
        b
    }
}

/// ASCII lower-casing of a byte string.
pub open spec fn spec_lower_bytes(s: Seq<u8>) -> Seq<u8> {
    Seq::new(s.len(), |i: int| spec_ascii_lower(s[i]))
}

/// The index of the first semicolon of `s`, or its length when there is
/// none: where the media-type essence ends.
pub open spec fn spec_find_semi(s: Seq<u8>) -> int
    decreases s.len(),
{
    if s.len() == 0 {
        0
    } else if s[0] == 59 {
        0
    } else {
        1 + spec_find_semi(s.drop_first())
    }
}

/// [`spec_find_semi`] is characterized by its first-occurrence properties.
proof fn lemma_find_semi_at(s: Seq<u8>, m: int)
    requires
        0 <= m <= s.len(),
        forall|j: int| 0 <= j < m ==> s[j] != 59,
        m < s.len() ==> s[m] == 59,
        m == s.len() || s[m] == 59,
    ensures
        spec_find_semi(s) == m,
    decreases s.len(),
{
    if s.len() > 0 && s[0] != 59 {
        lemma_find_semi_at(s.drop_first(), m - 1);
    }
}

/// Whether `ct` has the media-type essence `expected`: the part of `ct`
/// before any parameter equals `expected` up to ASCII case.
pub open spec fn spec_essence_matches(ct: Seq<u8>, expected: Seq<u8>) -> bool {
    spec_lower_bytes(ct.take(spec_find_semi(ct))) == spec_lower_bytes(expected)
}

/// Compares two byte strings up to ASCII case.
fn lower_eq(a: &[u8], b: &[u8]) -> (r: bool)
    ensures
        r == (spec_lower_bytes(a@) == spec_lower_bytes(b@)),
{
    if a.len() != b.len() {
        proof {
            assert(spec_lower_bytes(a@).len() != spec_lower_bytes(b@).len());
        }
        return false;
    }
    let mut i: usize = 0;
    while i < a.len()
        invariant
            0 <= i <= a@.len(),
            a@.len() == b@.len(),
            forall|j: int| 0 <= j < i ==> spec_ascii_lower(a@[j]) == spec_ascii_lower(b@[j]),
        decreases a@.len() - i,
    {
        let x = if 65 <= a[i] && a[i] <= 90 {
            a[i] + 32
        } else {
            a[i]
        };
        let y = if 65 <= b[i] && b[i] <= 90 {
            b[i] + 32
        } else {
            b[i]
        };
        if x != y {
            proof {
                assert(spec_lower_bytes(a@)[i as int] != spec_lower_bytes(b@)[i as int]);
            }
            return false;
        }
        i += 1;
    }
    proof {
        assert(spec_lower_bytes(a@) =~= spec_lower_bytes(b@));
    }
    true
}

/// Whether `content_type` has the essence `expected_essence`: the
/// type/subtype part, compared case-insensitively, parameters ignored.
pub fn content_type_has_essence(content_type: &str, expected_essence: &str) -> (r: bool)
    ensures
        r == spec_essence_matches(content_type.spec_bytes(), expected_essence.spec_bytes()),
{
    let ct = content_type.as_bytes();
    let mut semi: usize = 0;
    while semi < ct.len() && ct[semi] != 59
        invariant
            0 <= semi <= ct@.len(),
            forall|j: int| 0 <= j < semi ==> ct@[j] != 59,
        decreases ct@.len() - semi,
    {
        semi += 1;
    }
    proof {
        lemma_find_semi_at(ct@, semi as int);
    }
    let essence = vstd::slice::slice_subrange(ct, 0, semi);
    proof {
        assert(essence@ =~= ct@.take(spec_find_semi(ct@)));
    }
    lower_eq(essence, expected_essence.as_bytes())
}

/// The value of the first `Content-Type` header, matched by name up to
/// ASCII case.
pub open spec fn spec_content_type(headers: Seq<(String, String)>) -> Option<String>
    decreases headers.len(),
{
    if headers.len() == 0 {
        None
    } else if spec_lower_bytes(vstd::utf8::encode_utf8(headers[0].0@)) == spec_lower_bytes(
        "content-type".spec_bytes(),
    ) {
        Some(headers[0].1)
    } else {
        spec_content_type(headers.drop_first())
    }
}

/// Finds the first `Content-Type` header of a response.
pub fn content_type_header(headers: &Vec<(String, String)>) -> (r: Option<&String>)
    ensures
        match r {
            Some(v) => spec_content_type(headers@) == Some(*v),
            None => spec_content_type(headers@) is None,
        },
{
    let mut i: usize = 0;
    while i < headers.len()
        invariant
            0 <= i <= headers@.len(),
            forall|j: int| #![auto]
                0 <= j < i ==> spec_lower_bytes(vstd::utf8::encode_utf8(headers@[j].0@))
                    != spec_lower_bytes("content-type".spec_bytes()),
        decreases headers@.len() - i,
    {
        if lower_eq(headers[i].0.as_str().as_bytes(), "content-type".as_bytes()) {
            proof {
                lemma_content_type_at(headers@, i as int);
            }
            return Some(&headers[i].1);
        }
        i += 1;
    }
    proof {
        lemma_content_type_none(headers@, headers@.len() as int);
    }
    None
}

/// [`spec_content_type`] finds the first matching header.
proof fn lemma_content_type_at(headers: Seq<(String, String)>, m: int)
    requires
        0 <= m < headers.len(),
        forall|j: int| #![auto]
            0 <= j < m ==> spec_lower_bytes(vstd::utf8::encode_utf8(headers[j].0@))
                != spec_lower_bytes("content-type".spec_bytes()),
        spec_lower_bytes(vstd::utf8::encode_utf8(headers[m].0@)) == spec_lower_bytes(
            "content-type".spec_bytes(),
        ),
    ensures
        spec_content_type(headers) == Some(headers[m].1),
    decreases headers.len(),
{
    if m > 0 {
        lemma_content_type_at(headers.drop_first(), m - 1);
    }
}

/// Without a matching name among the first `m` headers and none after,
/// there is no content type.
proof fn lemma_content_type_none(headers: Seq<(String, String)>, m: int)
    requires
        m == headers.len(),
        forall|j: int| #![auto]
            0 <= j < m ==> spec_lower_bytes(vstd::utf8::encode_utf8(headers[j].0@))
                != spec_lower_bytes("content-type".spec_bytes()),
    ensures
        spec_content_type(headers) is None,
    decreases headers.len(),
{
    if headers.len() > 0 {
        lemma_content_type_none(headers.drop_first(), m - 1);
    }
}

/// Whether any header of the response is named `Content-Type`, up to
/// ASCII case.
pub open spec fn spec_has_content_type(headers: Seq<(String, String)>) -> bool {
    exists|i: int| #![auto]
        0 <= i < headers.len() && spec_lower_bytes(vstd::utf8::encode_utf8(headers[i].0@))
            == spec_lower_bytes("content-type".spec_bytes())
}

/// Whether some `Content-Type` header value has the expected essence.
pub open spec fn spec_some_content_type_matches(
    headers: Seq<(String, String)>,
    expected: Seq<u8>,
) -> bool {
    exists|i: int| #![auto]
        0 <= i < headers.len() && spec_lower_bytes(vstd::utf8::encode_utf8(headers[i].0@))
            == spec_lower_bytes("content-type".spec_bytes()) && spec_essence_matches(
            vstd::utf8::encode_utf8(headers[i].1@),
            expected,
        )
}

/// Checks a response's declared content type: a response without one
/// passes, and one with any `Content-Type` value of the expected essence
/// passes — media types are case-insensitive and may carry parameters, and
/// a header may carry several values.
pub fn check_content_type(response: &HttpResponse, expected_content_type: &str) -> (r: Result<
    (),
    String,
>)
    ensures
        r is Ok <==> !spec_has_content_type(response.headers@) || spec_some_content_type_matches(
            response.headers@,
            expected_content_type.spec_bytes(),
        ),
{
    let mut has_ct = false;
    let mut matched = false;
    let mut first_value: Option<&String> = None;
    let headers = &response.headers;
    let mut i: usize = 0;
    while i < headers.len()
        invariant
            0 <= i <= headers@.len(),
            has_ct == exists|j: int| #![auto]
                0 <= j < i && spec_lower_bytes(vstd::utf8::encode_utf8(headers@[j].0@))
                    == spec_lower_bytes("content-type".spec_bytes()),
            matched == exists|j: int| #![auto]
                0 <= j < i && spec_lower_bytes(vstd::utf8::encode_utf8(headers@[j].0@))
                    == spec_lower_bytes("content-type".spec_bytes()) && spec_essence_matches(
                    vstd::utf8::encode_utf8(headers@[j].1@),
                    expected_content_type.spec_bytes(),
                ),
        decreases headers@.len() - i,
    {
        if lower_eq(headers[i].0.as_str().as_bytes(), "content-type".as_bytes()) {
            has_ct = true;
            if first_value.is_none() {
                first_value = Some(&headers[i].1);
            }
            if content_type_has_essence(headers[i].1.as_str(), expected_content_type) {
                matched = true;
            }
        }
        i += 1;
    }
    if !has_ct || matched {
        Ok(())
    } else {
        let mut msg = String::from_str("Unexpected response Content-Type: `");
        match first_value {
            Some(v) => msg.append(v.as_str()),
            None => {},
        }
        msg.append("`, should be `");
        msg.append(expected_content_type);
        msg.append("`");
        Err(msg)
    }
}

/// The `Authorization: Bearer <token>` header pair for a request that
/// carries bearer credentials.
pub fn auth_bearer(access_token: &str) -> (r: (String, String))
    ensures
        r.0@ == "Authorization"@,
        r.1@ == "Bearer "@ + access_token@,
{
    let mut value = String::from_str("Bearer ");
    value.append(access_token);
    (String::from_str("Authorization"), value)
}

} // verus!
