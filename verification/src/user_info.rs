//! UserInfo requests, claims and verification.
//!
//! A UserInfo response arrives in one of two shapes, dispatched on the
//! declared content type: plain JSON claims (no signature step), or a
//! signed JWT that runs the full signature-then-policy path with a
//! narrower claims policy — no nonce or access-token-hash checks, issuer
//! and audience checks off unless demanded, and a subject cross-check
//! against the trusted subject of the preceding ID Token verification.

use vstd::prelude::*;

pub use crate::errors::UserInfoError;

use crate::alg::{spec_family_of, Alg, KeyUsage};
use crate::claims::TokenClaims;
use crate::errors::{ClaimsVerificationError, VerificationError};
use crate::http_utils::{
    auth_bearer, content_type_has_essence, content_type_header, spec_content_type,
    spec_essence_matches, HttpRequest, HttpResponse, MIME_TYPE_JSON, MIME_TYPE_JWT,
};
use crate::json::{
    doc_audiences, doc_member_str, is_base_claim_bytes, json_as_object, json_audiences_of,
    json_member_bool_of, json_member_str_of, json_parse, json_quote, json_quoted_of,
    json_value_text, opt_bool_member, opt_str_member, parse_token_claims, spec_claims_match_doc,
    spec_member_bool_ok, spec_member_str_ok, spec_token_doc_ok, strs_view,
};
use serde_json::Value;
use crate::jwt::{
    lemma_parsed_token_shape, lemma_parsed_token_unique, parse_compact, sign_token,
    spec_compact_shape_ok, spec_opt_kid, spec_parsed_token, spec_signed_by, JsonWebToken,
};
use crate::keys::{Key, KeySet};
use crate::policy::{check_claims, spec_check_claims, spec_subject_ok, ClaimsPolicy};
use crate::verify::{
    lemma_check_claims_congruent, lemma_verify_signature_congruent, spec_verify_signature,
    verify_signature,
};
use vstd::string::{StrSliceExecFns, StringExecFns, StringSliceAdditionalSpecFns};

verus! {

/// The standard profile claims of a UserInfo response; every field but the
/// subject is optional.
#[derive(Debug, PartialEq, Eq)]
pub struct StandardClaims {
    pub sub: String,
    pub name: Option<String>,
    pub given_name: Option<String>,
    pub family_name: Option<String>,
    pub middle_name: Option<String>,
    pub nickname: Option<String>,
    pub preferred_username: Option<String>,
    pub profile: Option<String>,
    pub picture: Option<String>,
    pub website: Option<String>,
    pub email: Option<String>,
    pub email_verified: Option<bool>,
    pub gender: Option<String>,
    pub birthday: Option<String>,
    pub zoneinfo: Option<String>,
    pub locale: Option<String>,
    pub phone_number: Option<String>,
    pub phone_number_verified: Option<bool>,
    pub updated_at: Option<String>,
}

impl StandardClaims {
    /// Creates a claims record holding only the subject.
    pub fn new(sub: String) -> (r: StandardClaims)
        ensures
            r.sub == sub,
            r.name is None,
            r.email is None,
    {
        StandardClaims {
            sub,
            name: None,
            given_name: None,
            family_name: None,
            middle_name: None,
            nickname: None,
            preferred_username: None,
            profile: None,
            picture: None,
            website: None,
            email: None,
            email_verified: None,
            gender: None,
            birthday: None,
            zoneinfo: None,
            locale: None,
            phone_number: None,
            phone_number_verified: None,
            updated_at: None,
        }
    }
}

/// User info claims: the optional issuer and audiences, the standard
/// claims, and caller-defined additional claims as name/value pairs of
/// JSON text.
#[derive(Debug, PartialEq, Eq)]
pub struct UserInfoClaims {
    pub issuer: Option<String>,
    pub audiences: Option<Vec<String>>,
    pub standard_claims: StandardClaims,
    pub additional_claims: Vec<(String, String)>,
}

/// Clones an optional string, preserving its view.
fn clone_opt_string(o: &Option<String>) -> (r: Option<String>)
    ensures
        spec_opt_kid(r) == spec_opt_kid(*o),
{
    match o {
        Some(s) => Some(s.clone()),
        None => None,
    }
}

/// Whether an optional string field holds exactly what an optional member
/// says.
pub open spec fn spec_opt_str_matches(o: Option<String>, m: Option<Seq<char>>) -> bool {
    match m {
        Some(s) => o matches Some(v) && v@ == s,
        None => o is None,
    }
}

/// Whether an optional boolean field holds exactly what an optional member
/// says.
pub open spec fn spec_opt_bool_matches(o: Option<bool>, m: Option<bool>) -> bool {
    match m {
        Some(b) => o == Some(b),
        None => o is None,
    }
}

/// Whether the document has the UserInfo shape: the claims shape (subject
/// mandatory, base members well formed) and every profile member — when
/// present — of its expected shape.
pub open spec fn spec_user_info_doc_ok(doc: Seq<u8>) -> bool {
    &&& spec_token_doc_ok(doc, false)
    &&& spec_member_str_ok(doc, "name"@)
    &&& spec_member_str_ok(doc, "given_name"@)
    &&& spec_member_str_ok(doc, "family_name"@)
    &&& spec_member_str_ok(doc, "middle_name"@)
    &&& spec_member_str_ok(doc, "nickname"@)
    &&& spec_member_str_ok(doc, "preferred_username"@)
    &&& spec_member_str_ok(doc, "profile"@)
    &&& spec_member_str_ok(doc, "picture"@)
    &&& spec_member_str_ok(doc, "website"@)
    &&& spec_member_str_ok(doc, "email"@)
    &&& spec_member_bool_ok(doc, "email_verified"@)
    &&& spec_member_str_ok(doc, "gender"@)
    &&& spec_member_str_ok(doc, "birthday"@)
    &&& spec_member_str_ok(doc, "zoneinfo"@)
    &&& spec_member_str_ok(doc, "locale"@)
    &&& spec_member_str_ok(doc, "phone_number"@)
    &&& spec_member_bool_ok(doc, "phone_number_verified"@)
    &&& spec_member_str_ok(doc, "updated_at"@)
}

/// Whether the standard claims hold exactly what the document's profile
/// members say, member by member.
pub open spec fn spec_profile_match(sc: StandardClaims, doc: Seq<u8>) -> bool {
    &&& json_member_str_of(doc, "sub"@) == Some(sc.sub@)
    &&& spec_opt_str_matches(sc.name, json_member_str_of(doc, "name"@))
    &&& spec_opt_str_matches(sc.given_name, json_member_str_of(doc, "given_name"@))
    &&& spec_opt_str_matches(sc.family_name, json_member_str_of(doc, "family_name"@))
    &&& spec_opt_str_matches(sc.middle_name, json_member_str_of(doc, "middle_name"@))
    &&& spec_opt_str_matches(sc.nickname, json_member_str_of(doc, "nickname"@))
    &&& spec_opt_str_matches(sc.preferred_username, json_member_str_of(doc, "preferred_username"@))
    &&& spec_opt_str_matches(sc.profile, json_member_str_of(doc, "profile"@))
    &&& spec_opt_str_matches(sc.picture, json_member_str_of(doc, "picture"@))
    &&& spec_opt_str_matches(sc.website, json_member_str_of(doc, "website"@))
    &&& spec_opt_str_matches(sc.email, json_member_str_of(doc, "email"@))
    &&& spec_opt_bool_matches(sc.email_verified, json_member_bool_of(doc, "email_verified"@))
    &&& spec_opt_str_matches(sc.gender, json_member_str_of(doc, "gender"@))
    &&& spec_opt_str_matches(sc.birthday, json_member_str_of(doc, "birthday"@))
    &&& spec_opt_str_matches(sc.zoneinfo, json_member_str_of(doc, "zoneinfo"@))
    &&& spec_opt_str_matches(sc.locale, json_member_str_of(doc, "locale"@))
    &&& spec_opt_str_matches(sc.phone_number, json_member_str_of(doc, "phone_number"@))
    &&& spec_opt_bool_matches(
        sc.phone_number_verified,
        json_member_bool_of(doc, "phone_number_verified"@),
    )
    &&& spec_opt_str_matches(sc.updated_at, json_member_str_of(doc, "updated_at"@))
}

impl UserInfoClaims {
    /// Initializes user info claims.
    pub fn new(standard_claims: StandardClaims, additional_claims: Vec<(String, String)>) -> (r:
        UserInfoClaims)
        ensures
            r.standard_claims == standard_claims,
            r.additional_claims == additional_claims,
            r.issuer is None,
            r.audiences is None,
    {
        UserInfoClaims { issuer: None, audiences: None, standard_claims, additional_claims }
    }

    /// Returns the `sub` claim.
    pub fn subject(&self) -> (r: &String)
        ensures
            r == self.standard_claims.sub,
    {
        &self.standard_claims.sub
    }

    /// Sets the `sub` claim.
    pub fn set_subject(&mut self, subject: String)
        ensures
            final(self).standard_claims.sub == subject,
            final(self).issuer == old(self).issuer,
            final(self).audiences == old(self).audiences,
            final(self).additional_claims == old(self).additional_claims,
    {
        self.standard_claims.sub = subject;
    }

    /// Returns the `iss` claim.
    pub fn issuer(&self) -> (r: &Option<String>)
        ensures
            r == self.issuer,
    {
        &self.issuer
    }

    /// Sets the `iss` claim.
    pub fn set_issuer(&mut self, issuer: Option<String>)
        ensures
            final(self).issuer == issuer,
            final(self).standard_claims == old(self).standard_claims,
            final(self).audiences == old(self).audiences,
            final(self).additional_claims == old(self).additional_claims,
    {
        self.issuer = issuer;
    }

    /// Returns the `aud` claim.
    pub fn audiences(&self) -> (r: &Option<Vec<String>>)
        ensures
            r == self.audiences,
    {
        &self.audiences
    }

    /// Sets the `aud` claim.
    pub fn set_audiences(&mut self, audiences: Option<Vec<String>>)
        ensures
            final(self).audiences == audiences,
            final(self).standard_claims == old(self).standard_claims,
            final(self).issuer == old(self).issuer,
            final(self).additional_claims == old(self).additional_claims,
    {
        self.audiences = audiences;
    }

    /// Returns the standard claims.
    pub fn standard_claims(&self) -> (r: &StandardClaims)
        ensures
            r == self.standard_claims,
    {
        &self.standard_claims
    }

    /// Returns the additional claims.
    pub fn additional_claims(&self) -> (r: &Vec<(String, String)>)
        ensures
            r == self.additional_claims,
    {
        &self.additional_claims
    }

    /// Returns the additional claims for modification.
    pub fn additional_claims_mut(&mut self) -> &mut Vec<(String, String)> {
        &mut self.additional_claims
    }

    /// Initializes user info claims from a raw JSON response.
    ///
    /// Succeeds exactly on documents of the UserInfo shape whose subject,
    /// when an `expected_subject` is given, is exactly that subject. A
    /// malformed document is a parse failure; a well-formed one naming any
    /// other subject is a subject mismatch, never returned.
    pub fn from_json(user_info_json: &[u8], expected_subject: Option<&String>) -> (r: Result<
        UserInfoClaims,
        UserInfoError,
    >)
        ensures
            r is Ok <==> spec_user_info_doc_ok(user_info_json@) && (
            expected_subject matches Some(s) ==> json_member_str_of(user_info_json@, "sub"@)
                == Some(s@)),
            r == Err::<UserInfoClaims, UserInfoError>(UserInfoError::Parse)
                <==> !spec_user_info_doc_ok(user_info_json@),
            r == Err::<UserInfoClaims, UserInfoError>(
                UserInfoError::ClaimsVerification(ClaimsVerificationError::SubjectMismatch),
            ) <==> (spec_user_info_doc_ok(user_info_json@) && (expected_subject matches Some(s)
                && json_member_str_of(user_info_json@, "sub"@) != Some(s@))),
            r matches Ok(u) ==> u.standard_claims.sub@.len() > 0 && spec_profile_match(
                u.standard_claims,
                user_info_json@,
            ) && spec_opt_str_matches(u.issuer, json_member_str_of(user_info_json@, "iss"@)),
            r matches Ok(u) ==> (expected_subject matches Some(s) ==> u.standard_claims.sub@
                == s@),
    {
        let parts = match user_info_parts_from_json(user_info_json) {
            Some(p) => p,
            None => {
                return Err(UserInfoError::Parse);
            },
        };
        let (u, _) = parts;
        let subject_ok = match expected_subject {
            Some(s) => *u.subject() == *s,
            None => true,
        };
        if subject_ok {
            Ok(u)
        } else {
            Err(UserInfoError::ClaimsVerification(ClaimsVerificationError::SubjectMismatch))
        }
    }
}


/// Whether `name` is a claim that the UserInfo record itself holds: a base
/// claim or a standard profile claim.
fn is_userinfo_claim(name: &[u8]) -> bool {
    is_base_claim_bytes(name) || crate::alg::bytes_eq(name, "name".as_bytes())
        || crate::alg::bytes_eq(name, "given_name".as_bytes()) || crate::alg::bytes_eq(
        name,
        "family_name".as_bytes(),
    ) || crate::alg::bytes_eq(name, "middle_name".as_bytes()) || crate::alg::bytes_eq(
        name,
        "nickname".as_bytes(),
    ) || crate::alg::bytes_eq(name, "preferred_username".as_bytes()) || crate::alg::bytes_eq(
        name,
        "profile".as_bytes(),
    ) || crate::alg::bytes_eq(name, "picture".as_bytes()) || crate::alg::bytes_eq(
        name,
        "website".as_bytes(),
    ) || crate::alg::bytes_eq(name, "email".as_bytes()) || crate::alg::bytes_eq(
        name,
        "email_verified".as_bytes(),
    ) || crate::alg::bytes_eq(name, "gender".as_bytes()) || crate::alg::bytes_eq(
        name,
        "birthday".as_bytes(),
    ) || crate::alg::bytes_eq(name, "zoneinfo".as_bytes()) || crate::alg::bytes_eq(
        name,
        "locale".as_bytes(),
    ) || crate::alg::bytes_eq(name, "phone_number".as_bytes()) || crate::alg::bytes_eq(
        name,
        "phone_number_verified".as_bytes(),
    ) || crate::alg::bytes_eq(name, "updated_at".as_bytes())
}

/// Extracts from one JSON document both the UserInfo claims record and
/// the claims record the policy engine checks, tied together member by
/// member over the JSON names.
///
/// Succeeds exactly on documents of the UserInfo shape
/// ([`spec_user_info_doc_ok`]): the `sub` member present, a string and
/// non-empty, and every base and profile member — when present — of its
/// expected shape.
pub fn user_info_parts_from_json(bytes: &[u8]) -> (r: Option<(UserInfoClaims, TokenClaims)>)
    ensures
        r is Some <==> spec_user_info_doc_ok(bytes@),
        r matches Some(p) ==> p.0.standard_claims.sub@.len() > 0 && p.1.subject@
            == p.0.standard_claims.sub@,
        r matches Some(p) ==> spec_claims_match_doc(p.1, bytes@),
        r matches Some(p) ==> spec_profile_match(p.0.standard_claims, bytes@),
        r matches Some(p) ==> spec_opt_str_matches(p.0.issuer, json_member_str_of(bytes@, "iss"@)),
        r matches Some(p) ==> (match json_audiences_of(bytes@) {
            Some(a) => if a.len() > 0 {
                p.0.audiences matches Some(v) && strs_view(v@) == a
            } else {
                p.0.audiences is None
            },
            None => false,
        }),
        r matches Some(p) ==> (p.0.audiences matches Some(v) ==> v@.len() > 0),
{
    let policy_claims = match parse_token_claims(bytes, false) {
        Some(c) => c,
        None => {
            return None;
        },
    };
    let subject = match doc_member_str(bytes, "sub") {
        Some(s) => s,
        None => {
            return None;
        },
    };
    let name = match opt_str_member(bytes, "name") {
        Ok(o) => o,
        Err(()) => {
            return None;
        },
    };
    let given_name = match opt_str_member(bytes, "given_name") {
        Ok(o) => o,
        Err(()) => {
            return None;
        },
    };
    let family_name = match opt_str_member(bytes, "family_name") {
        Ok(o) => o,
        Err(()) => {
            return None;
        },
    };
    let middle_name = match opt_str_member(bytes, "middle_name") {
        Ok(o) => o,
        Err(()) => {
            return None;
        },
    };
    let nickname = match opt_str_member(bytes, "nickname") {
        Ok(o) => o,
        Err(()) => {
            return None;
        },
    };
    let preferred_username = match opt_str_member(bytes, "preferred_username") {
        Ok(o) => o,
        Err(()) => {
            return None;
        },
    };
    let profile = match opt_str_member(bytes, "profile") {
        Ok(o) => o,
        Err(()) => {
            return None;
        },
    };
    let picture = match opt_str_member(bytes, "picture") {
        Ok(o) => o,
        Err(()) => {
            return None;
        },
    };
    let website = match opt_str_member(bytes, "website") {
        Ok(o) => o,
        Err(()) => {
            return None;
        },
    };
    let email = match opt_str_member(bytes, "email") {
        Ok(o) => o,
        Err(()) => {
            return None;
        },
    };
    let email_verified = match opt_bool_member(bytes, "email_verified") {
        Ok(o) => o,
        Err(()) => {
            return None;
        },
    };
    let gender = match opt_str_member(bytes, "gender") {
        Ok(o) => o,
        Err(()) => {
            return None;
        },
    };
    let birthday = match opt_str_member(bytes, "birthday") {
        Ok(o) => o,
        Err(()) => {
            return None;
        },
    };
    let zoneinfo = match opt_str_member(bytes, "zoneinfo") {
        Ok(o) => o,
        Err(()) => {
            return None;
        },
    };
    let locale = match opt_str_member(bytes, "locale") {
        Ok(o) => o,
        Err(()) => {
            return None;
        },
    };
    let phone_number = match opt_str_member(bytes, "phone_number") {
        Ok(o) => o,
        Err(()) => {
            return None;
        },
    };
    let phone_number_verified = match opt_bool_member(bytes, "phone_number_verified") {
        Ok(o) => o,
        Err(()) => {
            return None;
        },
    };
    let updated_at = match opt_str_member(bytes, "updated_at") {
        Ok(o) => o,
        Err(()) => {
            return None;
        },
    };
    let audience_list = match doc_audiences(bytes) {
        Some(a) => a,
        None => {
            return None;
        },
    };
    let mut additional: Vec<(String, String)> = Vec::new();
    match json_parse(bytes) {
        Some(doc) => match json_as_object(&doc) {
            Some(members) => {
                let mut i: usize = 0;
                while i < members.len()
                    decreases members@.len() - i,
                {
                    if !is_userinfo_claim(members[i].0.as_str().as_bytes()) {
                        let text = json_value_text(&members[i].1);
                        let member_name = members[i].0.clone();
                        additional.push((member_name, text));
                    }
                    i += 1;
                }
            },
            None => {},
        },
        None => {},
    }
    let standard = StandardClaims {
        sub: subject,
        name,
        given_name,
        family_name,
        middle_name,
        nickname,
        preferred_username,
        profile,
        picture,
        website,
        email,
        email_verified,
        gender,
        birthday,
        zoneinfo,
        locale,
        phone_number,
        phone_number_verified,
        updated_at,
    };
    let info = UserInfoClaims {
        issuer: clone_opt_string(&policy_claims.issuer),
        audiences: if audience_list.len() > 0 {
            Some(audience_list)
        } else {
            None
        },
        standard_claims: standard,
        additional_claims: additional,
    };
    Some((info, policy_claims))
}

/// What acceptance of signed UserInfo wire bytes means, stage by stage:
/// the token parses, its signature verifies, its payload has the UserInfo
/// shape, and the claims record the document pins passes the narrow
/// policy.
pub open spec fn spec_accepted_user_info(
    bytes: Seq<u8>,
    t: JsonWebToken,
    a: Alg,
    c: TokenClaims,
    keys: Seq<Key>,
    allowed: Seq<Alg>,
    allow_unsigned: bool,
    policy: ClaimsPolicy,
) -> bool {
    &&& spec_parsed_token(bytes, t)
    &&& spec_verify_signature(t, keys, allowed, allow_unsigned) == Ok::<Alg, VerificationError>(a)
    &&& spec_user_info_doc_ok(t.payload@)
    &&& spec_claims_match_doc(c, t.payload@)
    &&& spec_check_claims(c, policy, a) == Ok::<(), ClaimsVerificationError>(())
}

/// Verifies signed (JWT) UserInfo responses.
///
/// The policy is narrower than an ID Token's: no nonce or hash checks,
/// issuer and audience matches off unless demanded, and a subject check
/// whenever the caller supplies the trusted subject from ID Token
/// verification.
pub struct UserInfoVerifier {
    pub keys: KeySet,
    pub allowed_algs: Vec<Alg>,
    /// Whether the explicit `none` algorithm is acceptable.
    pub allow_unsigned: bool,
    pub expected_issuer: String,
    pub client_id: String,
    pub expected_subject: Option<String>,
    pub iss_required: bool,
    pub aud_required: bool,
    pub current_time: i64,
    pub clock_skew: i64,
}

impl UserInfoVerifier {
    /// The claims policy this verifier enforces.
    pub open spec fn spec_policy(self) -> ClaimsPolicy {
        ClaimsPolicy {
            require_issuer_match: self.iss_required,
            require_audience_match: self.aud_required,
            expected_issuer: self.expected_issuer,
            client_id: self.client_id,
            expected_subject: self.expected_subject,
            expected_nonce: None,
            access_token: None,
            current_time: self.current_time,
            clock_skew: self.clock_skew,
        }
    }

    /// Machine limits on the temporal parameters.
    pub open spec fn wf(self) -> bool {
        self.spec_policy().wf()
    }

    /// Creates a verifier with issuer and audience checks off, as the
    /// narrower UserInfo trust model defaults to.
    pub fn new(
        issuer: String,
        client_id: String,
        keys: KeySet,
        allowed_algs: Vec<Alg>,
        expected_subject: Option<String>,
        current_time: i64,
        clock_skew: i64,
    ) -> (r: UserInfoVerifier)
        ensures
            r.keys == keys,
            r.allowed_algs == allowed_algs,
            r.allow_unsigned == false,
            r.expected_issuer == issuer,
            r.client_id == client_id,
            r.expected_subject == expected_subject,
            r.iss_required == false,
            r.aud_required == false,
            r.current_time == current_time,
            r.clock_skew == clock_skew,
    {
        UserInfoVerifier {
            keys,
            allowed_algs,
            allow_unsigned: false,
            expected_issuer: issuer,
            client_id,
            expected_subject,
            iss_required: false,
            aud_required: false,
            current_time,
            clock_skew,
        }
    }

    /// Demands (or waives) the issuer match for signed responses.
    pub fn require_issuer_match(self, iss_required: bool) -> (r: UserInfoVerifier)
        ensures
            r == (UserInfoVerifier { iss_required, ..self }),
    {
        UserInfoVerifier { iss_required, ..self }
    }

    /// Demands (or waives) the audience match for signed responses.
    pub fn require_audience_match(self, aud_required: bool) -> (r: UserInfoVerifier)
        ensures
            r == (UserInfoVerifier { aud_required, ..self }),
    {
        UserInfoVerifier { aud_required, ..self }
    }

    /// Verifies the compact serialization of a signed UserInfo response:
    /// signature first, then the narrow claims policy, and only then are
    /// the claims handed out.
    ///
    /// Success is owed exactly on accepted wire bytes
    /// ([`spec_accepted_user_info`]); every failure carries the error of
    /// the first failing stage.
    pub fn verified_claims(&self, jwt_bytes: &[u8]) -> (r: Result<
        UserInfoClaims,
        VerificationError,
    >)
        requires
            self.wf(),
        ensures
            r matches Ok(u) ==> u.standard_claims.sub@.len() > 0,
            r matches Ok(u) ==> (self.expected_subject matches Some(s) ==> u.standard_claims.sub@
                == s@),
            r matches Ok(u) ==> (exists|t: JsonWebToken, a: Alg, c: TokenClaims| #![auto]
                spec_parsed_token(jwt_bytes@, t) && spec_verify_signature(
                    t,
                    self.keys.keys@,
                    self.allowed_algs@,
                    self.allow_unsigned,
                ) == Ok::<Alg, VerificationError>(a) && spec_user_info_doc_ok(t.payload@)
                    && spec_claims_match_doc(c, t.payload@) && spec_check_claims(
                    c,
                    self.spec_policy(),
                    a,
                ) == Ok::<(), ClaimsVerificationError>(()) && c.subject@
                    == u.standard_claims.sub@ && spec_profile_match(
                    u.standard_claims,
                    t.payload@,
                )),
            (exists|t: JsonWebToken, a: Alg, c: TokenClaims| #![auto]
                spec_accepted_user_info(
                    jwt_bytes@,
                    t,
                    a,
                    c,
                    self.keys.keys@,
                    self.allowed_algs@,
                    self.allow_unsigned,
                    self.spec_policy(),
                )) ==> r is Ok,
            r matches Err(e) ==> (!spec_compact_shape_ok(jwt_bytes@) && e
                == VerificationError::InvalidFormat) || (exists|t: JsonWebToken| #![auto]
                spec_parsed_token(jwt_bytes@, t) && (spec_verify_signature(
                    t,
                    self.keys.keys@,
                    self.allowed_algs@,
                    self.allow_unsigned,
                ) == Err::<Alg, VerificationError>(e) || (exists|a: Alg| #![auto]
                    spec_verify_signature(
                        t,
                        self.keys.keys@,
                        self.allowed_algs@,
                        self.allow_unsigned,
                    ) == Ok::<Alg, VerificationError>(a) && ((!spec_user_info_doc_ok(t.payload@)
                        && e == VerificationError::ClaimsParsing) || (spec_user_info_doc_ok(
                        t.payload@,
                    ) && exists|c: TokenClaims, ce: ClaimsVerificationError| #![auto]
                        spec_claims_match_doc(c, t.payload@) && spec_check_claims(
                            c,
                            self.spec_policy(),
                            a,
                        ) == Err::<(), ClaimsVerificationError>(ce) && e
                            == VerificationError::ClaimsVerification(ce)))))),
    {
        let ghost keys = self.keys.keys@;
        let ghost allowed = self.allowed_algs@;
        let ghost au = self.allow_unsigned;
        let ghost pol = self.spec_policy();
        let t = match parse_compact(jwt_bytes) {
            Ok(t) => t,
            Err(e) => {
                proof {
                    if exists|t0: JsonWebToken, a0: Alg, c0: TokenClaims| #![auto]
                        spec_accepted_user_info(jwt_bytes@, t0, a0, c0, keys, allowed, au, pol) {
                        let (t0, a0, c0) = choose|t0: JsonWebToken, a0: Alg, c0: TokenClaims| #![auto]
                            spec_accepted_user_info(jwt_bytes@, t0, a0, c0, keys, allowed, au, pol);
                        lemma_parsed_token_shape(jwt_bytes@, t0);
                        assert(false);
                    }
                }
                return Err(e);
            },
        };
        let a = match verify_signature(&t, &self.keys, &self.allowed_algs, self.allow_unsigned) {
            Ok(a) => a,
            Err(e) => {
                proof {
                    if exists|t0: JsonWebToken, a0: Alg, c0: TokenClaims| #![auto]
                        spec_accepted_user_info(jwt_bytes@, t0, a0, c0, keys, allowed, au, pol) {
                        let (t0, a0, c0) = choose|t0: JsonWebToken, a0: Alg, c0: TokenClaims| #![auto]
                            spec_accepted_user_info(jwt_bytes@, t0, a0, c0, keys, allowed, au, pol);
                        lemma_parsed_token_unique(jwt_bytes@, t0, t);
                        lemma_verify_signature_congruent(t0, t, keys, allowed, au);
                        assert(false);
                    }
                    assert(spec_parsed_token(jwt_bytes@, t) && spec_verify_signature(
                        t,
                        keys,
                        allowed,
                        au,
                    ) == Err::<Alg, VerificationError>(e));
                }
                return Err(e);
            },
        };
        let parts = match user_info_parts_from_json(t.payload.as_slice()) {
            Some(p) => p,
            None => {
                proof {
                    if exists|t0: JsonWebToken, a0: Alg, c0: TokenClaims| #![auto]
                        spec_accepted_user_info(jwt_bytes@, t0, a0, c0, keys, allowed, au, pol) {
                        let (t0, a0, c0) = choose|t0: JsonWebToken, a0: Alg, c0: TokenClaims| #![auto]
                            spec_accepted_user_info(jwt_bytes@, t0, a0, c0, keys, allowed, au, pol);
                        lemma_parsed_token_unique(jwt_bytes@, t0, t);
                        assert(false);
                    }
                    assert(spec_parsed_token(jwt_bytes@, t) && spec_verify_signature(
                        t,
                        keys,
                        allowed,
                        au,
                    ) == Ok::<Alg, VerificationError>(a) && !spec_user_info_doc_ok(t.payload@));
                }
                return Err(VerificationError::ClaimsParsing);
            },
        };
        let (info, policy_claims) = parts;
        let policy = ClaimsPolicy {
            require_issuer_match: self.iss_required,
            require_audience_match: self.aud_required,
            expected_issuer: self.expected_issuer.clone(),
            client_id: self.client_id.clone(),
            expected_subject: clone_opt_string(&self.expected_subject),
            expected_nonce: None,
            access_token: None,
            current_time: self.current_time,
            clock_skew: self.clock_skew,
        };
        match check_claims(&policy_claims, &policy, a) {
            Ok(()) => {
                proof {
                    assert(spec_subject_ok(policy_claims, policy));
                    assert(spec_check_claims(policy_claims, pol, a) == Ok::<
                        (),
                        ClaimsVerificationError,
                    >(()));
                    let gt = t;
                    let ga = a;
                    let gc = policy_claims;
                    assert(spec_parsed_token(jwt_bytes@, gt) && spec_verify_signature(
                        gt,
                        keys,
                        allowed,
                        au,
                    ) == Ok::<Alg, VerificationError>(ga) && spec_user_info_doc_ok(gt.payload@)
                        && spec_claims_match_doc(gc, gt.payload@) && spec_check_claims(
                        gc,
                        pol,
                        ga,
                    ) == Ok::<(), ClaimsVerificationError>(()) && gc.subject@
                        == info.standard_claims.sub@ && spec_profile_match(
                        info.standard_claims,
                        gt.payload@,
                    ));
                }
                Ok(info)
            },
            Err(ce) => {
                proof {
                    assert(spec_check_claims(policy_claims, pol, a) == Err::<
                        (),
                        ClaimsVerificationError,
                    >(ce));
                    if exists|t0: JsonWebToken, a0: Alg, c0: TokenClaims| #![auto]
                        spec_accepted_user_info(jwt_bytes@, t0, a0, c0, keys, allowed, au, pol) {
                        let (t0, a0, c0) = choose|t0: JsonWebToken, a0: Alg, c0: TokenClaims| #![auto]
                            spec_accepted_user_info(jwt_bytes@, t0, a0, c0, keys, allowed, au, pol);
                        lemma_parsed_token_unique(jwt_bytes@, t0, t);
                        lemma_verify_signature_congruent(t0, t, keys, allowed, au);
                        lemma_check_claims_congruent(c0, policy_claims, t0.payload@, pol, a0);
                        assert(false);
                    }
                    assert(spec_parsed_token(jwt_bytes@, t) && spec_verify_signature(
                        t,
                        keys,
                        allowed,
                        au,
                    ) == Ok::<Alg, VerificationError>(a) && spec_user_info_doc_ok(t.payload@)
                        && spec_claims_match_doc(policy_claims, t.payload@) && spec_check_claims(
                        policy_claims,
                        pol,
                        a,
                    ) == Err::<(), ClaimsVerificationError>(ce));
                }
                Err(VerificationError::ClaimsVerification(ce))
            },
        }
    }
}

/// A signed JSON Web Token carrying user info claims.
pub struct UserInfoJsonWebToken {
    pub token: JsonWebToken,
}

impl UserInfoJsonWebToken {
    /// Signs the claims under `signing_key` and `alg`. The profile claims
    /// ride as additional members of the canonical serialization, in field
    /// order, followed by the caller's additional claims.
    ///
    /// Signing under HMAC or `none` always succeeds; under RSA it succeeds
    /// exactly when the key material is usable; ECDSA signing can also
    /// reject a degenerate message nonce, so only its failure kind is
    /// pinned.
    pub fn new(claims: UserInfoClaims, signing_key: &Key, alg: Alg) -> (r: Result<
        UserInfoJsonWebToken,
        VerificationError,
    >)
        requires
            signing_key.usage == KeyUsage::Signature,
            signing_key.family == spec_family_of(alg),
        ensures
            r matches Ok(j) ==> (exists|c: TokenClaims| #![auto]
                spec_signed_by(j.token, *signing_key, alg, c) && c.subject@
                    == claims.standard_claims.sub@ && spec_opt_kid(c.issuer) == spec_opt_kid(
                    claims.issuer,
                ) && (match claims.audiences {
                    Some(v) => strs_view(c.audiences@) == strs_view(v@),
                    None => c.audiences@.len() == 0,
                }) && c.expiry is None && c.nonce is None && c.access_token_hash is None
                    && pairs_view(c.additional@) == spec_profile_pairs(claims.standard_claims)
                    + pairs_view(claims.additional_claims@)),
            alg == Alg::HmacSha256 || alg == Alg::Unsigned ==> r is Ok,
            alg == Alg::RsaSha256 ==> (r is Ok <==> crate::crypto::rsa_sha256_priv_ok(
                signing_key.material@,
            )),
            alg == Alg::RsaSha384 ==> (r is Ok <==> crate::crypto::rsa_sha384_priv_ok(
                signing_key.material@,
            )),
            r matches Err(e) ==> e == VerificationError::CryptoError,
    {
        let wire = wire_claims_of(&claims);
        match sign_token(&wire, signing_key, alg) {
            Ok(t) => {
                proof {
                    let gw = wire;
                    assert(spec_signed_by(t, *signing_key, alg, gw) && gw.subject@
                        == claims.standard_claims.sub@);
                }
                Ok(UserInfoJsonWebToken { token: t })
            },
            Err(e) => Err(e),
        }
    }

    /// Verifies and returns the user info claims; success is owed exactly
    /// when the verifier accepts this token's compact serialization.
    pub fn claims(self, verifier: &UserInfoVerifier) -> (r: Result<
        UserInfoClaims,
        VerificationError,
    >)
        requires
            verifier.wf(),
        ensures
            r matches Ok(u) ==> u.standard_claims.sub@.len() > 0,
            r matches Ok(u) ==> (verifier.expected_subject matches Some(s)
                ==> u.standard_claims.sub@ == s@),
            (exists|t: JsonWebToken, a: Alg, c: TokenClaims| #![auto]
                spec_accepted_user_info(
                    self.token.spec_compact(),
                    t,
                    a,
                    c,
                    verifier.keys.keys@,
                    verifier.allowed_algs@,
                    verifier.allow_unsigned,
                    verifier.spec_policy(),
                )) ==> r is Ok,
    {
        let compact = self.token.compact();
        verifier.verified_claims(compact.as_slice())
    }
}

/// The views of a sequence of name/value string pairs.
pub open spec fn pairs_view(s: Seq<(String, String)>) -> Seq<(Seq<char>, Seq<char>)> {
    Seq::new(s.len(), |i: int| (s[i].0@, s[i].1@))
}

/// The wire member an optional string profile claim contributes: its
/// quoted JSON text under its name, or nothing.
pub open spec fn spec_opt_pair_str(name: Seq<char>, v: Option<String>) -> Seq<
    (Seq<char>, Seq<char>),
> {
    match v {
        Some(s) => seq![(name, json_quoted_of(s@))],
        None => Seq::empty(),
    }
}

/// The wire member an optional boolean profile claim contributes.
pub open spec fn spec_opt_pair_bool(name: Seq<char>, v: Option<bool>) -> Seq<
    (Seq<char>, Seq<char>),
> {
    match v {
        Some(b) => seq![(name, if b { "true"@ } else { "false"@ })],
        None => Seq::empty(),
    }
}

/// The wire members of all profile claims, in field order.
pub open spec fn spec_profile_pairs(sc: StandardClaims) -> Seq<(Seq<char>, Seq<char>)> {
    spec_opt_pair_str("name"@, sc.name) + spec_opt_pair_str("given_name"@, sc.given_name)
        + spec_opt_pair_str("family_name"@, sc.family_name) + spec_opt_pair_str(
        "middle_name"@,
        sc.middle_name,
    ) + spec_opt_pair_str("nickname"@, sc.nickname) + spec_opt_pair_str(
        "preferred_username"@,
        sc.preferred_username,
    ) + spec_opt_pair_str("profile"@, sc.profile) + spec_opt_pair_str("picture"@, sc.picture)
        + spec_opt_pair_str("website"@, sc.website) + spec_opt_pair_str("email"@, sc.email)
        + spec_opt_pair_bool("email_verified"@, sc.email_verified) + spec_opt_pair_str(
        "gender"@,
        sc.gender,
    ) + spec_opt_pair_str("birthday"@, sc.birthday) + spec_opt_pair_str("zoneinfo"@, sc.zoneinfo)
        + spec_opt_pair_str("locale"@, sc.locale) + spec_opt_pair_str(
        "phone_number"@,
        sc.phone_number,
    ) + spec_opt_pair_bool("phone_number_verified"@, sc.phone_number_verified)
        + spec_opt_pair_str("updated_at"@, sc.updated_at)
}

/// Pushes an optional profile claim as an additional wire member.
fn push_wire_str(extra: &mut Vec<(String, String)>, name: &str, v: &Option<String>)
    ensures
        pairs_view(final(extra)@) == pairs_view(old(extra)@) + spec_opt_pair_str(name@, *v),
{
    match v {
        Some(s) => {
            extra.push((String::from_str(name), json_quote(s.as_str())));
            proof {
                assert(pairs_view(extra@) =~= pairs_view(old(extra)@) + spec_opt_pair_str(
                    name@,
                    *v,
                ));
            }
        },
        None => {
            proof {
                assert(pairs_view(extra@) =~= pairs_view(old(extra)@) + spec_opt_pair_str(
                    name@,
                    *v,
                ));
            }
        },
    }
}

/// Pushes an optional boolean profile claim as an additional wire member.
fn push_wire_bool(extra: &mut Vec<(String, String)>, name: &str, v: &Option<bool>)
    ensures
        pairs_view(final(extra)@) == pairs_view(old(extra)@) + spec_opt_pair_bool(name@, *v),
{
    match v {
        Some(b) => {
            let text = if *b {
                String::from_str("true")
            } else {
                String::from_str("false")
            };
            extra.push((String::from_str(name), text));
            proof {
                assert(pairs_view(extra@) =~= pairs_view(old(extra)@) + spec_opt_pair_bool(
                    name@,
                    *v,
                ));
            }
        },
        None => {
            proof {
                assert(pairs_view(extra@) =~= pairs_view(old(extra)@) + spec_opt_pair_bool(
                    name@,
                    *v,
                ));
            }
        },
    }
}

/// Clones a vector of strings, preserving the element views.
fn clone_strings(v: &Vec<String>) -> (r: Vec<String>)
    ensures
        strs_view(r@) == strs_view(v@),
{
    let mut out: Vec<String> = Vec::new();
    let mut i: usize = 0;
    while i < v.len()
        invariant
            0 <= i <= v@.len(),
            out@.len() == i,
            forall|j: int| 0 <= j < i ==> out@[j]@ == v@[j]@,
        decreases v@.len() - i,
    {
        out.push(v[i].clone());
        i += 1;
    }
    proof {
        assert(strs_view(out@) =~= strs_view(v@));
    }
    out
}

/// The claims record that serializes a UserInfo response for signing: the
/// profile claims become additional members in field order, the caller's
/// additional claims follow them, and nothing else is added.
#[verifier::rlimit(100)]
fn wire_claims_of(u: &UserInfoClaims) -> (r: TokenClaims)
    ensures
        r.subject@ == u.standard_claims.sub@,
        spec_opt_kid(r.issuer) == spec_opt_kid(u.issuer),
        (match u.audiences {
            Some(v) => strs_view(r.audiences@) == strs_view(v@),
            None => r.audiences@.len() == 0,
        }),
        r.expiry is None,
        r.issued_at is None,
        r.nonce is None,
        r.access_token_hash is None,
        r.authorized_party is None,
        pairs_view(r.additional@) == spec_profile_pairs(u.standard_claims) + pairs_view(
            u.additional_claims@,
        ),
{
    let mut extra: Vec<(String, String)> = Vec::new();
    let sc = &u.standard_claims;
    push_wire_str(&mut extra, "name", &sc.name);
    push_wire_str(&mut extra, "given_name", &sc.given_name);
    push_wire_str(&mut extra, "family_name", &sc.family_name);
    push_wire_str(&mut extra, "middle_name", &sc.middle_name);
    push_wire_str(&mut extra, "nickname", &sc.nickname);
    push_wire_str(&mut extra, "preferred_username", &sc.preferred_username);
    push_wire_str(&mut extra, "profile", &sc.profile);
    push_wire_str(&mut extra, "picture", &sc.picture);
    push_wire_str(&mut extra, "website", &sc.website);
    push_wire_str(&mut extra, "email", &sc.email);
    push_wire_bool(&mut extra, "email_verified", &sc.email_verified);
    push_wire_str(&mut extra, "gender", &sc.gender);
    push_wire_str(&mut extra, "birthday", &sc.birthday);
    push_wire_str(&mut extra, "zoneinfo", &sc.zoneinfo);
    push_wire_str(&mut extra, "locale", &sc.locale);
    push_wire_str(&mut extra, "phone_number", &sc.phone_number);
    push_wire_bool(&mut extra, "phone_number_verified", &sc.phone_number_verified);
    push_wire_str(&mut extra, "updated_at", &sc.updated_at);
    proof {
        assert(pairs_view(extra@) =~= spec_profile_pairs(u.standard_claims));
    }
    let ghost profile_done = extra@;
    let mut i: usize = 0;
    while i < u.additional_claims.len()
        invariant
            0 <= i <= u.additional_claims@.len(),
            pairs_view(extra@) == spec_profile_pairs(u.standard_claims) + pairs_view(
                u.additional_claims@.take(i as int),
            ),
        decreases u.additional_claims@.len() - i,
    {
        let ghost prev = extra@;
        let pair = (u.additional_claims[i].0.clone(), u.additional_claims[i].1.clone());
        let ghost pv = (pair.0@, pair.1@);
        extra.push(pair);
        proof {
            assert(pv == (
                u.additional_claims@[i as int].0@,
                u.additional_claims@[i as int].1@,
            ));
            assert(pairs_view(extra@) =~~= pairs_view(prev).push(pv));
            assert(pairs_view(u.additional_claims@.take(i + 1)) =~~= pairs_view(
                u.additional_claims@.take(i as int),
            ).push(pv));
            assert(pairs_view(extra@) =~~= spec_profile_pairs(u.standard_claims) + pairs_view(
                u.additional_claims@.take(i + 1),
            ));
        }
        i += 1;
    }
    proof {
        assert(u.additional_claims@.take(u.additional_claims@.len() as int)
            =~= u.additional_claims@);
    }
    TokenClaims {
        issuer: clone_opt_string(&u.issuer),
        audiences: match &u.audiences {
            Some(a) => clone_strings(a),
            None => Vec::new(),
        },
        subject: u.standard_claims.sub.clone(),
        expiry: None,
        issued_at: None,
        nonce: None,
        access_token_hash: None,
        authorized_party: None,
        additional: extra,
    }
}

/// The effective content type of a response: the declared one, or JSON
/// when none is declared.
pub open spec fn spec_ct_json_or_default(headers: Seq<(String, String)>, json_essence: Seq<u8>) -> bool {
    match spec_content_type(headers) {
        Some(v) => spec_essence_matches(vstd::utf8::encode_utf8(v@), json_essence),
        None => true,
    }
}

/// Whether the declared content type has the JWT essence.
pub open spec fn spec_ct_jwt(headers: Seq<(String, String)>, jwt_essence: Seq<u8>) -> bool {
    match spec_content_type(headers) {
        Some(v) => spec_essence_matches(vstd::utf8::encode_utf8(v@), jwt_essence),
        None => false,
    }
}

/// A UserInfo request: the endpoint, the bearer credential, and the
/// verification policy for the response, fixed before the request is sent.
pub struct UserInfoRequest {
    pub url: String,
    pub access_token: String,
    pub require_signed_response: bool,
    pub signed_response_verifier: UserInfoVerifier,
}

impl UserInfoRequest {
    /// Builds the outgoing request: a GET on the endpoint asking for JSON,
    /// with the access token as a bearer credential.
    pub fn prepare_request(&self) -> (r: HttpRequest)
        ensures
            r.method@ == "GET"@,
            r.url@ == self.url@,
            r.headers@.len() == 2,
            r.headers@[0].0@ == "Accept"@,
            r.headers@[0].1@ == "application/json"@,
            r.headers@[1].0@ == "Authorization"@,
            r.headers@[1].1@ == "Bearer "@ + self.access_token@,
            r.body@.len() == 0,
    {
        let (auth_header, auth_value) = auth_bearer(self.access_token.as_str());
        let mut headers: Vec<(String, String)> = Vec::new();
        headers.push((String::from_str("Accept"), String::from_str(MIME_TYPE_JSON)));
        headers.push((auth_header, auth_value));
        proof {
            assert(MIME_TYPE_JSON@ == "application/json"@);
        }
        HttpRequest {
            method: String::from_str("GET"),
            url: self.url.clone(),
            headers,
            body: Vec::new(),
        }
    }

    /// Specifies whether to require the response to be a signed JWT.
    pub fn require_signed_response(self, require_signed_response: bool) -> (r: UserInfoRequest)
        ensures
            r == (UserInfoRequest { require_signed_response, ..self }),
    {
        UserInfoRequest { require_signed_response, ..self }
    }

    /// Specifies whether the issuer of a signed JWT response must match the
    /// provider's issuer. No effect on unsigned JSON responses.
    pub fn require_issuer_match(self, iss_required: bool) -> (r: UserInfoRequest)
        ensures
            r.url == self.url,
            r.access_token == self.access_token,
            r.require_signed_response == self.require_signed_response,
            r.signed_response_verifier == (UserInfoVerifier {
                iss_required,
                ..self.signed_response_verifier
            }),
    {
        UserInfoRequest {
            signed_response_verifier: self.signed_response_verifier.require_issuer_match(
                iss_required,
            ),
            ..self
        }
    }

    /// Specifies whether the audience of a signed JWT response must name
    /// the client id. No effect on unsigned JSON responses.
    pub fn require_audience_match(self, aud_required: bool) -> (r: UserInfoRequest)
        ensures
            r.url == self.url,
            r.access_token == self.access_token,
            r.require_signed_response == self.require_signed_response,
            r.signed_response_verifier == (UserInfoVerifier {
                aud_required,
                ..self.signed_response_verifier
            }),
    {
        UserInfoRequest {
            signed_response_verifier: self.signed_response_verifier.require_audience_match(
                aud_required,
            ),
            ..self
        }
    }

    /// Decides a transport response: an unexpected status is surfaced with
    /// the raw body preserved; a JSON response is parsed (unless a signed
    /// response is demanded, which rejects it before any parsing); a JWT
    /// response runs the full signature-then-policy path; anything else is
    /// rejected with the body preserved.
    ///
    /// The dispatch reads the first declared `Content-Type` value, as the
    /// response handling always has; a response without one is treated as
    /// JSON.
    pub fn user_info_response(self, response: HttpResponse) -> (r: Result<
        UserInfoClaims,
        UserInfoError,
    >)
        requires
            self.signed_response_verifier.wf(),
        ensures
            response.status != 200 ==> (r matches Err(e) && e matches UserInfoError::Response(
                s,
                b,
                _,
            ) && s == response.status && b@ == response.body@),
            (response.status == 200 && spec_ct_json_or_default(
                response.headers@,
                MIME_TYPE_JSON.spec_bytes(),
            ) && self.require_signed_response) ==> r == Err::<UserInfoClaims, UserInfoError>(
                UserInfoError::ClaimsVerification(ClaimsVerificationError::NoSignature),
            ),
            (response.status == 200 && !spec_ct_json_or_default(
                response.headers@,
                MIME_TYPE_JSON.spec_bytes(),
            ) && !spec_ct_jwt(response.headers@, MIME_TYPE_JWT.spec_bytes())) ==> (r matches Err(e)
                && e matches UserInfoError::Response(s, b, _) && s == response.status && b@
                == response.body@),
            r matches Ok(u) ==> u.standard_claims.sub@.len() > 0,
            r matches Ok(u) ==> (self.signed_response_verifier.expected_subject matches Some(s)
                ==> u.standard_claims.sub@ == s@),
            (response.status == 200 && spec_ct_json_or_default(
                response.headers@,
                MIME_TYPE_JSON.spec_bytes(),
            ) && !self.require_signed_response) ==> ((r is Ok <==> spec_user_info_doc_ok(
                response.body@,
            ) && (self.signed_response_verifier.expected_subject matches Some(s)
                ==> json_member_str_of(response.body@, "sub"@) == Some(s@))) && (r == Err::<
                UserInfoClaims,
                UserInfoError,
            >(UserInfoError::Parse) <==> !spec_user_info_doc_ok(response.body@)) && (r == Err::<
                UserInfoClaims,
                UserInfoError,
            >(UserInfoError::ClaimsVerification(ClaimsVerificationError::SubjectMismatch)) <==> (
            spec_user_info_doc_ok(response.body@)
                && (self.signed_response_verifier.expected_subject matches Some(s)
                && json_member_str_of(response.body@, "sub"@) != Some(s@))))),
            (response.status == 200 && !spec_ct_json_or_default(
                response.headers@,
                MIME_TYPE_JSON.spec_bytes(),
            ) && spec_ct_jwt(response.headers@, MIME_TYPE_JWT.spec_bytes())) ==> ((exists|
                t: JsonWebToken,
                a: Alg,
                c: TokenClaims,
            | #![auto]
                spec_accepted_user_info(
                    response.body@,
                    t,
                    a,
                    c,
                    self.signed_response_verifier.keys.keys@,
                    self.signed_response_verifier.allowed_algs@,
                    self.signed_response_verifier.allow_unsigned,
                    self.signed_response_verifier.spec_policy(),
                )) ==> r is Ok),
            (response.status == 200 && !spec_ct_json_or_default(
                response.headers@,
                MIME_TYPE_JSON.spec_bytes(),
            ) && spec_ct_jwt(response.headers@, MIME_TYPE_JWT.spec_bytes())) ==> (r matches Err(
                ue,
            ) ==> (ue matches UserInfoError::ClaimsVerification(_) || ue == UserInfoError::Parse
                || ue matches UserInfoError::Verification(_))),
    {
        let status = response.status;
        if status != 200 {
            return Err(
                UserInfoError::Response(
                    status,
                    response.body,
                    String::from_str("unexpected HTTP status code"),
                ),
            );
        }
        let (is_json, is_jwt) = match content_type_header(&response.headers) {
            None => (true, false),
            Some(v) => (
                content_type_has_essence(v.as_str(), MIME_TYPE_JSON),
                content_type_has_essence(v.as_str(), MIME_TYPE_JWT),
            ),
        };
        if is_json {
            if self.require_signed_response {
                return Err(
                    UserInfoError::ClaimsVerification(ClaimsVerificationError::NoSignature),
                );
            }
            let expected = match &self.signed_response_verifier.expected_subject {
                Some(s) => Some(s),
                None => None,
            };
            UserInfoClaims::from_json(response.body.as_slice(), expected)
        } else if is_jwt {
            match self.signed_response_verifier.verified_claims(response.body.as_slice()) {
                Ok(u) => Ok(u),
                Err(VerificationError::ClaimsVerification(e)) => Err(
                    UserInfoError::ClaimsVerification(e),
                ),
                Err(VerificationError::ClaimsParsing) => Err(UserInfoError::Parse),
                Err(VerificationError::InvalidFormat) => Err(UserInfoError::Parse),
                Err(e) => Err(UserInfoError::Verification(e)),
            }
        } else {
            Err(
                UserInfoError::Response(
                    status,
                    response.body,
                    String::from_str("unexpected response Content-Type"),
                ),
            )
        }
    }
}

/// The provider has no associated user info endpoint.
#[derive(Clone, Copy, Debug, PartialEq, Eq, Structural)]
pub struct NoUserInfoEndpoint;

} // verus!
