//! Core of an OpenID Connect / OAuth2 client: verification of ID Tokens and
//! UserInfo responses against cryptographic and claims-based policy.
//!
//! The verification engine is synchronous and pure: given the same token
//! bytes, key set and policy it always produces the same result. Transport
//! (the HTTP round trips) is left to the caller, which hands the engine plain
//! request and response values.

pub mod alg;
pub mod b64;
pub mod claims;
pub mod crypto;
pub mod errors;
pub mod http_utils;
pub mod json;
pub mod jwt;
pub mod keys;
pub mod policy;
pub mod user_info;
pub mod verify;
