//! Compact signed tokens (HMAC-SHA256), as `jsonwebtoken` writes and reads
//! them.
//!
//! A token's payload is a JSON object with the entry `exp` and one more
//! entry, the section, that holds the identity: `username` and, in an access
//! token, `name`.

use vstd::prelude::*;
use jsonwebtoken::errors::ErrorKind;
use jsonwebtoken::{Algorithm, DecodingKey, EncodingKey, Header, Validation};
use serde_json::Value;
use crate::text::{slice_text, text};

verus! {

/// Why the decoder turned a token down.
#[derive(Debug, Clone, Copy, PartialEq, Eq, Structural)]
pub enum DecodeFailure {
    /// The signature is not the one that the key gives for the token's
    /// header and payload.
    InvalidSignature,
    /// The header names another algorithm than HMAC-SHA256.
    InvalidAlgorithm,
    /// Anything else: the token does not have three parts, a part is not
    /// base64, the header or the payload is not the JSON expected, or the
    /// payload has no `exp`.
    Other,
}

/// What the payload of a token with a good signature holds of the entries
/// that this library reads, each as far as it is there with the right type.
#[derive(Debug, Clone)]
pub struct Payload {
    pub exp: Option<u64>,
    pub username: Option<String>,
    pub name: Option<String>,
}

/// A [`Payload`] as contracts see it.
pub struct PayloadView {
    pub exp: Option<u64>,
    pub username: Option<Seq<char>>,
    pub name: Option<Seq<char>>,
}

impl View for Payload {
    type V = PayloadView;

    open spec fn view(&self) -> PayloadView {
        PayloadView { exp: self.exp, username: text(self.username), name: text(self.name) }
    }
}

/// The decoder's answer as contracts see it.
pub open spec fn outcome_view(outcome: Result<Payload, DecodeFailure>) -> Result<
    PayloadView,
    DecodeFailure,
> {
    match outcome {
        Ok(payload) => Ok(payload@),
        Err(failure) => Err(failure),
    }
}

/// The token that `jsonwebtoken::encode` writes with its default header for
/// the payload `{"exp": exp, section: {"username": username, "name": name}}`
/// (without `name` where it is `None`) under the HMAC key `key`, or `None`
/// where it writes none.
pub uninterp spec fn hs256_signed(
    exp: usize,
    section: Seq<char>,
    username: Seq<char>,
    name: Option<Seq<char>>,
    key: Seq<char>,
) -> Option<Seq<char>>;

/// What `jsonwebtoken::decode` finds in `token` under the HMAC key `key`
/// when it accepts HMAC-SHA256 only and leaves the expiry unchecked: the
/// entries `exp`, `username` and `name`, the last two read in `section`, or
/// the reason for which it turns the token down.
pub uninterp spec fn hs256_payload(token: Seq<char>, section: Seq<char>, key: Seq<char>) -> Result<
    PayloadView,
    DecodeFailure,
>;

/// Calls `jsonwebtoken::encode` with the default header, which names
/// HMAC-SHA256, on the payload that the arguments describe, with the bytes of
/// `key` as the secret. The result depends on the arguments alone, and that
/// is all the contract claims: it gives the result its name.
#[verifier::external_body]
pub(crate) fn sign_hs256(
    exp: usize,
    section: &str,
    username: &str,
    name: Option<&str>,
    key: &str,
) -> (token: Option<String>)
    ensures
        text(token) == hs256_signed(
            exp,
            section@,
            username@,
            slice_text(name),
            key@,
        ),
{
    let mut identity = serde_json::Map::new();
    identity.insert("username".to_string(), Value::from(username));
    identity.extend(name.map(|n| ("name".to_string(), Value::from(n))));
    let mut payload = serde_json::Map::new();
    payload.insert("exp".to_string(), Value::from(exp));
    payload.insert(section.to_string(), Value::Object(identity));
    jsonwebtoken::encode(&Header::default(), &payload, &EncodingKey::from_secret(key.as_bytes())).ok()
}

/// Calls `jsonwebtoken::decode` with the bytes of `key` as the secret and a
/// validation that accepts HMAC-SHA256 only, requires `exp` and does not
/// compare it with the clock. The decoder checks the signature before it
/// reads the payload. What it returns then depends on the arguments alone,
/// and that is all the contract claims: it gives the result its name. (The
/// decoder reads the system clock even so, and panics if that stands before
/// 1970.)
#[verifier::external_body]
pub(crate) fn read_hs256(token: &str, section: &str, key: &str) -> (outcome: Result<
    Payload,
    DecodeFailure,
>)
    ensures
        outcome_view(outcome) == hs256_payload(token@, section@, key@),
{
    let mut rules = Validation::new(Algorithm::HS256);
    rules.validate_exp = false;
    match jsonwebtoken::decode::<Value>(token, &DecodingKey::from_secret(key.as_bytes()), &rules) {
        Ok(data) => Ok(Payload {
            exp: data.claims["exp"].as_u64(),
            username: data.claims[section]["username"].as_str().map(String::from),
            name: data.claims[section]["name"].as_str().map(String::from),
        }),
        Err(error) => Err(match error.kind() {
            ErrorKind::InvalidSignature => DecodeFailure::InvalidSignature,
            ErrorKind::InvalidAlgorithm => DecodeFailure::InvalidAlgorithm,
            _ => DecodeFailure::Other,
        }),
    }
}

} // verus!
