//! The guard of the protected operations: from the token that a request
//! bears to the identity that it proves.
//!
//! A request bears its token in the authorization header, after the scheme
//! `Bearer` and a space. A header without the scheme is taken as the token
//! itself.

use vstd::prelude::*;
use crate::claims::{Info, InfoView, Token, TokenView};
use crate::errors::Unauthorized;
use crate::secret::Secret;
use crate::signing::hs256_payload;
use crate::text::{after_prefix, slice_text, starts_with};
use crate::validator::{
    access_section, access_verdict, decode_access, decode_refresh, refresh_section,
    refresh_verdict,
};

verus! {

/// The scheme under which a request bears a token.
pub open spec fn bearer_scheme() -> Seq<char> {
    "Bearer "@
}

/// The token that an authorization header bears: what follows the scheme,
/// or all of a header that does not begin with the scheme.
pub open spec fn credential_of(header: Seq<char>) -> Seq<char> {
    if bearer_scheme().is_prefix_of(header) {
        header.skip(bearer_scheme().len() as int)
    } else {
        header
    }
}

/// Whom a request with the authorization header `header` acts for at the
/// time `now`: without the header, or with an empty token in it, the token
/// is missing; a token that does not read as an access token under `key` is
/// invalid, whatever the reason; else the token's identity.
pub open spec fn access_identity(header: Option<Seq<char>>, key: Seq<char>, now: usize) -> Result<
    TokenView,
    Unauthorized,
> {
    match header {
        None => Err(Unauthorized::MissingToken),
        Some(header) => if credential_of(header).len() == 0 {
            Err(Unauthorized::MissingToken)
        } else {
            match access_verdict(hs256_payload(credential_of(header), access_section(), key), now) {
                Ok(claims) => Ok(claims.custom),
                Err(_) => Err(Unauthorized::InvalidToken),
            }
        },
    }
}

/// Whose session a request with the authorization header `header` continues
/// at the time `now`: as [`access_identity`], for a refresh token.
pub open spec fn refresh_identity(header: Option<Seq<char>>, key: Seq<char>, now: usize) -> Result<
    InfoView,
    Unauthorized,
> {
    match header {
        None => Err(Unauthorized::MissingToken),
        Some(header) => if credential_of(header).len() == 0 {
            Err(Unauthorized::MissingToken)
        } else {
            match refresh_verdict(hs256_payload(credential_of(header), refresh_section(), key), now) {
                Ok(claims) => Ok(claims.id),
                Err(_) => Err(Unauthorized::InvalidToken),
            }
        },
    }
}

/// The token that the authorization header `header` bears.
pub fn credential<'a>(header: &'a str) -> (token: &'a str)
    ensures
        token@ == credential_of(header@),
{
    if starts_with(header, "Bearer ") {
        after_prefix(header, "Bearer ")
    } else {
        header
    }
}

/// The guard's answer for an access token as contracts see it.
pub open spec fn token_view(result: Result<Token, Unauthorized>) -> Result<TokenView, Unauthorized> {
    match result {
        Ok(token) => Ok(token@),
        Err(error) => Err(error),
    }
}

/// The guard's answer for a refresh token as contracts see it.
pub open spec fn info_view(result: Result<Info, Unauthorized>) -> Result<InfoView, Unauthorized> {
    match result {
        Ok(info) => Ok(info@),
        Err(error) => Err(error),
    }
}

impl Token {
    /// The identity of a request at the time `now`. `header` is what the
    /// request's authorization header holds, `None` for a request without
    /// that header.
    pub fn from_request(header: Option<&str>, secret: &Secret, now: usize) -> (result: Result<
        Token,
        Unauthorized,
    >)
        ensures
            token_view(result) == access_identity(slice_text(header), secret.access@, now),
    {
        match header {
            None => Err(Unauthorized::MissingToken),
            Some(header) => {
                let token = credential(header);
                if token.is_empty() {
                    return Err(Unauthorized::MissingToken);
                }
                match decode_access(token, secret.access.as_str(), now) {
                    Ok(claims) => Ok(claims.custom),
                    Err(_) => Err(Unauthorized::InvalidToken),
                }
            },
        }
    }
}

impl Info {
    /// The user of a request that bears a refresh token, at the time `now`.
    /// `header` is what the request's authorization header holds, `None` for
    /// a request without that header.
    pub fn from_request(header: Option<&str>, secret: &Secret, now: usize) -> (result: Result<
        Info,
        Unauthorized,
    >)
        ensures
            info_view(result) == refresh_identity(slice_text(header), secret.refresh@, now),
    {
        match header {
            None => Err(Unauthorized::MissingToken),
            Some(header) => {
                let token = credential(header);
                if token.is_empty() {
                    return Err(Unauthorized::MissingToken);
                }
                match decode_refresh(token, secret.refresh.as_str(), now) {
                    Ok(claims) => Ok(claims.id),
                    Err(_) => Err(Unauthorized::InvalidToken),
                }
            },
        }
    }
}

} // verus!
