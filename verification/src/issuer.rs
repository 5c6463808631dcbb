//! Issuing tokens. A token is handed out only after it was read back: what
//! leaves this module is accepted by [`crate::validator`] under the same key
//! and names the identity that it was issued for.

use vstd::prelude::*;
use crate::claims::{AccessClaimsView, InfoView, RefreshClaimsView, TokenView};
use crate::clock::{now, reading_of, ACCESS_LIFETIME, REFRESH_LIFETIME};
use crate::secret::Secret;
use crate::signing::{hs256_payload, hs256_signed, sign_hs256};
use crate::text::same_text;
use crate::validator::{
    access_section, access_verdict, decode_access, decode_refresh, refresh_section,
    refresh_verdict, TokenError,
};

verus! {

/// The result of issuing a token as contracts see it.
pub open spec fn issue_view(result: Result<String, TokenError>) -> Result<Seq<char>, TokenError> {
    match result {
        Ok(token) => Ok(token@),
        Err(error) => Err(error),
    }
}

/// The claims of the access token that is issued at `now` for an identity.
/// It expires five minutes later.
pub open spec fn access_claims_at(username: Seq<char>, name: Seq<char>, now: usize) -> AccessClaimsView
    recommends
        now + ACCESS_LIFETIME <= usize::MAX,
{
    AccessClaimsView {
        exp: (now + ACCESS_LIFETIME) as usize,
        custom: TokenView { username, name },
    }
}

/// The claims of the refresh token that is issued at `now` for a user. It
/// expires seven days later.
pub open spec fn refresh_claims_at(username: Seq<char>, now: usize) -> RefreshClaimsView
    recommends
        now + REFRESH_LIFETIME <= usize::MAX,
{
    RefreshClaimsView { exp: (now + REFRESH_LIFETIME) as usize, id: InfoView { username } }
}

/// What issuing an access token at `now` gives: the token that the signer
/// writes for [`access_claims_at`] under `key`, if that token, read under
/// `key` at `now`, gives these claims back. Where the expiry does not fit
/// the machine's word, the signer writes no token or the token reads back as
/// other claims, it is `Malformed`; where the token does not read back, the
/// reason why.
pub open spec fn issued_access(
    username: Seq<char>,
    name: Seq<char>,
    key: Seq<char>,
    now: usize,
) -> Result<Seq<char>, TokenError> {
    if now + ACCESS_LIFETIME > usize::MAX {
        Err(TokenError::Malformed)
    } else {
        match hs256_signed(
            (now + ACCESS_LIFETIME) as usize,
            access_section(),
            username,
            Some(name),
            key,
        ) {
            None => Err(TokenError::Malformed),
            Some(token) => match access_verdict(hs256_payload(token, access_section(), key), now) {
                Err(error) => Err(error),
                Ok(claims) => if claims == access_claims_at(username, name, now) {
                    Ok(token)
                } else {
                    Err(TokenError::Malformed)
                },
            },
        }
    }
}

/// What issuing a refresh token at `now` gives: as [`issued_access`], for
/// [`refresh_claims_at`].
pub open spec fn issued_refresh(username: Seq<char>, key: Seq<char>, now: usize) -> Result<
    Seq<char>,
    TokenError,
> {
    if now + REFRESH_LIFETIME > usize::MAX {
        Err(TokenError::Malformed)
    } else {
        match hs256_signed(
            (now + REFRESH_LIFETIME) as usize,
            refresh_section(),
            username,
            None,
            key,
        ) {
            None => Err(TokenError::Malformed),
            Some(token) => match refresh_verdict(hs256_payload(token, refresh_section(), key), now) {
                Err(error) => Err(error),
                Ok(claims) => if claims == refresh_claims_at(username, now) {
                    Ok(token)
                } else {
                    Err(TokenError::Malformed)
                },
            },
        }
    }
}

/// Issues an access token at the time `now`: it names `username` and `name`,
/// expires five minutes after `now` and is signed with `key`.
pub fn issue_access(username: &str, name: &str, key: &str, now: usize) -> (result: Result<
    String,
    TokenError,
>)
    ensures
        issue_view(result) == issued_access(username@, name@, key@, now),
{
    if now > usize::MAX - ACCESS_LIFETIME {
        return Err(TokenError::Malformed);
    }
    let exp: usize = now + ACCESS_LIFETIME;
    match sign_hs256(exp, "custom", username, Some(name), key) {
        None => Err(TokenError::Malformed),
        Some(token) => match decode_access(token.as_str(), key, now) {
            Err(error) => Err(error),
            Ok(claims) => {
                if claims.exp == exp && same_text(&claims.custom.username, username) && same_text(
                    &claims.custom.name,
                    name,
                ) {
                    Ok(token)
                } else {
                    Err(TokenError::Malformed)
                }
            },
        },
    }
}

/// Issues a refresh token at the time `now`: it names `username`, expires
/// seven days after `now` and is signed with `key`.
pub fn issue_refresh(username: &str, key: &str, now: usize) -> (result: Result<String, TokenError>)
    ensures
        issue_view(result) == issued_refresh(username@, key@, now),
{
    if now > usize::MAX - REFRESH_LIFETIME {
        return Err(TokenError::Malformed);
    }
    let exp: usize = now + REFRESH_LIFETIME;
    match sign_hs256(exp, "id", username, None, key) {
        None => Err(TokenError::Malformed),
        Some(token) => match decode_refresh(token.as_str(), key, now) {
            Err(error) => Err(error),
            Ok(claims) => {
                if claims.exp == exp && same_text(&claims.id.username, username) {
                    Ok(token)
                } else {
                    Err(TokenError::Malformed)
                }
            },
        },
    }
}

/// Issues an access token for `username` and `name` at the present time,
/// signed with the access key of `secret`.
pub fn encode_access_token(username: String, name: String, secret: &Secret) -> (result: Result<
    String,
    TokenError,
>)
    ensures
        exists|seconds: i64|
            issue_view(result) == #[trigger] issued_access(
                username@,
                name@,
                secret.access@,
                reading_of(seconds),
            ),
{
    issue_access(username.as_str(), name.as_str(), secret.access.as_str(), now())
}

/// Issues a refresh token for `username` at the present time, signed with
/// the refresh key of `secret`.
pub fn encode_refresh_token(username: String, secret: &Secret) -> (result: Result<
    String,
    TokenError,
>)
    ensures
        exists|seconds: i64|
            issue_view(result) == #[trigger] issued_refresh(
                username@,
                secret.refresh@,
                reading_of(seconds),
            ),
{
    issue_refresh(username.as_str(), secret.refresh.as_str(), now())
}

/// The life of an access token. A token that was issued at `issued_at` for
/// an identity reads, under the key that signed it, as the claims of that
/// identity at every time before its expiry, five minutes after the issue,
/// and as expired at every time from the expiry on.
pub proof fn lemma_access_token_life(
    username: Seq<char>,
    name: Seq<char>,
    key: Seq<char>,
    issued_at: usize,
    token: Seq<char>,
    at: usize,
)
    requires
        issued_access(username, name, key, issued_at) == Ok::<Seq<char>, TokenError>(token),
    ensures
        at < issued_at + ACCESS_LIFETIME ==> access_verdict(
            hs256_payload(token, access_section(), key),
            at,
        ) == Ok::<AccessClaimsView, TokenError>(access_claims_at(username, name, issued_at)),
        at >= issued_at + ACCESS_LIFETIME ==> access_verdict(
            hs256_payload(token, access_section(), key),
            at,
        ) == Err::<AccessClaimsView, TokenError>(TokenError::Expired),
{
}

/// The life of a refresh token. A token that was issued at `issued_at` for a
/// user reads, under the key that signed it, as the claims of that user at
/// every time before its expiry, seven days after the issue, and as expired
/// at every time from the expiry on.
pub proof fn lemma_refresh_token_life(
    username: Seq<char>,
    key: Seq<char>,
    issued_at: usize,
    token: Seq<char>,
    at: usize,
)
    requires
        issued_refresh(username, key, issued_at) == Ok::<Seq<char>, TokenError>(token),
    ensures
        at < issued_at + REFRESH_LIFETIME ==> refresh_verdict(
            hs256_payload(token, refresh_section(), key),
            at,
        ) == Ok::<RefreshClaimsView, TokenError>(refresh_claims_at(username, issued_at)),
        at >= issued_at + REFRESH_LIFETIME ==> refresh_verdict(
            hs256_payload(token, refresh_section(), key),
            at,
        ) == Err::<RefreshClaimsView, TokenError>(TokenError::Expired),
{
}

} // verus!
