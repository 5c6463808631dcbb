//! Reading a token: signature first, then the payload's shape, then its
//! expiry against a clock reading.

use vstd::prelude::*;
use crate::claims::{AccessClaims, AccessClaimsView, Info, InfoView, RefreshClaims, RefreshClaimsView, Token, TokenView};
use crate::signing::{hs256_payload, outcome_view, read_hs256, DecodeFailure, Payload, PayloadView};

verus! {

/// Why a token is not accepted.
#[derive(Debug, Clone, Copy, PartialEq, Eq, Structural)]
pub enum TokenError {
    /// The token cannot be taken apart, or its payload lacks an entry.
    Malformed,
    /// The token is well formed and was not signed with this key and
    /// HMAC-SHA256.
    BadSignature,
    /// The signature is good and the expiry has passed.
    Expired,
}

/// The section of an access token's payload that holds the identity.
pub open spec fn access_section() -> Seq<char> {
    "custom"@
}

/// The section of a refresh token's payload that holds the identity.
pub open spec fn refresh_section() -> Seq<char> {
    "id"@
}

/// How a refusal of the decoder is reported.
pub open spec fn failure_verdict(failure: DecodeFailure) -> TokenError {
    match failure {
        DecodeFailure::InvalidSignature => TokenError::BadSignature,
        DecodeFailure::InvalidAlgorithm => TokenError::BadSignature,
        DecodeFailure::Other => TokenError::Malformed,
    }
}

/// The verdict on an access token at the time `now`, given what the decoder
/// found: its refusal is passed on; a payload without `exp`, `username` or
/// `name`, or with an `exp` beyond the machine's word, is malformed; an
/// `exp` that is not after `now` is expired; what is left are the claims.
pub open spec fn access_verdict(outcome: Result<PayloadView, DecodeFailure>, now: usize) -> Result<
    AccessClaimsView,
    TokenError,
> {
    match outcome {
        Err(failure) => Err(failure_verdict(failure)),
        Ok(payload) => match (payload.exp, payload.username, payload.name) {
            (Some(exp), Some(username), Some(name)) => if exp > usize::MAX {
                Err(TokenError::Malformed)
            } else if exp <= now {
                Err(TokenError::Expired)
            } else {
                Ok(AccessClaimsView { exp: exp as usize, custom: TokenView { username, name } })
            },
            _ => Err(TokenError::Malformed),
        },
    }
}

/// The verdict on a refresh token at the time `now`, given what the decoder
/// found: as for an access token, but that the payload needs no `name`.
pub open spec fn refresh_verdict(outcome: Result<PayloadView, DecodeFailure>, now: usize) -> Result<
    RefreshClaimsView,
    TokenError,
> {
    match outcome {
        Err(failure) => Err(failure_verdict(failure)),
        Ok(payload) => match (payload.exp, payload.username) {
            (Some(exp), Some(username)) => if exp > usize::MAX {
                Err(TokenError::Malformed)
            } else if exp <= now {
                Err(TokenError::Expired)
            } else {
                Ok(RefreshClaimsView { exp: exp as usize, id: InfoView { username } })
            },
            _ => Err(TokenError::Malformed),
        },
    }
}

/// The result of reading an access token as contracts see it.
pub open spec fn access_view(result: Result<AccessClaims, TokenError>) -> Result<
    AccessClaimsView,
    TokenError,
> {
    match result {
        Ok(claims) => Ok(claims@),
        Err(error) => Err(error),
    }
}

/// The result of reading a refresh token as contracts see it.
pub open spec fn refresh_view(result: Result<RefreshClaims, TokenError>) -> Result<
    RefreshClaimsView,
    TokenError,
> {
    match result {
        Ok(claims) => Ok(claims@),
        Err(error) => Err(error),
    }
}

/// Reports a refusal of the decoder.
pub fn classify(failure: DecodeFailure) -> (error: TokenError)
    ensures
        error == failure_verdict(failure),
{
    match failure {
        DecodeFailure::InvalidSignature => TokenError::BadSignature,
        DecodeFailure::InvalidAlgorithm => TokenError::BadSignature,
        DecodeFailure::Other => TokenError::Malformed,
    }
}

/// The expiry of a payload as the claims hold it, if it is there, fits the
/// machine's word and lies after `now`.
fn live_expiry(exp: Option<u64>, now: usize) -> (result: Result<usize, TokenError>)
    ensures
        result == match exp {
            None => Err::<usize, TokenError>(TokenError::Malformed),
            Some(exp) => if exp > usize::MAX {
                Err(TokenError::Malformed)
            } else if exp <= now {
                Err(TokenError::Expired)
            } else {
                Ok(exp as usize)
            },
        },
{
    match exp {
        None => Err(TokenError::Malformed),
        Some(exp) => {
            if exp > usize::MAX as u64 {
                Err(TokenError::Malformed)
            } else if exp as usize <= now {
                Err(TokenError::Expired)
            } else {
                Ok(exp as usize)
            }
        },
    }
}

/// Judges an access token at the time `now` by what the decoder found in it.
pub fn judge_access(outcome: Result<Payload, DecodeFailure>, now: usize) -> (result: Result<
    AccessClaims,
    TokenError,
>)
    ensures
        access_view(result) == access_verdict(outcome_view(outcome), now),
{
    match outcome {
        Err(failure) => Err(classify(failure)),
        Ok(payload) => {
            let Payload { exp, username, name } = payload;
            match (username, name) {
                (Some(username), Some(name)) => match live_expiry(exp, now) {
                    Ok(exp) => Ok(AccessClaims { exp, custom: Token { username, name } }),
                    Err(error) => Err(error),
                },
                _ => Err(TokenError::Malformed),
            }
        },
    }
}

/// Judges a refresh token at the time `now` by what the decoder found in it.
pub fn judge_refresh(outcome: Result<Payload, DecodeFailure>, now: usize) -> (result: Result<
    RefreshClaims,
    TokenError,
>)
    ensures
        refresh_view(result) == refresh_verdict(outcome_view(outcome), now),
{
    match outcome {
        Err(failure) => Err(classify(failure)),
        Ok(payload) => {
            let Payload { exp, username, name: _ } = payload;
            match username {
                Some(username) => match live_expiry(exp, now) {
                    Ok(exp) => Ok(RefreshClaims { exp, id: Info { username } }),
                    Err(error) => Err(error),
                },
                None => Err(TokenError::Malformed),
            }
        },
    }
}

/// Reads the access token `token` under the key `key` at the time `now`: the
/// claims, if the token was signed with `key` and HMAC-SHA256, holds all of
/// them and expires after `now`; else the first of these that it fails.
pub fn decode_access(token: &str, key: &str, now: usize) -> (result: Result<AccessClaims, TokenError>)
    ensures
        access_view(result) == access_verdict(hs256_payload(token@, access_section(), key@), now),
{
    judge_access(read_hs256(token, "custom", key), now)
}

/// Reads the refresh token `token` under the key `key` at the time `now`: the
/// claims, if the token was signed with `key` and HMAC-SHA256, holds all of
/// them and expires after `now`; else the first of these that it fails.
pub fn decode_refresh(token: &str, key: &str, now: usize) -> (result: Result<
    RefreshClaims,
    TokenError,
>)
    ensures
        refresh_view(result) == refresh_verdict(hs256_payload(token@, refresh_section(), key@), now),
{
    judge_refresh(read_hs256(token, "id", key), now)
}

/// The signature is judged before anything else: a token that the decoder
/// turns down for its signature or its algorithm is badly signed at every
/// time, whatever its payload holds, and is never reported as expired.
pub proof fn lemma_signature_is_judged_first(failure: DecodeFailure, now: usize)
    requires
        failure == DecodeFailure::InvalidSignature || failure == DecodeFailure::InvalidAlgorithm,
    ensures
        access_verdict(Err(failure), now) == Err::<AccessClaimsView, TokenError>(
            TokenError::BadSignature,
        ),
        refresh_verdict(Err(failure), now) == Err::<RefreshClaimsView, TokenError>(
            TokenError::BadSignature,
        ),
{
}

/// Claims are given out only while they are live: whatever the decoder
/// found, claims that a verdict at the time `now` holds expire after `now`.
pub proof fn lemma_claims_are_live(outcome: Result<PayloadView, DecodeFailure>, now: usize)
    ensures
        access_verdict(outcome, now) matches Ok(claims) ==> claims.exp > now,
        refresh_verdict(outcome, now) matches Ok(claims) ==> claims.exp > now,
{
}

/// A verdict changes with time in one way only: claims that are given out
/// at some time are the verdict at every earlier time too, and a token that
/// is expired at some time is expired at every later time.
pub proof fn lemma_verdict_over_time(
    outcome: Result<PayloadView, DecodeFailure>,
    earlier: usize,
    later: usize,
)
    requires
        earlier <= later,
    ensures
        access_verdict(outcome, later) is Ok ==> access_verdict(outcome, earlier) == access_verdict(
            outcome,
            later,
        ),
        access_verdict(outcome, earlier) == Err::<AccessClaimsView, TokenError>(TokenError::Expired)
            ==> access_verdict(outcome, later) == Err::<AccessClaimsView, TokenError>(
            TokenError::Expired,
        ),
        refresh_verdict(outcome, later) is Ok ==> refresh_verdict(outcome, earlier)
            == refresh_verdict(outcome, later),
        refresh_verdict(outcome, earlier) == Err::<RefreshClaimsView, TokenError>(
            TokenError::Expired,
        ) ==> refresh_verdict(outcome, later) == Err::<RefreshClaimsView, TokenError>(
            TokenError::Expired,
        ),
{
}

} // verus!
