//! The session of a user: the one refresh token in the user's record, and
//! its replacement at login once it has expired.

use vstd::prelude::*;
use crate::claims::{RefreshClaims, RefreshClaimsView};
use crate::clock::REFRESH_LIFETIME;
use crate::issuer::{issue_refresh, issued_refresh, refresh_claims_at};
use crate::signing::hs256_payload;
use crate::validator::{
    decode_refresh, refresh_section, refresh_verdict, refresh_view, TokenError,
};

verus! {

/// The state of a user's session at a login.
#[derive(Debug, Clone, Copy, PartialEq, Eq, Structural)]
pub enum SessionState {
    /// The stored refresh token reads under the refresh key and has not
    /// expired.
    Valid,
    /// The stored refresh token has expired, or does not read at all: a
    /// record with a broken token leads to a new token, not to a login that
    /// fails.
    Expired,
}

/// What a login does with the stored refresh token.
#[derive(Debug, Clone)]
pub enum Rotation {
    /// The stored token stays, and nothing is written.
    Keep,
    /// This token is to be written to the user's record in place of the
    /// stored one. It is handed to the client only once it is written.
    Replace(String),
}

/// A [`Rotation`] as contracts see it.
pub enum RotationView {
    Keep,
    Replace(Seq<char>),
}

impl View for Rotation {
    type V = RotationView;

    open spec fn view(&self) -> RotationView {
        match self {
            Rotation::Keep => RotationView::Keep,
            Rotation::Replace(token) => RotationView::Replace(token@),
        }
    }
}

/// The state of a session whose stored token got `verdict`.
pub open spec fn state_after(verdict: Result<RefreshClaimsView, TokenError>) -> SessionState {
    match verdict {
        Ok(_) => SessionState::Valid,
        Err(_) => SessionState::Expired,
    }
}

/// The state at the time `now` of a session whose stored token is `stored`.
pub open spec fn session_state(stored: Seq<char>, key: Seq<char>, now: usize) -> SessionState {
    state_after(refresh_verdict(hs256_payload(stored, refresh_section(), key), now))
}

/// What a login at the time `now` does with the stored token `stored` of the
/// user `username`: a valid session keeps it; an expired one replaces it by
/// the refresh token issued at `now`, and fails where none can be issued.
pub open spec fn rotation(stored: Seq<char>, username: Seq<char>, key: Seq<char>, now: usize) -> Result<
    RotationView,
    TokenError,
> {
    match session_state(stored, key, now) {
        SessionState::Valid => Ok(RotationView::Keep),
        SessionState::Expired => match issued_refresh(username, key, now) {
            Ok(token) => Ok(RotationView::Replace(token)),
            Err(error) => Err(error),
        },
    }
}

/// The result of [`rotate`] as contracts see it.
pub open spec fn rotation_view(result: Result<Rotation, TokenError>) -> Result<
    RotationView,
    TokenError,
> {
    match result {
        Ok(rotation) => Ok(rotation@),
        Err(error) => Err(error),
    }
}

/// The state of a session by the verdict on its stored token.
pub fn judge_session(verdict: &Result<RefreshClaims, TokenError>) -> (state: SessionState)
    ensures
        state == state_after(refresh_view(*verdict)),
{
    match verdict {
        Ok(_) => SessionState::Valid,
        Err(_) => SessionState::Expired,
    }
}

/// Decides at the time `now` what a login does with the stored refresh
/// token `stored` of the user `username`, and issues the replacement where
/// one is due.
pub fn rotate(stored: &str, username: &str, key: &str, now: usize) -> (result: Result<
    Rotation,
    TokenError,
>)
    ensures
        rotation_view(result) == rotation(stored@, username@, key@, now),
{
    let verdict = decode_refresh(stored, key, now);
    match judge_session(&verdict) {
        SessionState::Valid => Ok(Rotation::Keep),
        SessionState::Expired => match issue_refresh(username, key, now) {
            Ok(token) => Ok(Rotation::Replace(token)),
            Err(error) => Err(error),
        },
    }
}

/// Whether `stored` is a refresh token that expires at `expiry`: it was
/// signed with `key`, and its payload names a user and that expiry.
pub open spec fn expires_at(stored: Seq<char>, key: Seq<char>, expiry: usize) -> bool {
    hs256_payload(stored, refresh_section(), key) matches Ok(payload) && payload.exp == Some(
        expiry as u64,
    ) && payload.username is Some
}

/// Rotation. Let the stored token be a refresh token that expires at
/// `expiry`. A login before `expiry` keeps it. A login at `expiry` or later
/// never keeps it: if it does not fail, it replaces the stored token by
/// another token, which reads under the same key as the claims of the same
/// user with an expiry seven days after the login, later than `expiry`.
pub proof fn lemma_rotation(
    stored: Seq<char>,
    username: Seq<char>,
    key: Seq<char>,
    expiry: usize,
    now: usize,
)
    requires
        expires_at(stored, key, expiry),
    ensures
        now < expiry ==> session_state(stored, key, now) == SessionState::Valid && rotation(
            stored,
            username,
            key,
            now,
        ) == Ok::<RotationView, TokenError>(RotationView::Keep),
        now >= expiry ==> session_state(stored, key, now) == SessionState::Expired && match rotation(
            stored,
            username,
            key,
            now,
        ) {
            Ok(RotationView::Keep) => false,
            Ok(RotationView::Replace(token)) => {
                &&& token != stored
                &&& refresh_verdict(hs256_payload(token, refresh_section(), key), now) == Ok::<
                    RefreshClaimsView,
                    TokenError,
                >(refresh_claims_at(username, now))
                &&& refresh_claims_at(username, now).exp == now + REFRESH_LIFETIME
                &&& refresh_claims_at(username, now).exp > expiry
            },
            Err(_) => true,
        },
{
}

/// A stored token that does not read under the key, whatever the reason, is
/// never kept.
pub proof fn lemma_broken_token_is_replaced(
    stored: Seq<char>,
    username: Seq<char>,
    key: Seq<char>,
    now: usize,
)
    requires
        hs256_payload(stored, refresh_section(), key) is Err,
    ensures
        session_state(stored, key, now) == SessionState::Expired,
        rotation(stored, username, key, now) != Ok::<RotationView, TokenError>(RotationView::Keep),
{
}

} // verus!
