//! Refresh: a new access token for the user whose record holds the refresh
//! token that the client sends.

use vstd::prelude::*;
use crate::errors::AuthError;
use crate::issuer::{issue_access, issued_access};
use crate::login::display_name;
use crate::secret::{Secret, SecretView};
use crate::store::{StoreEvent, StoreEventView, StoreRequest, StoreRequestView, User};

verus! {

/// What a refresh answers: the new access token.
#[derive(Debug, Clone)]
pub struct RefreshResponse {
    pub access_token: String,
}

/// Where a refresh stands.
#[derive(Debug, Clone, Copy, PartialEq, Eq, Structural)]
pub enum RefreshState {
    /// The store was asked for the user.
    Looking,
    /// The client was answered.
    Done,
}

/// What a refresh does next.
#[derive(Debug, Clone)]
pub enum RefreshAction {
    /// Ask the store, and come back with its answer.
    Ask(StoreRequest),
    /// Hand the client the access token.
    Grant(RefreshResponse),
    /// Tell the client why there is no token.
    Refuse(AuthError),
}

/// A [`RefreshAction`] as contracts see it.
pub enum RefreshActionView {
    Ask(StoreRequestView),
    Grant { access_token: Seq<char> },
    Refuse(AuthError),
}

impl View for RefreshAction {
    type V = RefreshActionView;

    open spec fn view(&self) -> RefreshActionView {
        match self {
            RefreshAction::Ask(request) => RefreshActionView::Ask(request@),
            RefreshAction::Grant(response) => RefreshActionView::Grant {
                access_token: response.access_token@,
            },
            RefreshAction::Refuse(error) => RefreshActionView::Refuse(*error),
        }
    }
}

/// The first step of a refresh: ask for the user whose record holds the
/// token.
pub open spec fn refresh_first(token: Seq<char>) -> (RefreshState, RefreshActionView) {
    (RefreshState::Looking, RefreshActionView::Ask(StoreRequestView::FindByRefreshToken(token)))
}

/// The step that a refresh takes in `state` on the store's answer `event` at
/// the time `now`: without a record the token is not found; with one, the
/// user gets an access token issued at `now`, or is told that none could be
/// issued. An answer to a question that was not asked is a store failure.
pub open spec fn refresh_next(
    state: RefreshState,
    event: StoreEventView,
    secret: SecretView,
    now: usize,
) -> (RefreshState, RefreshActionView) {
    match (state, event) {
        (RefreshState::Looking, StoreEventView::Record(None)) => (
            RefreshState::Done,
            RefreshActionView::Refuse(AuthError::NotFound),
        ),
        (RefreshState::Looking, StoreEventView::Record(Some(user))) => match issued_access(
            user.username,
            display_name(user.name),
            secret.access,
            now,
        ) {
            Ok(access_token) => (RefreshState::Done, RefreshActionView::Grant { access_token }),
            Err(error) => (RefreshState::Done, RefreshActionView::Refuse(AuthError::Token(error))),
        },
        _ => (RefreshState::Done, RefreshActionView::Refuse(AuthError::StoreFailure)),
    }
}

/// A step of a refresh as contracts see it.
pub open spec fn refresh_view(step: (RefreshState, RefreshAction)) -> (
    RefreshState,
    RefreshActionView,
) {
    (step.0, step.1@)
}

/// Starts a refresh with the refresh token that the client sent.
pub fn refresh_begin(token: &str) -> (step: (RefreshState, RefreshAction))
    ensures
        refresh_view(step) == refresh_first(token@),
{
    (RefreshState::Looking, RefreshAction::Ask(StoreRequest::FindByRefreshToken(token.to_owned())))
}

/// Takes a refresh one step further on the store's answer `event`, at the
/// time `now`.
pub fn refresh_step(state: RefreshState, event: StoreEvent, secret: &Secret, now: usize) -> (step: (
    RefreshState,
    RefreshAction,
))
    ensures
        refresh_view(step) == refresh_next(state, event@, secret@, now),
{
    match (state, event) {
        (RefreshState::Looking, StoreEvent::Record(None)) => (
            RefreshState::Done,
            RefreshAction::Refuse(AuthError::NotFound),
        ),
        (RefreshState::Looking, StoreEvent::Record(Some(user))) => {
            let User { username, name, .. } = user;
            let name = match name {
                Some(name) => name,
                None => String::new(),
            };
            match issue_access(username.as_str(), name.as_str(), secret.access.as_str(), now) {
                Ok(access_token) => (
                    RefreshState::Done,
                    RefreshAction::Grant(RefreshResponse { access_token }),
                ),
                Err(error) => (RefreshState::Done, RefreshAction::Refuse(AuthError::Token(error))),
            }
        },
        _ => (RefreshState::Done, RefreshAction::Refuse(AuthError::StoreFailure)),
    }
}

} // verus!
