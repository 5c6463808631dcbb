//! Login: a pair of tokens for a user who knows the password.
//!
//! The flow asks the store for the user, checks the password, and looks at
//! the refresh token in the record. A valid one is handed back as it is. An
//! expired one is replaced: the flow asks the store to write the new token
//! and hands it out only once the store has done so.

use vstd::prelude::*;
use crate::claims::RefreshClaimsView;
use crate::errors::AuthError;
use crate::forms::{LoginForm, LoginFormView};
use crate::issuer::{issue_access, issued_access, refresh_claims_at};
use crate::password::{verifies, Authorize};
use crate::rotation::{
    expires_at, lemma_rotation, rotate, rotation, session_state, Rotation, RotationView,
    SessionState,
};
use crate::secret::{Secret, SecretView};
use crate::signing::hs256_payload;
use crate::store::{StoreEvent, StoreEventView, StoreRequest, StoreRequestView, User, UserView};
use crate::validator::{refresh_section, refresh_verdict, TokenError};

verus! {

/// What a login answers: the two tokens.
#[derive(Debug, Clone)]
pub struct LoginResponse {
    pub access_token: String,
    pub refresh_token: String,
}

/// A [`LoginResponse`] as contracts see it.
pub struct LoginResponseView {
    pub access_token: Seq<char>,
    pub refresh_token: Seq<char>,
}

impl View for LoginResponse {
    type V = LoginResponseView;

    open spec fn view(&self) -> LoginResponseView {
        LoginResponseView { access_token: self.access_token@, refresh_token: self.refresh_token@ }
    }
}

/// Where a login stands.
#[derive(Debug, Clone)]
pub enum LoginState {
    /// The store was asked for the user.
    Looking,
    /// The store was asked to write `refresh_token` to the record of the
    /// user `username`, whose name for display is `name`.
    Persisting { username: String, name: String, refresh_token: String },
    /// The client was answered.
    Done,
}

/// A [`LoginState`] as contracts see it.
pub enum LoginStateView {
    Looking,
    Persisting { username: Seq<char>, name: Seq<char>, refresh_token: Seq<char> },
    Done,
}

impl View for LoginState {
    type V = LoginStateView;

    open spec fn view(&self) -> LoginStateView {
        match self {
            LoginState::Looking => LoginStateView::Looking,
            LoginState::Persisting { username, name, refresh_token } => LoginStateView::Persisting {
                username: username@,
                name: name@,
                refresh_token: refresh_token@,
            },
            LoginState::Done => LoginStateView::Done,
        }
    }
}

/// What a login does next.
#[derive(Debug, Clone)]
pub enum LoginAction {
    /// Ask the store, and come back with its answer.
    Ask(StoreRequest),
    /// Hand the client the two tokens.
    Grant(LoginResponse),
    /// Tell the client why there are no tokens.
    Refuse(AuthError),
}

/// A [`LoginAction`] as contracts see it.
pub enum LoginActionView {
    Ask(StoreRequestView),
    Grant(LoginResponseView),
    Refuse(AuthError),
}

impl View for LoginAction {
    type V = LoginActionView;

    open spec fn view(&self) -> LoginActionView {
        match self {
            LoginAction::Ask(request) => LoginActionView::Ask(request@),
            LoginAction::Grant(response) => LoginActionView::Grant(response@),
            LoginAction::Refuse(error) => LoginActionView::Refuse(*error),
        }
    }
}

/// The name of a user for display: the name in the record, or the empty
/// string where the record has none.
pub open spec fn display_name(name: Option<Seq<char>>) -> Seq<char> {
    match name {
        Some(name) => name,
        None => Seq::empty(),
    }
}

/// The end of a login that has the refresh token `refresh_token` to hand
/// out: with an access token issued at `now`, it is granted; without, it is
/// refused.
pub open spec fn grant(
    username: Seq<char>,
    name: Seq<char>,
    refresh_token: Seq<char>,
    secret: SecretView,
    now: usize,
) -> (LoginStateView, LoginActionView) {
    match issued_access(username, name, secret.access, now) {
        Ok(access_token) => (
            LoginStateView::Done,
            LoginActionView::Grant(LoginResponseView { access_token, refresh_token }),
        ),
        Err(error) => (LoginStateView::Done, LoginActionView::Refuse(AuthError::Token(error))),
    }
}

/// The first step of a login: ask for the user.
pub open spec fn login_first(form: LoginFormView) -> (LoginStateView, LoginActionView) {
    (LoginStateView::Looking, LoginActionView::Ask(StoreRequestView::FindByUsername(form.username)))
}

/// What a login does with the record `user` at the time `now`: refuse a
/// password that does not pass; grant with the stored refresh token where
/// the session is valid; ask the store to write the replacement where it is
/// not.
pub open spec fn login_found(user: UserView, form: LoginFormView, secret: SecretView, now: usize) -> (
    LoginStateView,
    LoginActionView,
) {
    if !verifies(form.password, user.password_hash) {
        (LoginStateView::Done, LoginActionView::Refuse(AuthError::BadCredential))
    } else {
        match rotation(user.refresh_token, user.username, secret.refresh, now) {
            Err(error) => (LoginStateView::Done, LoginActionView::Refuse(AuthError::Token(error))),
            Ok(RotationView::Keep) => grant(
                user.username,
                display_name(user.name),
                user.refresh_token,
                secret,
                now,
            ),
            Ok(RotationView::Replace(refresh_token)) => (
                LoginStateView::Persisting {
                    username: user.username,
                    name: display_name(user.name),
                    refresh_token,
                },
                LoginActionView::Ask(
                    StoreRequestView::UpdateRefreshToken { uuid: user.uuid, refresh_token },
                ),
            ),
        }
    }
}

/// The step that a login takes in `state` on the store's answer `event` at
/// the time `now`. Without a record the user is not found. A replacement
/// that the store wrote is handed out; one that it did not write is not,
/// and the login ends with a store failure, as it does on an answer to a
/// question that was not asked.
pub open spec fn login_next(
    state: LoginStateView,
    event: StoreEventView,
    form: LoginFormView,
    secret: SecretView,
    now: usize,
) -> (LoginStateView, LoginActionView) {
    match (state, event) {
        (LoginStateView::Looking, StoreEventView::Record(None)) => (
            LoginStateView::Done,
            LoginActionView::Refuse(AuthError::NotFound),
        ),
        (LoginStateView::Looking, StoreEventView::Record(Some(user))) => login_found(
            user,
            form,
            secret,
            now,
        ),
        (
            LoginStateView::Persisting { username, name, refresh_token },
            StoreEventView::Written(true),
        ) => grant(username, name, refresh_token, secret, now),
        _ => (LoginStateView::Done, LoginActionView::Refuse(AuthError::StoreFailure)),
    }
}

/// A step of a login as contracts see it.
pub open spec fn login_view(step: (LoginState, LoginAction)) -> (LoginStateView, LoginActionView) {
    (step.0@, step.1@)
}

/// Ends a login that has `refresh_token` to hand out.
fn finish(username: &str, name: &str, refresh_token: String, secret: &Secret, now: usize) -> (step: (
    LoginState,
    LoginAction,
))
    ensures
        login_view(step) == grant(username@, name@, refresh_token@, secret@, now),
{
    match issue_access(username, name, secret.access.as_str(), now) {
        Ok(access_token) => (
            LoginState::Done,
            LoginAction::Grant(LoginResponse { access_token, refresh_token }),
        ),
        Err(error) => (LoginState::Done, LoginAction::Refuse(AuthError::Token(error))),
    }
}

/// Decides a login on the record of its user.
fn decide(user: User, form: &LoginForm, secret: &Secret, now: usize) -> (step: (
    LoginState,
    LoginAction,
))
    ensures
        login_view(step) == login_found(user@, form@, secret@, now),
{
    if !form.verify_pwsh(&user.password_hash) {
        return (LoginState::Done, LoginAction::Refuse(AuthError::BadCredential));
    }
    let User { uuid, username, name, refresh_token, .. } = user;
    let name = match name {
        Some(name) => name,
        None => String::new(),
    };
    match rotate(refresh_token.as_str(), username.as_str(), secret.refresh.as_str(), now) {
        Err(error) => (LoginState::Done, LoginAction::Refuse(AuthError::Token(error))),
        Ok(Rotation::Keep) => finish(username.as_str(), name.as_str(), refresh_token, secret, now),
        Ok(Rotation::Replace(replacement)) => (
            LoginState::Persisting { username, name, refresh_token: replacement.clone() },
            LoginAction::Ask(StoreRequest::UpdateRefreshToken { uuid, refresh_token: replacement }),
        ),
    }
}

/// Starts a login.
pub fn login_begin(form: &LoginForm) -> (step: (LoginState, LoginAction))
    ensures
        login_view(step) == login_first(form@),
{
    (LoginState::Looking, LoginAction::Ask(StoreRequest::FindByUsername(form.username.clone())))
}

/// Takes a login one step further on the store's answer `event`, at the
/// time `now`.
pub fn login_step(
    state: LoginState,
    event: StoreEvent,
    form: &LoginForm,
    secret: &Secret,
    now: usize,
) -> (step: (LoginState, LoginAction))
    ensures
        login_view(step) == login_next(state@, event@, form@, secret@, now),
{
    match (state, event) {
        (LoginState::Looking, StoreEvent::Record(None)) => (
            LoginState::Done,
            LoginAction::Refuse(AuthError::NotFound),
        ),
        (LoginState::Looking, StoreEvent::Record(Some(user))) => decide(user, form, secret, now),
        (LoginState::Persisting { username, name, refresh_token }, StoreEvent::Written(true)) => {
            finish(username.as_str(), name.as_str(), refresh_token, secret, now)
        },
        _ => (LoginState::Done, LoginAction::Refuse(AuthError::StoreFailure)),
    }
}

/// How many questions a login in `state` may still ask of the store.
pub open spec fn login_steps_left(state: LoginStateView) -> nat {
    match state {
        LoginStateView::Looking => 2,
        LoginStateView::Persisting { .. } => 1,
        LoginStateView::Done => 0,
    }
}

/// A login ends: each step either asks the store and leaves fewer questions
/// to ask, or answers the client and is done. It asks the store twice at
/// most.
pub proof fn lemma_login_ends(
    state: LoginStateView,
    event: StoreEventView,
    form: LoginFormView,
    secret: SecretView,
    now: usize,
)
    ensures
        ({
            let (next, action) = login_next(state, event, form, secret, now);
            if action is Ask {
                0 < login_steps_left(next) < login_steps_left(state)
            } else {
                next == LoginStateView::Done
            }
        }),
{
}

/// The refresh token that a login hands out stands in the store: it is the
/// token of the record that the store found, where that session is valid,
/// or the replacement of which the store has said that it is written.
pub proof fn lemma_granted_token_is_stored(
    state: LoginStateView,
    event: StoreEventView,
    form: LoginFormView,
    secret: SecretView,
    now: usize,
)
    ensures
        login_next(state, event, form, secret, now).1 matches LoginActionView::Grant(response) ==> {
            ||| {
                &&& state == LoginStateView::Looking
                &&& event matches StoreEventView::Record(Some(user))
                &&& verifies(form.password, user.password_hash)
                &&& session_state(user.refresh_token, secret.refresh, now) == SessionState::Valid
                &&& response.refresh_token == user.refresh_token
            }
            ||| {
                &&& state matches LoginStateView::Persisting { refresh_token, .. }
                &&& event == StoreEventView::Written(true)
                &&& response.refresh_token == refresh_token
            }
        },
{
}

/// Rotation at login. Let the record of a user whose password passes hold a
/// refresh token that expires at `expiry`. A login before `expiry` asks
/// nothing of the store and, if it grants, hands the stored token out as it
/// is. A login at `expiry` or later grants nothing yet: if it does not fail,
/// it asks the store to write, to this user's record, another token, which
/// expires seven days after the login, later than `expiry`. When the store
/// answers, at the time `later`, that token is the one that the login hands
/// out if it was written, and none is handed out if it was not.
pub proof fn lemma_login_rotates(
    user: UserView,
    form: LoginFormView,
    secret: SecretView,
    expiry: usize,
    now: usize,
    later: usize,
)
    requires
        verifies(form.password, user.password_hash),
        expires_at(user.refresh_token, secret.refresh, expiry),
    ensures
        now < expiry ==> match login_found(user, form, secret, now) {
            (LoginStateView::Done, LoginActionView::Grant(response)) => response.refresh_token
                == user.refresh_token,
            (LoginStateView::Done, LoginActionView::Refuse(AuthError::Token(_))) => true,
            _ => false,
        },
        now >= expiry ==> match login_found(user, form, secret, now) {
            (
                LoginStateView::Persisting { username, name, refresh_token },
                LoginActionView::Ask(StoreRequestView::UpdateRefreshToken { uuid, refresh_token: asked }),
            ) => {
                &&& uuid == user.uuid
                &&& asked == refresh_token
                &&& refresh_token != user.refresh_token
                &&& refresh_verdict(
                    hs256_payload(refresh_token, refresh_section(), secret.refresh),
                    now,
                ) == Ok::<RefreshClaimsView, TokenError>(refresh_claims_at(user.username, now))
                &&& refresh_claims_at(user.username, now).exp > expiry
                &&& login_next(
                    LoginStateView::Persisting { username, name, refresh_token },
                    StoreEventView::Written(true),
                    form,
                    secret,
                    later,
                ).1 matches LoginActionView::Grant(response) ==> response.refresh_token
                    == refresh_token
                &&& login_next(
                    LoginStateView::Persisting { username, name, refresh_token },
                    StoreEventView::Written(false),
                    form,
                    secret,
                    later,
                ) == (LoginStateView::Done, LoginActionView::Refuse(AuthError::StoreFailure))
            },
            (LoginStateView::Done, LoginActionView::Refuse(AuthError::Token(_))) => true,
            _ => false,
        },
{
    lemma_rotation(user.refresh_token, user.username, secret.refresh, expiry, now);
}

} // verus!
