//! Registration: a new user, if neither the email nor the username is taken.
//!
//! The flow asks the store whether the email is in use, then whether the
//! username is, then to add the record; the first answer that stands in the
//! way ends it.

use vstd::prelude::*;
use crate::errors::AuthError;
use crate::forms::{RegisterForm, RegisterFormView};
use crate::issuer::{issue_refresh, issued_refresh};
use crate::password::{hash_password, hashed};
use crate::secret::{Secret, SecretView};
use crate::store::{StoreEvent, StoreEventView, StoreRequest, StoreRequestView, User, UserView};
use crate::text::{copy_text, text};

verus! {

/// Where a registration stands.
#[derive(Debug, Clone, Copy, PartialEq, Eq, Structural)]
pub enum RegisterState {
    /// The store was asked whether the email is in use.
    CheckingEmail,
    /// The store was asked whether the username is in use.
    CheckingUsername,
    /// The store was asked to add the record.
    Inserting,
    /// The client was answered.
    Done,
}

/// What a registration does next.
#[derive(Debug, Clone)]
pub enum RegisterAction {
    /// Ask the store, and come back with its answer.
    Ask(StoreRequest),
    /// Tell the client that the user was created. `name` is the name that
    /// the user gave, for the message.
    Created { name: Option<String> },
    /// Tell the client why there is no new user.
    Refuse(AuthError),
}

/// A [`RegisterAction`] as contracts see it.
pub enum RegisterActionView {
    Ask(StoreRequestView),
    Created { name: Option<Seq<char>> },
    Refuse(AuthError),
}

impl View for RegisterAction {
    type V = RegisterActionView;

    open spec fn view(&self) -> RegisterActionView {
        match self {
            RegisterAction::Ask(request) => RegisterActionView::Ask(request@),
            RegisterAction::Created { name } => RegisterActionView::Created { name: text(*name) },
            RegisterAction::Refuse(error) => RegisterActionView::Refuse(*error),
        }
    }
}

/// `uuid::Uuid::new_v4().as_u128()`: the 128 bits of a random UUID. Nothing
/// is promised of them.
#[verifier::external_body]
fn random_uuid() -> u128 {
    uuid::Uuid::new_v4().as_u128()
}

/// The record of the user that registers with `form` at the time `now`
/// under the key `uuid`: the password hashed with the salt of `secret`, and
/// a refresh token issued at `now`. There is no record where no token can
/// be issued.
pub open spec fn new_user(form: RegisterFormView, secret: SecretView, now: usize, uuid: u128) -> Result<
    UserView,
    AuthError,
> {
    match issued_refresh(form.username, secret.refresh, now) {
        Err(error) => Err(AuthError::Token(error)),
        Ok(refresh_token) => Ok(
            UserView {
                uuid,
                username: form.username,
                email: form.email,
                password_hash: hashed(form.password, vstd::utf8::encode_utf8(secret.salt)),
                name: form.name,
                refresh_token,
                photo_url: form.photo_url,
                refresh_creation: now,
            },
        ),
    }
}

/// The first step of a registration: ask whether the email is in use.
pub open spec fn register_first(form: RegisterFormView) -> (RegisterState, RegisterActionView) {
    (RegisterState::CheckingEmail, RegisterActionView::Ask(StoreRequestView::EmailExists(form.email)))
}

/// The step that a registration takes in `state` on the store's answer
/// `event`. An email or a username in use ends it with a conflict; a record
/// that the store did not add, with a store failure; and so does an answer
/// to a question that was not asked.
pub open spec fn register_next(
    state: RegisterState,
    event: StoreEventView,
    form: RegisterFormView,
    secret: SecretView,
    now: usize,
    uuid: u128,
) -> (RegisterState, RegisterActionView) {
    match (state, event) {
        (RegisterState::CheckingEmail, StoreEventView::Exists(true)) => (
            RegisterState::Done,
            RegisterActionView::Refuse(AuthError::InputConflict),
        ),
        (RegisterState::CheckingEmail, StoreEventView::Exists(false)) => (
            RegisterState::CheckingUsername,
            RegisterActionView::Ask(StoreRequestView::UsernameExists(form.username)),
        ),
        (RegisterState::CheckingUsername, StoreEventView::Exists(true)) => (
            RegisterState::Done,
            RegisterActionView::Refuse(AuthError::InputConflict),
        ),
        (RegisterState::CheckingUsername, StoreEventView::Exists(false)) => match new_user(
            form,
            secret,
            now,
            uuid,
        ) {
            Ok(user) => (
                RegisterState::Inserting,
                RegisterActionView::Ask(StoreRequestView::Insert(user)),
            ),
            Err(error) => (RegisterState::Done, RegisterActionView::Refuse(error)),
        },
        (RegisterState::Inserting, StoreEventView::Written(true)) => (
            RegisterState::Done,
            RegisterActionView::Created { name: form.name },
        ),
        _ => (RegisterState::Done, RegisterActionView::Refuse(AuthError::StoreFailure)),
    }
}

/// A step of a registration as contracts see it.
pub open spec fn register_view(step: (RegisterState, RegisterAction)) -> (
    RegisterState,
    RegisterActionView,
) {
    (step.0, step.1@)
}

/// The result of [`build_user`] as contracts see it.
pub open spec fn user_view(result: Result<User, AuthError>) -> Result<UserView, AuthError> {
    match result {
        Ok(user) => Ok(user@),
        Err(error) => Err(error),
    }
}

/// Makes the record of the user that registers with `form` at the time `now`
/// under the key `uuid`.
pub fn build_user(form: &RegisterForm, secret: &Secret, now: usize, uuid: u128) -> (result: Result<
    User,
    AuthError,
>)
    ensures
        user_view(result) == new_user(form@, secret@, now, uuid),
{
    match issue_refresh(form.username.as_str(), secret.refresh.as_str(), now) {
        Err(error) => Err(AuthError::Token(error)),
        Ok(refresh_token) => Ok(
            User {
                uuid,
                username: form.username.clone(),
                email: form.email.clone(),
                password_hash: hash_password(form.password.as_str(), secret.salt.as_str().as_bytes()),
                name: copy_text(&form.name),
                refresh_token,
                photo_url: copy_text(&form.photo_url),
                refresh_creation: now,
            },
        ),
    }
}

/// Starts a registration.
pub fn register_begin(form: &RegisterForm) -> (step: (RegisterState, RegisterAction))
    ensures
        register_view(step) == register_first(form@),
{
    (RegisterState::CheckingEmail, RegisterAction::Ask(StoreRequest::EmailExists(form.email.clone())))
}

/// Takes a registration one step further, with `uuid` as the key of the
/// record if this is the step that makes it.
pub fn register_step_with(
    state: RegisterState,
    event: StoreEvent,
    form: &RegisterForm,
    secret: &Secret,
    now: usize,
    uuid: u128,
) -> (step: (RegisterState, RegisterAction))
    ensures
        register_view(step) == register_next(state, event@, form@, secret@, now, uuid),
{
    match (state, event) {
        (RegisterState::CheckingEmail, StoreEvent::Exists(true)) => (
            RegisterState::Done,
            RegisterAction::Refuse(AuthError::InputConflict),
        ),
        (RegisterState::CheckingEmail, StoreEvent::Exists(false)) => (
            RegisterState::CheckingUsername,
            RegisterAction::Ask(StoreRequest::UsernameExists(form.username.clone())),
        ),
        (RegisterState::CheckingUsername, StoreEvent::Exists(true)) => (
            RegisterState::Done,
            RegisterAction::Refuse(AuthError::InputConflict),
        ),
        (RegisterState::CheckingUsername, StoreEvent::Exists(false)) => match build_user(
            form,
            secret,
            now,
            uuid,
        ) {
            Ok(user) => (RegisterState::Inserting, RegisterAction::Ask(StoreRequest::Insert(user))),
            Err(error) => (RegisterState::Done, RegisterAction::Refuse(error)),
        },
        (RegisterState::Inserting, StoreEvent::Written(true)) => (
            RegisterState::Done,
            RegisterAction::Created { name: copy_text(&form.name) },
        ),
        _ => (RegisterState::Done, RegisterAction::Refuse(AuthError::StoreFailure)),
    }
}

/// Takes a registration one step further on the store's answer `event`. The
/// key of a new record is a random UUID.
pub fn register_step(
    state: RegisterState,
    event: StoreEvent,
    form: &RegisterForm,
    secret: &Secret,
    now: usize,
) -> (step: (RegisterState, RegisterAction))
    ensures
        exists|uuid: u128|
            register_view(step) == #[trigger] register_next(
                state,
                event@,
                form@,
                secret@,
                now,
                uuid,
            ),
{
    let uuid: u128 = match state {
        RegisterState::CheckingUsername => random_uuid(),
        _ => 0,
    };
    register_step_with(state, event, form, secret, now, uuid)
}

/// How many questions a registration in `state` may still ask of the store.
pub open spec fn register_steps_left(state: RegisterState) -> nat {
    match state {
        RegisterState::CheckingEmail => 3,
        RegisterState::CheckingUsername => 2,
        RegisterState::Inserting => 1,
        RegisterState::Done => 0,
    }
}

/// A registration ends: each step either asks the store and leaves fewer
/// questions to ask, or answers the client and is done. It asks the store
/// three times at most.
pub proof fn lemma_register_ends(
    state: RegisterState,
    event: StoreEventView,
    form: RegisterFormView,
    secret: SecretView,
    now: usize,
    uuid: u128,
)
    ensures
        ({
            let (next, action) = register_next(state, event, form, secret, now, uuid);
            if action is Ask {
                0 < register_steps_left(next) < register_steps_left(state)
            } else {
                next == RegisterState::Done
            }
        }),
{
}

/// A record is added only after the store has said of the email and of the
/// username, in this order, that no record holds them; and the client is
/// told of a new user only after the store has said that it added the
/// record.
pub proof fn lemma_register_checks_before_it_writes(
    state: RegisterState,
    event: StoreEventView,
    form: RegisterFormView,
    secret: SecretView,
    now: usize,
    uuid: u128,
)
    ensures
        ({
            let (next, action) = register_next(state, event, form, secret, now, uuid);
            &&& action matches RegisterActionView::Ask(StoreRequestView::UsernameExists(_)) ==> state
                == RegisterState::CheckingEmail && event == StoreEventView::Exists(false)
            &&& action matches RegisterActionView::Ask(StoreRequestView::Insert(user)) ==> {
                &&& state == RegisterState::CheckingUsername
                &&& event == StoreEventView::Exists(false)
                &&& user.username == form.username
                &&& user.email == form.email
                &&& user.uuid == uuid
            }
            &&& action is Created ==> state == RegisterState::Inserting && event
                == StoreEventView::Written(true)
            &&& event == StoreEventView::Exists(true) ==> action == RegisterActionView::Refuse(
                if state == RegisterState::Inserting || state == RegisterState::Done {
                    AuthError::StoreFailure
                } else {
                    AuthError::InputConflict
                },
            )
        }),
{
}

} // verus!
