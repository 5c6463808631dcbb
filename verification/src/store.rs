//! The user store as this library sees it: the record of a user, what a
//! flow asks of the store, and what the store answers.
//!
//! The store itself is not part of the library. The program around it
//! carries each request out and hands the answer to the flow that asked.

use vstd::prelude::*;
use crate::text::text;

verus! {

/// Where the store keeps the users.
#[derive(Debug, Clone)]
pub struct Database {
    pub name: String,
    pub collection: String,
}

/// The record of a user.
#[derive(Debug, Clone)]
pub struct User {
    /// The key of the record: the 128 bits of a UUID.
    pub uuid: u128,
    pub username: String,
    pub email: String,
    pub password_hash: String,
    pub name: Option<String>,
    /// The one refresh token of the user that counts.
    pub refresh_token: String,
    pub photo_url: Option<String>,
    /// When the record was made, in seconds since the Unix epoch.
    pub refresh_creation: usize,
}

/// A [`User`] as contracts see it.
pub struct UserView {
    pub uuid: u128,
    pub username: Seq<char>,
    pub email: Seq<char>,
    pub password_hash: Seq<char>,
    pub name: Option<Seq<char>>,
    pub refresh_token: Seq<char>,
    pub photo_url: Option<Seq<char>>,
    pub refresh_creation: usize,
}

impl View for User {
    type V = UserView;

    open spec fn view(&self) -> UserView {
        UserView {
            uuid: self.uuid,
            username: self.username@,
            email: self.email@,
            password_hash: self.password_hash@,
            name: text(self.name),
            refresh_token: self.refresh_token@,
            photo_url: text(self.photo_url),
            refresh_creation: self.refresh_creation,
        }
    }
}

/// What a flow asks of the store.
#[derive(Debug, Clone)]
pub enum StoreRequest {
    /// Is there a user with this email? Answered by [`StoreEvent::Exists`].
    EmailExists(String),
    /// Is there a user with this username? Answered by
    /// [`StoreEvent::Exists`].
    UsernameExists(String),
    /// The user with this username. Answered by [`StoreEvent::Record`].
    FindByUsername(String),
    /// The user whose record holds this refresh token. Answered by
    /// [`StoreEvent::Record`].
    FindByRefreshToken(String),
    /// Add this record. Answered by [`StoreEvent::Written`].
    Insert(User),
    /// Set the refresh token in the record with this key, and nothing else.
    /// Answered by [`StoreEvent::Written`].
    UpdateRefreshToken { uuid: u128, refresh_token: String },
}

/// A [`StoreRequest`] as contracts see it.
pub enum StoreRequestView {
    EmailExists(Seq<char>),
    UsernameExists(Seq<char>),
    FindByUsername(Seq<char>),
    FindByRefreshToken(Seq<char>),
    Insert(UserView),
    UpdateRefreshToken { uuid: u128, refresh_token: Seq<char> },
}

impl View for StoreRequest {
    type V = StoreRequestView;

    open spec fn view(&self) -> StoreRequestView {
        match self {
            StoreRequest::EmailExists(email) => StoreRequestView::EmailExists(email@),
            StoreRequest::UsernameExists(username) => StoreRequestView::UsernameExists(username@),
            StoreRequest::FindByUsername(username) => StoreRequestView::FindByUsername(username@),
            StoreRequest::FindByRefreshToken(token) => StoreRequestView::FindByRefreshToken(token@),
            StoreRequest::Insert(user) => StoreRequestView::Insert(user@),
            StoreRequest::UpdateRefreshToken { uuid, refresh_token } => {
                StoreRequestView::UpdateRefreshToken { uuid: *uuid, refresh_token: refresh_token@ }
            },
        }
    }
}

/// What the store answers.
#[derive(Debug, Clone)]
pub enum StoreEvent {
    /// Whether a record matches.
    Exists(bool),
    /// The record that matches, if there is one.
    Record(Option<User>),
    /// Whether the store wrote what it was asked to write.
    Written(bool),
}

/// A [`StoreEvent`] as contracts see it.
pub enum StoreEventView {
    Exists(bool),
    Record(Option<UserView>),
    Written(bool),
}

impl View for StoreEvent {
    type V = StoreEventView;

    open spec fn view(&self) -> StoreEventView {
        match self {
            StoreEvent::Exists(exists) => StoreEventView::Exists(*exists),
            StoreEvent::Record(Some(user)) => StoreEventView::Record(Some(user@)),
            StoreEvent::Record(None) => StoreEventView::Record(None),
            StoreEvent::Written(written) => StoreEventView::Written(*written),
        }
    }
}

/// Whether the store holds a record that matches, by the number of matches
/// that it counted. `None` stands for a count that failed, which is taken
/// as no match.
pub fn find_one(count: Option<u64>) -> (found: bool)
    ensures
        found == (count matches Some(matches) && matches > 0),
{
    match count {
        Some(matches) => matches > 0,
        None => false,
    }
}

} // verus!
