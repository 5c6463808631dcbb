//! How an operation of the service fails.

use vstd::prelude::*;
use crate::validator::TokenError;

verus! {

/// Why a registration, a login or a refresh is turned down. Each is answered
/// with the status 400 and a message for the client.
#[derive(Debug, Clone, Copy, PartialEq, Eq, Structural)]
pub enum AuthError {
    /// The username or the email is in use already.
    InputConflict,
    /// No user has this username, or this refresh token.
    NotFound,
    /// The password does not pass against the user's hash.
    BadCredential,
    /// No token could be issued.
    Token(TokenError),
    /// The store did not write what it was asked to write.
    StoreFailure,
}

/// Why a protected operation is not carried out. Both are answered with the
/// status 401; a client is not told what was wrong with a token.
#[derive(Debug, Clone, Copy, PartialEq, Eq, Structural)]
pub enum Unauthorized {
    /// The request carries no token, or an empty one.
    MissingToken,
    /// The token is malformed, badly signed or expired.
    InvalidToken,
}

impl AuthError {
    /// The message that the client is sent.
    pub open spec fn message_text(self) -> Seq<char> {
        match self {
            AuthError::InputConflict => "Username or Email already in use!"@,
            AuthError::NotFound => "Username or Refresh Token not found!"@,
            AuthError::BadCredential => "Password doesn't match!"@,
            AuthError::Token(_) => "Could not issue a token!"@,
            AuthError::StoreFailure => "Error while writing to the Database"@,
        }
    }

    pub fn message(&self) -> (message: String)
        ensures
            message@ == self.message_text(),
    {
        match self {
            AuthError::InputConflict => "Username or Email already in use!".to_owned(),
            AuthError::NotFound => "Username or Refresh Token not found!".to_owned(),
            AuthError::BadCredential => "Password doesn't match!".to_owned(),
            AuthError::Token(_) => "Could not issue a token!".to_owned(),
            AuthError::StoreFailure => "Error while writing to the Database".to_owned(),
        }
    }

    /// The status that the client is sent.
    pub fn status(&self) -> (status: u16)
        ensures
            status == 400,
    {
        400
    }
}

impl Unauthorized {
    /// The message that the client is sent.
    pub open spec fn message_text(self) -> Seq<char> {
        match self {
            Unauthorized::MissingToken => "missing token"@,
            Unauthorized::InvalidToken => "invalid token"@,
        }
    }

    pub fn message(&self) -> (message: String)
        ensures
            message@ == self.message_text(),
    {
        match self {
            Unauthorized::MissingToken => "missing token".to_owned(),
            Unauthorized::InvalidToken => "invalid token".to_owned(),
        }
    }

    /// The status that the client is sent.
    pub fn status(&self) -> (status: u16)
        ensures
            status == 401,
    {
        401
    }
}

} // verus!
