//! What the two kinds of token carry.

use vstd::prelude::*;

verus! {

/// The identity that a valid access token proves: the only data of a request
/// that a protected operation may trust.
#[derive(Debug, Clone)]
pub struct Token {
    pub username: String,
    pub name: String,
}

/// The payload of an access token.
#[derive(Debug, Clone)]
pub struct AccessClaims {
    /// The second, counted from the Unix epoch, at which the token stops
    /// being valid.
    pub exp: usize,
    pub custom: Token,
}

/// Whom a refresh token was issued to.
#[derive(Debug, Clone)]
pub struct Info {
    pub username: String,
}

/// The payload of a refresh token.
#[derive(Debug, Clone)]
pub struct RefreshClaims {
    /// The second, counted from the Unix epoch, at which the token stops
    /// being valid.
    pub exp: usize,
    pub id: Info,
}

/// A [`Token`] as contracts see it.
pub struct TokenView {
    pub username: Seq<char>,
    pub name: Seq<char>,
}

/// An [`AccessClaims`] as contracts see it.
pub struct AccessClaimsView {
    pub exp: usize,
    pub custom: TokenView,
}

/// An [`Info`] as contracts see it.
pub struct InfoView {
    pub username: Seq<char>,
}

/// A [`RefreshClaims`] as contracts see it.
pub struct RefreshClaimsView {
    pub exp: usize,
    pub id: InfoView,
}

impl View for Token {
    type V = TokenView;

    open spec fn view(&self) -> TokenView {
        TokenView { username: self.username@, name: self.name@ }
    }
}

impl View for AccessClaims {
    type V = AccessClaimsView;

    open spec fn view(&self) -> AccessClaimsView {
        AccessClaimsView { exp: self.exp, custom: self.custom@ }
    }
}

impl View for Info {
    type V = InfoView;

    open spec fn view(&self) -> InfoView {
        InfoView { username: self.username@ }
    }
}

impl View for RefreshClaims {
    type V = RefreshClaimsView;

    open spec fn view(&self) -> RefreshClaimsView {
        RefreshClaimsView { exp: self.exp, id: self.id@ }
    }
}

} // verus!
