//! What a client sends to register and to log in.

use vstd::prelude::*;
use crate::text::text;

verus! {

/// The fields of a registration.
#[derive(Debug, Clone)]
pub struct RegisterForm {
    pub username: String,
    pub email: String,
    pub password: String,
    pub name: Option<String>,
    pub photo_url: Option<String>,
}

/// The fields of a login.
#[derive(Debug, Clone)]
pub struct LoginForm {
    pub username: String,
    pub password: String,
}

/// A [`RegisterForm`] as contracts see it.
pub struct RegisterFormView {
    pub username: Seq<char>,
    pub email: Seq<char>,
    pub password: Seq<char>,
    pub name: Option<Seq<char>>,
    pub photo_url: Option<Seq<char>>,
}

/// A [`LoginForm`] as contracts see it.
pub struct LoginFormView {
    pub username: Seq<char>,
    pub password: Seq<char>,
}

impl View for RegisterForm {
    type V = RegisterFormView;

    open spec fn view(&self) -> RegisterFormView {
        RegisterFormView {
            username: self.username@,
            email: self.email@,
            password: self.password@,
            name: text(self.name),
            photo_url: text(self.photo_url),
        }
    }
}

impl View for LoginForm {
    type V = LoginFormView;

    open spec fn view(&self) -> LoginFormView {
        LoginFormView { username: self.username@, password: self.password@ }
    }
}

} // verus!
