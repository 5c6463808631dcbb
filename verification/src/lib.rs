//! Credentials and sessions of a user-identity service: password hashing and
//! verification, signed access and refresh tokens, their validation, and the
//! rotation of an expired refresh token at login.
//!
//! Everything here is a function of its arguments and of a clock reading that
//! the caller hands in. Talking to the user store and to the network is left
//! to the program around this library, which is driven by the step functions
//! of [`register`], [`login`] and [`refresh`].

pub mod clock;
pub mod text;
pub mod secret;
pub mod claims;
pub mod signing;
pub mod validator;
pub mod issuer;
pub mod forms;
pub mod password;
pub mod errors;
pub mod guard;
pub mod rotation;
pub mod store;
pub mod register;
pub mod login;
pub mod refresh;
