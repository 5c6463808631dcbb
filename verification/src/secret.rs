//! The service's secrets.

use vstd::prelude::*;

verus! {

/// The three secrets of the service, read once when it starts and never
/// changed after: the key that signs refresh tokens, the key that signs
/// access tokens, and the salt of the password hashes.
#[derive(Debug, Clone)]
pub struct Secret {
    pub refresh: String,
    pub access: String,
    pub salt: String,
}

/// A [`Secret`] as contracts see it.
pub struct SecretView {
    pub refresh: Seq<char>,
    pub access: Seq<char>,
    pub salt: Seq<char>,
}

impl View for Secret {
    type V = SecretView;

    open spec fn view(&self) -> SecretView {
        SecretView { refresh: self.refresh@, access: self.access@, salt: self.salt@ }
    }
}

} // verus!
