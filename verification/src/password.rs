//! Password hashes (Argon2, as `argon2` encodes them) and their check.
//!
//! An encoded hash names the cost of its own check. This library hashes with
//! the hasher's default cost and checks no hash that names another: a record
//! of the store decides neither the memory nor the time that a login takes.

use vstd::prelude::*;
use crate::forms::{LoginForm, RegisterForm};
use crate::text::{starts_with, text};

verus! {

/// The hash that `argon2::hash_encoded` gives `password` with `salt` under
/// the hasher's default configuration, or `None` where it gives none.
pub uninterp spec fn argon2_encoded(password: Seq<char>, salt: Seq<u8>) -> Option<Seq<char>>;

/// What `argon2::verify_encoded` says of `password` against the encoded hash
/// `hash`, or `None` where it cannot read the hash.
pub uninterp spec fn argon2_matches(hash: Seq<char>, password: Seq<char>) -> Option<bool>;

/// How an encoded hash of the default cost begins: Argon2i, version 19,
/// 4096 KiB of memory, three passes, one lane.
pub open spec fn cost_prefix() -> Seq<char> {
    "$argon2i$v=19$m=4096,t=3,p=1$"@
}

/// Whether `password` passes for a user whose record holds `hash`: the hash
/// names the default cost, and the hasher finds that the password matches.
pub open spec fn verifies(password: Seq<char>, hash: Seq<char>) -> bool {
    cost_prefix().is_prefix_of(hash) && argon2_matches(hash, password) == Some(true)
}

/// The hash that a new record gets for `password`: what the hasher encodes
/// with `salt`, if `password` passes against it; else the empty string,
/// against which no password passes.
pub open spec fn hashed(password: Seq<char>, salt: Seq<u8>) -> Seq<char> {
    match argon2_encoded(password, salt) {
        Some(hash) => if verifies(password, hash) {
            hash
        } else {
            Seq::empty()
        },
        None => Seq::empty(),
    }
}

/// Calls `argon2::hash_encoded` on the bytes of `password` with `salt` and
/// `argon2::Config::default()`. The hasher refuses a salt of less than eight
/// bytes, among others. The result depends on the arguments alone, and that
/// is all the contract claims: it gives the result its name.
#[verifier::external_body]
fn argon2_hash(password: &str, salt: &[u8]) -> (hash: Option<String>)
    ensures
        text(hash) == argon2_encoded(password@, salt@),
{
    argon2::hash_encoded(password.as_bytes(), salt, &argon2::Config::default()).ok()
}

/// Calls `argon2::verify_encoded` on `hash` and the bytes of `password`. The
/// hasher takes variant, version and cost from the hash, allocates the
/// memory that it names and makes the passes that it names: the call is for
/// hashes of the default cost only. The result depends on the arguments
/// alone, and that is all the contract claims: it gives the result its name.
#[verifier::external_body]
fn argon2_verify(hash: &str, password: &str) -> (verdict: Option<bool>)
    requires
        cost_prefix().is_prefix_of(hash@),
    ensures
        verdict == argon2_matches(hash@, password@),
{
    argon2::verify_encoded(hash, password.as_bytes()).ok()
}

/// Whether `hash` names the default cost.
pub fn names_default_cost(hash: &str) -> (named: bool)
    ensures
        named == cost_prefix().is_prefix_of(hash@),
{
    starts_with(hash, "$argon2i$v=19$m=4096,t=3,p=1$")
}

/// Checks `password` against the encoded hash `hash`. A hash that names
/// another cost than the default, or that the hasher cannot read, is no
/// error: no password passes against it.
pub fn verify_password(password: &str, hash: &str) -> (ok: bool)
    ensures
        ok == verifies(password@, hash@),
{
    if !names_default_cost(hash) {
        return false;
    }
    match argon2_verify(hash, password) {
        Some(matches) => matches,
        None => false,
    }
}

/// Hashes `password` with `salt` for a new record. The hash carries the
/// salt and the cost, so that it can be checked without anything else. It is
/// checked once before it is handed out.
pub fn hash_password(password: &str, salt: &[u8]) -> (hash: String)
    ensures
        hash@ == hashed(password@, salt@),
{
    match argon2_hash(password, salt) {
        Some(hash) => {
            if verify_password(password, hash.as_str()) {
                hash
            } else {
                String::new()
            }
        },
        None => String::new(),
    }
}

/// Checking a password against the hash in a user's record.
pub trait Authorize {
    /// Whether the password passes against `hash`.
    spec fn passes(&self, hash: Seq<char>) -> bool;

    fn verify_pwsh(&self, hash: &String) -> (ok: bool)
        ensures
            ok == self.passes(hash@),
    ;
}

impl Authorize for LoginForm {
    open spec fn passes(&self, hash: Seq<char>) -> bool {
        verifies(self.password@, hash)
    }

    fn verify_pwsh(&self, hash: &String) -> (ok: bool) {
        verify_password(self.password.as_str(), hash.as_str())
    }
}

/// Hashing a password for a new record.
pub trait Generate {
    /// The hash of the password with `salt`.
    spec fn pwsh(&self, salt: Seq<u8>) -> Seq<char>;

    fn generate_pwsh(&self, salt: &[u8]) -> (hash: String)
        ensures
            hash@ == self.pwsh(salt@),
    ;
}

impl Generate for RegisterForm {
    open spec fn pwsh(&self, salt: Seq<u8>) -> Seq<char> {
        hashed(self.password@, salt)
    }

    fn generate_pwsh(&self, salt: &[u8]) -> (hash: String) {
        hash_password(self.password.as_str(), salt)
    }
}

/// A password passes against its own hash: whenever hashing gives a hash at
/// all, which it does not where the hasher refuses the salt.
pub proof fn lemma_password_passes_against_its_hash(password: Seq<char>, salt: Seq<u8>)
    requires
        hashed(password, salt) != Seq::<char>::empty(),
    ensures
        verifies(password, hashed(password, salt)),
{
}

/// Against the empty string, which stands where the hasher gave no hash, no
/// password passes.
pub proof fn lemma_nothing_passes_against_no_hash(password: Seq<char>)
    ensures
        !verifies(password, Seq::<char>::empty()),
{
    reveal_strlit("$argon2i$v=19$m=4096,t=3,p=1$");
}

} // verus!
