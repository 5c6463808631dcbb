//! Strings in contracts.

use vstd::prelude::*;

verus! {

/// An optional string as contracts see it.
pub open spec fn text(held: Option<String>) -> Option<Seq<char>> {
    match held {
        Some(held) => Some(held@),
        None => None,
    }
}

/// An optional string slice as contracts see it.
pub open spec fn slice_text(given: Option<&str>) -> Option<Seq<char>> {
    match given {
        Some(given) => Some(given@),
        None => None,
    }
}

/// Whether a string holds the same text as a string slice.
pub fn same_text(held: &String, given: &str) -> (same: bool)
    ensures
        same == (held@ == given@),
{
    let given = given.to_owned();
    *held == given
}

/// Whether `given` begins with `prefix`.
pub fn starts_with(given: &str, prefix: &str) -> (begins: bool)
    ensures
        begins == prefix@.is_prefix_of(given@),
{
    let length = prefix.unicode_len();
    if given.unicode_len() < length {
        return false;
    }
    let head = given.substring_char(0, length).to_owned();
    same_text(&head, prefix)
}

/// What follows `prefix` in `given`, which begins with it.
pub fn after_prefix<'a>(given: &'a str, prefix: &str) -> (rest: &'a str)
    requires
        prefix@.is_prefix_of(given@),
    ensures
        rest@ == given@.skip(prefix@.len() as int),
{
    given.substring_char(prefix.unicode_len(), given.unicode_len())
}

/// A copy of an optional string.
pub fn copy_text(held: &Option<String>) -> (copy: Option<String>)
    ensures
        text(copy) == text(*held),
{
    match held {
        Some(held) => Some(held.clone()),
        None => None,
    }
}

} // verus!
