//! Checks on the text fields of requests, as `validator` makes them.

use vstd::prelude::*;

verus! {

/// Whether `validator::validate_email` takes a text for an e-mail address.
pub uninterp spec fn valid_email(address: Seq<char>) -> bool;

/// Calls `validator::validate_length` with both bounds set, which counts the
/// characters of the text and holds if the count lies within the bounds,
/// both included.
#[verifier::external_body]
pub(crate) fn length_between(value: &str, min: u64, max: u64) -> (r: bool)
    ensures
        r == (min <= value@.len() <= max),
{
    validator::validate_length(value, Some(min), Some(max), None)
}

/// Calls `validator::validate_email`.
#[verifier::external_body]
pub(crate) fn is_email(value: &str) -> (r: bool)
    ensures
        r == valid_email(value@),
{
    validator::validate_email(value)
}

/// Calls `validator::validate_must_match`, which compares its two arguments
/// with `==`.
#[verifier::external_body]
pub(crate) fn must_match(a: &str, b: &str) -> (r: bool)
    ensures
        r == (a@ == b@),
{
    validator::validate_must_match(a, b)
}

} // verus!
