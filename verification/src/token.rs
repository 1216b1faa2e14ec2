//! Fresh workspace tokens: the collision-resistant identifier in each
//! workspace directory's name.

use vstd::prelude::*;

verus! {

/// Relies on uuid::Uuid::new_v4 and its Display impl: a fresh version-4 UUID
/// rendered in the hyphenated lower-case form, which is exactly 36
/// characters.
#[verifier::external_body]
fn new_v4_hyphenated() -> (r: String)
    ensures
        r@.len() == 36,
{
    uuid::Uuid::new_v4().to_string()
}

/// A fresh random workspace token of 36 characters. The value is random:
/// nothing is promised of it beyond its length, and distinctness across
/// concurrent requests is what the 128 bits of randomness are for.
pub fn fresh_token() -> (r: String)
    ensures
        r@.len() == 36,
{
    new_v4_hyphenated()
}

} // verus!
