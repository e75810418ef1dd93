//! Identity minting. Every transcript, translation, hint and session id is
//! a fresh random UUID; randomness means nothing is promised of the value
//! beyond its shape.
use vstd::prelude::*;

verus! {

/// Relies on `uuid::Uuid::new_v4` and its `Display` impl: a random
/// version-4 UUID in hyphenated lowercase form, 36 ASCII characters.
#[verifier::external_body]
pub fn fresh_uuid() -> (r: String)
    ensures
        r@.len() == 36,
{
    uuid::Uuid::new_v4().to_string()
}

} // verus!
