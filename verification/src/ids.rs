//! Generation of opaque identifiers for users and posts.

use vstd::prelude::*;

verus! {

/// Relies on uuid::Uuid::new_v4 and its Display form: a random 128-bit
/// identifier rendered as the 36-character hyphenated string. The value is
/// random, so nothing beyond its shape can be promised; in particular
/// freshness against a store is checked, not assumed, wherever it matters.
#[verifier::external_body]
pub(crate) fn fresh_uuid() -> (r: String)
    ensures
        r@.len() == 36,
{
    uuid::Uuid::new_v4().to_string()
}

} // verus!
