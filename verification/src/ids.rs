//! Collision-resistant identifiers for catalog rows.

use vstd::prelude::*;

verus! {

/// Relies on `cuid2::create_id`: a fresh collision-resistant id of exactly 24
/// ASCII characters (the crate's documented default length).
#[verifier::external_body]
pub(crate) fn create_id() -> (r: String)
    ensures
        r@.len() == 24,
{
    cuid2::create_id()
}

} // verus!
