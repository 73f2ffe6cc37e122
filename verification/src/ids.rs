//! Fresh identifier generation.

use vstd::prelude::*;

verus! {

/// Relies on `uuid::Uuid::new_v4` and its canonical rendering: a freshly
/// drawn random identifier as a 36-character hyphenated hex string. The
/// draw is random, so nothing relates two calls; the store itself checks
/// a drawn id against the rows it holds.
#[verifier::external_body]
pub(crate) fn fresh_id() -> (r: String)
    ensures
        r@.len() == 36,
{
    uuid::Uuid::new_v4().to_string()
}

} // verus!
