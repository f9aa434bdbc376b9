//! Session identifiers.

use vstd::prelude::*;

verus! {

/// A fresh random session identifier.
///
/// Calls `uuid::Uuid::new_v4` and writes the result in its hyphenated form,
/// which is always 36 characters long. Which characters is a matter of
/// chance, so no more is claimed.
#[verifier::external_body]
pub(crate) fn fresh_session_id() -> (id: String)
    ensures
        id@.len() == 36,
{
    uuid::Uuid::new_v4().to_string()
}

} // verus!
