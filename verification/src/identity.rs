//! Fresh identifiers for records.

use vstd::prelude::*;

verus! {

/// Calls `Uuid::new_v4` of `uuid` and takes the identifier's text. The
/// identifier is random; its text is the hyphenated form, 36 characters long.
#[verifier::external_body]
pub(crate) fn new_id() -> (id: String)
    ensures
        id@.len() == 36,
{
    uuid::Uuid::new_v4().to_string()
}

} // verus!
