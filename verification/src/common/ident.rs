//! Fresh identifiers.

use vstd::prelude::*;

verus! {

/// Wraps `uuid::Uuid::new_v4` followed by `to_string`: a random version 4
/// UUID in its hyphenated form. `new_v4` panics where the operating system
/// gives no random bytes. Nothing is claimed of the text.
#[verifier::external_body]
pub(crate) fn random_uuid() -> String {
    uuid::Uuid::new_v4().to_string()
}

} // verus!
