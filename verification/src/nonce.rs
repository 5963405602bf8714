//! Fresh random identifiers, drawn by the `uuid` crate.

use vstd::prelude::*;

verus! {

/// Calls `uuid::Uuid::new_v4` and writes the identifier out with
/// `to_string`. The identifier is random: nothing is promised of it.
#[verifier::external_body]
pub(crate) fn fresh_identifier() -> (id: String) {
    uuid::Uuid::new_v4().to_string()
}

} // verus!
