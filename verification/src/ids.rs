//! Identifiers of runs and events.

use vstd::prelude::*;

verus! {

/// `uuid::Uuid`, carried through the library as an opaque identifier.
#[verifier::external_type_specification]
#[verifier::external_body]
pub struct ExUuid(uuid::Uuid);

/// Draws a fresh random identifier with `uuid::Uuid::new_v4`.
///
/// The value is random, so nothing is promised about it.
#[verifier::external_body]
pub(crate) fn fresh_uuid() -> (id: uuid::Uuid) {
    uuid::Uuid::new_v4()
}

} // verus!
