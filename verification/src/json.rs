//! JSON documents, which the library carries and never reads.

use vstd::prelude::*;

verus! {

/// `serde_json::Value`, a JSON document that the library stores and hands on
/// without looking inside.
#[verifier::external_type_specification]
#[verifier::external_body]
pub struct ExJsonValue(serde_json::Value);

/// `serde_json::Value`'s `Clone`: the copy is the same document.
pub assume_specification[ <serde_json::Value as Clone>::clone ](doc: &serde_json::Value) -> (copy:
    serde_json::Value)
    ensures
        copy == *doc,
;

} // verus!
