//! JSON payloads that the library carries through unread.
use vstd::prelude::*;

verus! {

/// `serde_json::Value`, held opaquely: the library stores and hands on such
/// values (payment channel payloads, checkout sections) without reading them.
#[verifier::external_type_specification]
#[verifier::external_body]
pub struct ExJsonValue(serde_json::Value);

} // verus!
