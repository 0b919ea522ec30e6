//! Declarations of the outside parser's types.

use vstd::prelude::*;

verus! {

#[verifier::external_type_specification]
#[verifier::external_body]
/// Declaration of serde_json's value tree so that the trusted parse
/// wrappers can hold and convert it.
pub struct ExJsonValue(serde_json::Value);

} // verus!
