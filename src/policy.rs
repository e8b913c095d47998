//! Authorization predicate consulted before sensitive actions.
use vstd::prelude::*;

verus! {

#[verifier::external_type_specification]
#[verifier::external_body]
pub struct ExValue(serde_json::Value);

/// Policy decision point: whether `action` is allowed in `context_json`.
pub trait PolicyEngine {
    fn allow(&self, action: &str, context_json: &serde_json::Value) -> bool;
}

/// The permissive default policy.
#[derive(Debug, Clone)]
pub struct AllowAllPolicy;

impl PolicyEngine for AllowAllPolicy {
    fn allow(&self, action: &str, context_json: &serde_json::Value) -> (r: bool)
        ensures
            r,
    {
        true
    }
}

} // verus!
