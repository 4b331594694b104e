pub mod aln;
pub mod aln_shard;
pub mod audit;
pub mod enclave;
pub mod encoding;
pub mod governance_hooks;
pub mod nanopolygon;
pub mod policy;
pub mod routing_policy;
pub mod web5_integration;

use vstd::prelude::*;

verus! {

/// Marker for records whose governance invariants are checked on validation.
pub trait InvariantGovernance: Sized {}

impl InvariantGovernance for crate::nanopolygon::NanopolygonSafetyObject {}

} // verus!
