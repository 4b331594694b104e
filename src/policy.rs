use vstd::prelude::*;

verus! {

/// Ethical guardrails attached to a record's governance metadata.
#[derive(Clone, Copy, Debug, PartialEq, Eq, Structural)]
pub struct EthicsProfile {
    pub human_primacy: bool,
    pub equal_power_thresholds: bool,
    pub appeal_paths_available: bool,
}

impl EthicsProfile {
    /// All three guardrails are in place.
    pub open spec fn fully_satisfied(self) -> bool {
        self.human_primacy && self.equal_power_thresholds && self.appeal_paths_available
    }
}

/// Set of NIST AI RMF functions, one bit per function.
#[derive(Clone, Copy, Debug, PartialEq, Eq, Structural)]
pub struct AIRmfFunction {
    pub bits: u32,
}

impl AIRmfFunction {
    pub const GOVERN: u32 = 0b0001;
    pub const MAP: u32 = 0b0010;
    pub const MEASURE: u32 = 0b0100;
    pub const MANAGE: u32 = 0b1000;

    pub open spec fn has_all(self, flags: u32) -> bool {
        self.bits & flags == flags
    }

    /// Builds a set from raw bits, dropping bits that name no function.
    pub fn from_bits_truncate(bits: u32) -> (r: Self)
        ensures
            r.bits == bits & 0b1111,
    {
        AIRmfFunction { bits: bits & 0b1111 }
    }

    /// Does the set hold every function named in `flags`?
    pub fn contains(&self, flags: u32) -> (r: bool)
        ensures
            r == self.has_all(flags),
    {
        self.bits & flags == flags
    }
}

/// Set of NIST SP 800-53 control families, one bit per family.
#[derive(Clone, Copy, Debug, PartialEq, Eq, Structural)]
pub struct Sp80053Family {
    pub bits: u32,
}

impl Sp80053Family {
    pub const AC: u32 = 0b0001;
    pub const AU: u32 = 0b0010;
    pub const SC: u32 = 0b0100;
    pub const RA: u32 = 0b1000;

    pub open spec fn has_all(self, flags: u32) -> bool {
        self.bits & flags == flags
    }

    /// Builds a set from raw bits, dropping bits that name no family.
    pub fn from_bits_truncate(bits: u32) -> (r: Self)
        ensures
            r.bits == bits & 0b1111,
    {
        Sp80053Family { bits: bits & 0b1111 }
    }

    /// Does the set hold every family named in `flags`?
    pub fn contains(&self, flags: u32) -> (r: bool)
        ensures
            r == self.has_all(flags),
    {
        self.bits & flags == flags
    }
}

/// The AI RMF functions a record needs for critical eco-infrastructure.
pub const REQUIRED_RMF_FUNCTIONS: u32 = AIRmfFunction::GOVERN | AIRmfFunction::MANAGE;

/// The SP 800-53 families a record needs.
pub const REQUIRED_CONTROL_FAMILIES: u32 = Sp80053Family::AC | Sp80053Family::AU | Sp80053Family::SC;

#[derive(Clone, Copy, Debug, PartialEq, Eq, Structural)]
pub struct AIRmfProfile {
    pub functions: AIRmfFunction,
    /// Actions on high-impact records go to human review when set.
    pub requires_human_in_loop: bool,
    pub requires_appeal_path: bool,
}

#[derive(Clone, Copy, Debug, PartialEq, Eq, Structural)]
pub struct Sp80053Profile {
    pub families: Sp80053Family,
}

/// Compliance metadata of a record. Agent identifiers are UUIDs as 128-bit integers.
#[derive(Clone, Debug)]
pub struct GovernanceMetadata {
    pub jurisdiction_code: String,
    pub ai_rmf_profile: AIRmfProfile,
    pub sp80053_profile: Sp80053Profile,
    pub ethics_profile: EthicsProfile,
    pub data_owner_did: String,
    pub created_by_agent_id: u128,
    pub last_modified_by_agent_id: u128,
}

} // verus!
