use vstd::prelude::*;

use crate::audit::{appended, AuditEntry, AuditEvent, AuditSink};
use crate::policy::{EthicsProfile, GovernanceMetadata, REQUIRED_CONTROL_FAMILIES, REQUIRED_RMF_FUNCTIONS};

verus! {

/// Fractional quantities are carried as signed millionths: `UNIT` stands for 1.0.
pub const UNIT: i64 = 1_000_000;

/// `v` lies in [0, 1].
pub open spec fn is_unit_fraction(v: i64) -> bool {
    0 <= v <= UNIT
}

/// `v` lies in [-1, 1].
pub open spec fn is_signed_unit_fraction(v: i64) -> bool {
    -UNIT <= v <= UNIT
}

#[derive(Clone, Debug)]
pub enum SpeciesClass {
    Human,
    NonHumanAnimal,
    SyntheticLifeform,
    CyberneticallyEnhancedHuman,
    CyberneticallyEnhancedNonHuman,
    Other(String),
}

#[derive(Clone, Copy, Debug, PartialEq, Eq, Structural)]
pub enum TerritoryProtectionLevel {
    /// No special sanctuary status.
    Unprotected,
    /// Biophysical sanctuary: no extractive or harmful activity.
    Sanctuary,
    /// Transit corridor with strict non-interference rules.
    SanctuaryCorridor,
    /// Experimental zone with heightened oversight.
    RegulatedExperimentZone,
}

#[derive(Clone, Copy, Debug, PartialEq, Eq, Structural)]
pub enum ConsentRequirement {
    /// Normal governance; no extra consent.
    StandardGovernance,
    /// Explicit community-level consent required (multisig / vote).
    CommunityMultisigRequired,
    /// Individual DID-based consent required where applicable.
    IndividualConsentRequired,
    /// Both community and individual layers must approve.
    CommunityAndIndividual,
}

#[derive(Clone, Copy, Debug, PartialEq, Eq, Structural)]
pub enum AppealPathType {
    /// Routed to the eco-infrastructure council.
    EcoInfraCouncil,
    /// Routed to an independent ethics tribunal.
    EthicsPanel,
    /// Routed to the local community governance body.
    CommunityCouncil,
}

#[derive(Clone, Debug)]
pub struct SpeciesRightsProfile {
    pub primary_species: SpeciesClass,
    /// Are cybernetically enhanced beings explicitly recognized here?
    pub recognizes_cybernetic_personhood: bool,
    /// Territorial protection strength.
    pub territory_protection: TerritoryProtectionLevel,
    /// Disallow any operations that systematically disadvantage this class.
    pub anti_discrimination_hard_floor: bool,
}

#[derive(Clone, Copy, Debug, PartialEq, Eq, Structural)]
pub struct NeurorightsProfile {
    /// Whether direct neural interfaces are allowed at all (observational or
    /// medical contexts only).
    pub allows_direct_neural_interfaces: bool,
    /// True if this polygon is a neurorights sanctuary.
    pub neurorights_sanctuary: bool,
    /// Consent model before any high-impact action affecting this polygon.
    pub consent_requirement: ConsentRequirement,
    /// Where appeals are routed when rights are contested.
    pub appeal_path: AppealPathType,
    /// Human-review ceiling, in millionths: a safety index at or below it
    /// makes human review mandatory before actuation.
    pub hitl_trigger_threshold: i64,
}

impl NeurorightsProfile {
    /// Does a safety index (in millionths) call for human review?
    pub fn requires_hitl(&self, safety_index: i64) -> (r: bool)
        ensures
            r == (safety_index <= self.hitl_trigger_threshold),
    {
        safety_index <= self.hitl_trigger_threshold
    }
}

#[derive(Clone, Copy, Debug, PartialEq, Eq, Structural)]
pub enum HazardLevel {
    Low,
    Moderate,
    High,
    Extreme,
}

/// Impact of the action proposed on a record.
#[derive(Clone, Copy, Debug, PartialEq, Eq, Structural)]
pub enum ImpactRating {
    Low,
    Moderate,
    High,
    Critical,
}

impl ImpactRating {
    pub open spec fn spec_is_high_impact(self) -> bool {
        self == ImpactRating::High || self == ImpactRating::Critical
    }

    /// `High` and `Critical` count as high impact.
    pub fn is_high_impact(&self) -> (r: bool)
        ensures
            r == self.spec_is_high_impact(),
    {
        match self {
            ImpactRating::High | ImpactRating::Critical => true,
            _ => false,
        }
    }
}

#[derive(Clone, Debug)]
pub struct GeoIntelligence {
    pub location_band: String,
    pub hazard_level: HazardLevel,
    /// In millionths; valid in [0, 1].
    pub resource_stress: i64,
    /// Criticality of local infrastructure; valid in 1..=10.
    pub infrastructure_criticality: u8,
}

#[derive(Clone, Copy, Debug, PartialEq, Eq, Structural)]
pub struct BiospatialTelemetry {
    /// In millionths; valid in [0, 1].
    pub heat_stress: i64,
    /// In millionths; valid in [0, 1].
    pub pollution_exposure: i64,
}

#[derive(Clone, Copy, Debug, PartialEq, Eq, Structural)]
pub struct LearningSignal {
    /// In millionths; valid in [0, 1].
    pub gradient_weight: i64,
}

#[derive(Clone, Copy, Debug, PartialEq, Eq, Structural)]
pub struct IntelligenceIndex {
    /// Composite risk/resilience/equity index, in millionths; valid in [-1, 1].
    pub quantified_safety_index: i64,
}

/// Rights overlays of a record.
#[derive(Clone, Debug)]
pub struct RightsMetadata {
    pub species_rights: SpeciesRightsProfile,
    pub neurorights: NeurorightsProfile,
}

/// A nanopolygon safety record. The identifier is a UUID as a 128-bit integer,
/// the geometry its GeoJSON text, the timestamp microseconds since the Unix
/// epoch, UTC.
#[derive(Clone, Debug)]
pub struct NanopolygonSafetyObject {
    pub polygon_id: u128,
    pub geometry: String,
    pub geo: GeoIntelligence,
    pub biospatial: BiospatialTelemetry,
    pub learning: LearningSignal,
    pub intelligence: IntelligenceIndex,
    pub rights: RightsMetadata,
    pub metadata: GovernanceMetadata,
    pub impact_rating: ImpactRating,
    pub timestamp_utc: i64,
}

pub trait HasAI_RMFFunction {}

pub trait HasNIST800_53Controls {}

pub trait HasEthicalGuardrails {}

impl HasAI_RMFFunction for NanopolygonSafetyObject {}

impl HasNIST800_53Controls for NanopolygonSafetyObject {}

impl HasEthicalGuardrails for NanopolygonSafetyObject {}

impl NanopolygonSafetyObject {
    /// Every numeric field lies in its range.
    pub open spec fn numeric_in_range(self) -> bool {
        &&& is_unit_fraction(self.geo.resource_stress)
        &&& 1 <= self.geo.infrastructure_criticality <= 10
        &&& is_unit_fraction(self.biospatial.heat_stress)
        &&& is_unit_fraction(self.biospatial.pollution_exposure)
        &&& is_unit_fraction(self.learning.gradient_weight)
        &&& is_signed_unit_fraction(self.intelligence.quantified_safety_index)
    }

    /// The outcome of the governance checks: the first one that fails gives the reason.
    pub open spec fn governance_check(self) -> Result<(), &'static str> {
        if !self.metadata.ai_rmf_profile.functions.has_all(REQUIRED_RMF_FUNCTIONS) {
            Err("NIST AI RMF GOVERN|MANAGE missing")
        } else if !self.metadata.sp80053_profile.families.has_all(REQUIRED_CONTROL_FAMILIES) {
            Err("SP 800‑53 AC|AU|SC families required")
        } else if !self.metadata.ethics_profile.fully_satisfied() {
            Err("Ethical guardrails not fully satisfied")
        } else {
            Ok(())
        }
    }

    pub open spec fn governance_ok(self) -> bool {
        self.governance_check() is Ok
    }

    pub fn governance_metadata(&self) -> (r: &GovernanceMetadata)
        ensures
            *r == self.metadata,
    {
        &self.metadata
    }

    pub fn ethics_profile(&self) -> (r: &EthicsProfile)
        ensures
            *r == self.metadata.ethics_profile,
    {
        &self.metadata.ethics_profile
    }

    /// Checks that the AI RMF functions hold GOVERN and MANAGE, that the control
    /// families hold AC, AU and SC, and that all ethics flags are set.
    pub fn assert_invariant_governance(&self) -> (r: Result<(), &'static str>)
        ensures
            r == self.governance_check(),
    {
        let ai_f = self.metadata.ai_rmf_profile.functions;
        if !ai_f.contains(REQUIRED_RMF_FUNCTIONS) {
            return Err("NIST AI RMF GOVERN|MANAGE missing");
        }
        let sp = self.metadata.sp80053_profile.families;
        if !sp.contains(REQUIRED_CONTROL_FAMILIES) {
            return Err("SP 800‑53 AC|AU|SC families required");
        }
        let ethics = &self.metadata.ethics_profile;
        if !(ethics.human_primacy && ethics.equal_power_thresholds && ethics.appeal_paths_available) {
            return Err("Ethical guardrails not fully satisfied");
        }
        Ok(())
    }
}

#[derive(Debug)]
pub enum ValidationError {
    /// A numeric field lies outside its range.
    RangeError,
    /// A governance invariant does not hold; the text says which.
    Governance(&'static str),
}

/// A record that has passed every range and governance check. Only
/// [`validate`] makes one.
#[derive(Debug)]
pub struct ValidatedNanopolygon(NanopolygonSafetyObject);

impl ValidatedNanopolygon {
    #[verifier::type_invariant]
    spec fn passed(self) -> bool {
        self.0.numeric_in_range() && self.0.governance_ok()
    }

    /// The record inside.
    pub closed spec fn record(self) -> NanopolygonSafetyObject {
        self.0
    }

    pub fn inner(&self) -> (r: &NanopolygonSafetyObject)
        ensures
            *r == self.record(),
            r.numeric_in_range(),
            r.governance_ok(),
    {
        proof {
            use_type_invariant(self);
        }
        &self.0
    }
}

/// The audit entry that validating `np` records.
pub open spec fn validation_entry(np: NanopolygonSafetyObject) -> AuditEntry {
    if !np.numeric_in_range() {
        AuditEntry::ValidationFailed("range_violation"@)
    } else {
        match np.governance_check() {
            Err(reason) => AuditEntry::ValidationFailed(reason@),
            Ok(()) => AuditEntry::ValidationSuccess,
        }
    }
}

fn in_unit_interval(v: i64) -> (r: bool)
    ensures
        r == is_unit_fraction(v),
{
    0 <= v && v <= UNIT
}

/// Validates a record: range checks first, then governance invariants. Exactly
/// one audit event is recorded, whatever the outcome.
pub fn validate<P: AuditSink>(np: NanopolygonSafetyObject, audit_sink: &mut P) -> (r: Result<
    ValidatedNanopolygon,
    ValidationError,
>)
    ensures
        appended(old(audit_sink).recorded(), final(audit_sink).recorded(), validation_entry(np)),
        !np.numeric_in_range() ==> r matches Err(ValidationError::RangeError),
        np.numeric_in_range() && !np.governance_ok() ==> (r matches Err(
            ValidationError::Governance(reason),
        ) && np.governance_check() == Err::<(), &'static str>(reason)),
        np.numeric_in_range() && np.governance_ok() ==> (r matches Ok(v) && v.record() == np),
{
    if !in_unit_interval(np.geo.resource_stress) || !(1 <= np.geo.infrastructure_criticality
        && np.geo.infrastructure_criticality <= 10) || !in_unit_interval(np.biospatial.heat_stress)
        || !in_unit_interval(np.biospatial.pollution_exposure) || !in_unit_interval(
        np.learning.gradient_weight,
    ) || !(-UNIT <= np.intelligence.quantified_safety_index
        && np.intelligence.quantified_safety_index <= UNIT) {
        audit_sink.record(AuditEvent::validation_failed("range_violation"));
        return Err(ValidationError::RangeError);
    }
    if let Err(e) = np.assert_invariant_governance() {
        audit_sink.record(AuditEvent::validation_failed(e));
        return Err(ValidationError::Governance(e));
    }
    audit_sink.record(AuditEvent::validation_success());
    Ok(ValidatedNanopolygon(np))
}

} // verus!
