use vstd::prelude::*;

use crate::audit::{appended, AuditEntry, AuditEvent, AuditSink};
use crate::nanopolygon::{
    ConsentRequirement, RightsMetadata, TerritoryProtectionLevel, ValidatedNanopolygon,
};

verus! {

/// Device classes of the segmented network. The set is closed and holds no
/// cybernetic or brain-computer-interface class.
#[derive(Clone, Copy, Debug, PartialEq, Eq, Structural)]
pub enum AlnDeviceClass {
    Sensor,
    ScadaGateway,
    MicrogridController,
    DatacenterNode,
    SupercomputerNode,
}

impl AlnDeviceClass {
    pub open spec fn spec_is_cybernetic(self) -> bool {
        false
    }

    /// No class of this set is cybernetic; the check stays as a guard should the
    /// set grow.
    pub fn is_cybernetic(&self) -> (r: bool)
        ensures
            r == self.spec_is_cybernetic(),
    {
        false
    }
}

/// Routing header of a shard. The shard identifier is a UUID as a 128-bit integer.
#[derive(Clone, Debug)]
pub struct AlnShardHeader {
    pub shard_id: u128,
    pub source_device_class: AlnDeviceClass,
    pub target_device_class: AlnDeviceClass,
    /// Logical segment label, e.g. "eco-infra-routing".
    pub segment_label: String,
}

/// A validated record with its routing header.
#[derive(Debug)]
pub struct AlnShard {
    pub header: AlnShardHeader,
    pub nanopolygon: ValidatedNanopolygon,
}

#[derive(Debug)]
pub enum RoutingDecision {
    Allowed,
    Denied(&'static str),
}

/// The only ordered pairs of device classes that may be routed.
pub open spec fn on_allow_list(src: AlnDeviceClass, dst: AlnDeviceClass) -> bool {
    ||| (src == AlnDeviceClass::Sensor && dst == AlnDeviceClass::DatacenterNode)
    ||| (src == AlnDeviceClass::ScadaGateway && dst == AlnDeviceClass::SupercomputerNode)
}

/// The audit entry that a routing decision on `(src, dst)` records.
pub open spec fn routing_entry(src: AlnDeviceClass, dst: AlnDeviceClass) -> AuditEntry {
    if src.spec_is_cybernetic() || dst.spec_is_cybernetic() {
        AuditEntry::RoutingDenied("cybernetic_device"@)
    } else if src == AlnDeviceClass::Sensor && dst == AlnDeviceClass::DatacenterNode {
        AuditEntry::RoutingAllowed("sensor_to_dc"@)
    } else if src == AlnDeviceClass::ScadaGateway && dst == AlnDeviceClass::SupercomputerNode {
        AuditEntry::RoutingAllowed("scada_to_supercomputer"@)
    } else {
        AuditEntry::RoutingDenied("disallowed_path"@)
    }
}

pub struct RoutingPolicy;

impl RoutingPolicy {
    /// Default-deny routing: only the pairs of the allow-list pass. Exactly one
    /// audit event is recorded.
    pub fn evaluate<P: AuditSink>(shard: &AlnShard, audit_sink: &mut P) -> (r: RoutingDecision)
        ensures
            appended(
                old(audit_sink).recorded(),
                final(audit_sink).recorded(),
                routing_entry(shard.header.source_device_class, shard.header.target_device_class),
            ),
            on_allow_list(shard.header.source_device_class, shard.header.target_device_class)
                ==> r matches RoutingDecision::Allowed,
            !on_allow_list(shard.header.source_device_class, shard.header.target_device_class)
                ==> (r matches RoutingDecision::Denied(reason) && reason
                == "disallowed routing path under zero-trust segmentation"),
    {
        let src = shard.header.source_device_class;
        let dst = shard.header.target_device_class;
        if src.is_cybernetic() || dst.is_cybernetic() {
            audit_sink.record(AuditEvent::routing_denied("cybernetic_device"));
            return RoutingDecision::Denied("cybernetic devices are prohibited");
        }
        match (src, dst) {
            (AlnDeviceClass::Sensor, AlnDeviceClass::DatacenterNode) => {
                audit_sink.record(AuditEvent::routing_allowed("sensor_to_dc"));
                RoutingDecision::Allowed
            },
            (AlnDeviceClass::ScadaGateway, AlnDeviceClass::SupercomputerNode) => {
                audit_sink.record(AuditEvent::routing_allowed("scada_to_supercomputer"));
                RoutingDecision::Allowed
            },
            _ => {
                audit_sink.record(AuditEvent::routing_denied("disallowed_path"));
                RoutingDecision::Denied("disallowed routing path under zero-trust segmentation")
            },
        }
    }
}

/// Classification of sanctuary-relevant shards.
#[derive(Clone, Copy, Debug, PartialEq, Eq, Structural)]
pub enum SanctuaryShardKind {
    /// A biophysical sanctuary corridor: transit allowed, no harmful operations.
    BiophysicalSanctuaryCorridor,
    /// A domain that requires explicit consent before high-impact actions.
    ConsentRequiredCyberneticDomain,
    /// Not sanctuary-relevant.
    Unrestricted,
}

/// The classification of a record's rights metadata: a sanctuary corridor wins,
/// then any consent requirement beyond standard governance.
pub open spec fn shard_kind(rights: RightsMetadata) -> SanctuaryShardKind {
    if rights.species_rights.territory_protection == TerritoryProtectionLevel::SanctuaryCorridor {
        SanctuaryShardKind::BiophysicalSanctuaryCorridor
    } else if rights.neurorights.consent_requirement != ConsentRequirement::StandardGovernance {
        SanctuaryShardKind::ConsentRequiredCyberneticDomain
    } else {
        SanctuaryShardKind::Unrestricted
    }
}

/// Classifying the same validated record twice gives the same kind.
pub proof fn lemma_classification_stable(a: ValidatedNanopolygon, b: ValidatedNanopolygon)
    requires
        a == b,
    ensures
        shard_kind(a.record().rights) == shard_kind(b.record().rights),
{
}

/// Classifies a validated record by its rights metadata.
pub fn classify(record: &ValidatedNanopolygon) -> (r: SanctuaryShardKind)
    ensures
        r == shard_kind(record.record().rights),
{
    let np = record.inner();
    match np.rights.species_rights.territory_protection {
        TerritoryProtectionLevel::SanctuaryCorridor => SanctuaryShardKind::BiophysicalSanctuaryCorridor,
        _ => match np.rights.neurorights.consent_requirement {
            ConsentRequirement::CommunityMultisigRequired
            | ConsentRequirement::IndividualConsentRequired
            | ConsentRequirement::CommunityAndIndividual => {
                SanctuaryShardKind::ConsentRequiredCyberneticDomain
            },
            ConsentRequirement::StandardGovernance => SanctuaryShardKind::Unrestricted,
        },
    }
}

/// A shard with its sanctuary classification.
#[derive(Debug)]
pub struct SanctuaryRoutingShard {
    pub base: AlnShard,
    pub kind: SanctuaryShardKind,
}

impl SanctuaryRoutingShard {
    pub fn from_nanopolygon(base: AlnShard) -> (r: Self)
        ensures
            r.base == base,
            r.kind == shard_kind(base.nanopolygon.record().rights),
    {
        let kind = classify(&base.nanopolygon);
        SanctuaryRoutingShard { base, kind }
    }

    /// Does this shard require explicit consent before actuation?
    pub fn requires_explicit_consent(&self) -> (r: bool)
        ensures
            r == (self.kind == SanctuaryShardKind::ConsentRequiredCyberneticDomain),
    {
        matches!(self.kind, SanctuaryShardKind::ConsentRequiredCyberneticDomain)
    }
}

/// Must strict routing and human review be forced? Always for a neurorights
/// sanctuary; otherwise when the safety index (in millionths) is at or below the
/// record's threshold.
pub open spec fn spec_sanctuary_enforced(shard: SanctuaryRoutingShard, safety_index: i64) -> bool {
    let n = shard.base.nanopolygon.record().rights.neurorights;
    n.neurorights_sanctuary || safety_index <= n.hitl_trigger_threshold
}

pub fn is_sanctuary_enforced(shard: &SanctuaryRoutingShard, safety_index: i64) -> (r: bool)
    ensures
        r == spec_sanctuary_enforced(*shard, safety_index),
{
    let neurorights = &shard.base.nanopolygon.inner().rights.neurorights;
    if neurorights.neurorights_sanctuary {
        return true;
    }
    neurorights.requires_hitl(safety_index)
}

} // verus!
