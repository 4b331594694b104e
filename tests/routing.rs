use ecoinfra_governance::aln::{
    classify, is_sanctuary_enforced, AlnDeviceClass, AlnShard, AlnShardHeader, RoutingDecision,
    RoutingPolicy, SanctuaryRoutingShard, SanctuaryShardKind,
};
use ecoinfra_governance::aln_shard::{sign_shard, verify_shard, AlnShard as SignedShard};
use ecoinfra_governance::encoding::encode_record;
use ecoinfra_governance::audit::{AuditKind, InMemoryAuditSink};
use ecoinfra_governance::enclave::VscArtemisEnclave;
use ecoinfra_governance::governance_hooks::{AppealDecision, GovernanceHooks, HitlTicket};
use ecoinfra_governance::nanopolygon::{
    validate, AppealPathType, BiospatialTelemetry, ConsentRequirement, GeoIntelligence,
    HazardLevel, ImpactRating, IntelligenceIndex, LearningSignal, NanopolygonSafetyObject,
    NeurorightsProfile, RightsMetadata, SpeciesClass, SpeciesRightsProfile,
    TerritoryProtectionLevel, ValidatedNanopolygon,
};
use ecoinfra_governance::policy::{
    AIRmfFunction, AIRmfProfile, EthicsProfile, GovernanceMetadata, Sp80053Family, Sp80053Profile,
};
use ecoinfra_governance::routing_policy::{RouteDecision, RoutingContext, POWER_THRESHOLD};
use ecoinfra_governance::web5_integration::{verify_ml_dsa, verify_resolved, DidKeyPair, MlDsaBackend};
use std::cell::Cell;
use vstd::seq::Seq;

fn base_record() -> NanopolygonSafetyObject {
    NanopolygonSafetyObject {
        polygon_id: 0x0102_0304_0506_0708_090a_0b0c_0d0e_0f10,
        geometry: "{\"type\":\"Polygon\",\"coordinates\":[]}".to_string(),
        geo: GeoIntelligence {
            location_band: "urban-core".to_string(),
            hazard_level: HazardLevel::Moderate,
            resource_stress: 700_000,
            infrastructure_criticality: 8,
        },
        biospatial: BiospatialTelemetry { heat_stress: 300_000, pollution_exposure: 400_000 },
        learning: LearningSignal { gradient_weight: 900_000 },
        intelligence: IntelligenceIndex { quantified_safety_index: -200_000 },
        rights: RightsMetadata {
            species_rights: SpeciesRightsProfile {
                primary_species: SpeciesClass::CyberneticallyEnhancedHuman,
                recognizes_cybernetic_personhood: true,
                territory_protection: TerritoryProtectionLevel::SanctuaryCorridor,
                anti_discrimination_hard_floor: true,
            },
            neurorights: NeurorightsProfile {
                allows_direct_neural_interfaces: false,
                neurorights_sanctuary: true,
                consent_requirement: ConsentRequirement::CommunityAndIndividual,
                appeal_path: AppealPathType::EcoInfraCouncil,
                hitl_trigger_threshold: 0,
            },
        },
        metadata: GovernanceMetadata {
            jurisdiction_code: "US-FED".to_string(),
            ai_rmf_profile: AIRmfProfile {
                functions: AIRmfFunction::from_bits_truncate(
                    AIRmfFunction::GOVERN | AIRmfFunction::MANAGE,
                ),
                requires_human_in_loop: false,
                requires_appeal_path: true,
            },
            sp80053_profile: Sp80053Profile {
                families: Sp80053Family::from_bits_truncate(
                    Sp80053Family::AC | Sp80053Family::AU | Sp80053Family::SC,
                ),
            },
            ethics_profile: EthicsProfile {
                human_primacy: true,
                equal_power_thresholds: true,
                appeal_paths_available: true,
            },
            data_owner_did: "did:example:owner".to_string(),
            created_by_agent_id: 7,
            last_modified_by_agent_id: 9,
        },
        impact_rating: ImpactRating::Moderate,
        timestamp_utc: 1_700_000_000_000_000,
    }
}


fn validated(np: NanopolygonSafetyObject) -> ValidatedNanopolygon {
    let mut sink = InMemoryAuditSink::new();
    validate(np, &mut sink).expect("record is valid")
}

fn shard_of(np: NanopolygonSafetyObject, src: AlnDeviceClass, dst: AlnDeviceClass) -> AlnShard {
    AlnShard {
        header: AlnShardHeader {
            shard_id: 42,
            source_device_class: src,
            target_device_class: dst,
            segment_label: "eco-infra-routing".to_string(),
        },
        nanopolygon: validated(np),
    }
}

fn with_rights(
    territory: TerritoryProtectionLevel,
    consent: ConsentRequirement,
    sanctuary: bool,
    threshold: i64,
) -> NanopolygonSafetyObject {
    let mut np = base_record();
    np.rights.species_rights.territory_protection = territory;
    np.rights.neurorights.consent_requirement = consent;
    np.rights.neurorights.neurorights_sanctuary = sanctuary;
    np.rights.neurorights.hitl_trigger_threshold = threshold;
    np
}

const CLASSES: [AlnDeviceClass; 5] = [
    AlnDeviceClass::Sensor,
    AlnDeviceClass::ScadaGateway,
    AlnDeviceClass::MicrogridController,
    AlnDeviceClass::DatacenterNode,
    AlnDeviceClass::SupercomputerNode,
];

#[test]
fn routing_allow_list_is_exact_over_all_pairs() {
    let mut allowed = 0;
    for src in CLASSES {
        for dst in CLASSES {
            let shard = shard_of(base_record(), src, dst);
            let mut sink = InMemoryAuditSink::new();
            let d = RoutingPolicy::evaluate(&shard, &mut sink);
            let expected = (src == AlnDeviceClass::Sensor && dst == AlnDeviceClass::DatacenterNode)
                || (src == AlnDeviceClass::ScadaGateway && dst == AlnDeviceClass::SupercomputerNode);
            assert_eq!(sink.events.len(), 1);
            if expected {
                allowed += 1;
                assert!(matches!(d, RoutingDecision::Allowed));
                assert!(matches!(sink.events[0].kind, AuditKind::RoutingAllowed { .. }));
            } else {
                assert!(matches!(
                    d,
                    RoutingDecision::Denied("disallowed routing path under zero-trust segmentation")
                ));
                assert!(matches!(&sink.events[0].kind, AuditKind::RoutingDenied { reason } if reason == "disallowed_path"));
            }
        }
    }
    assert_eq!(allowed, 2);
}

#[test]
fn routing_audit_labels_name_the_path() {
    let mut sink = InMemoryAuditSink::new();
    let a = shard_of(base_record(), AlnDeviceClass::Sensor, AlnDeviceClass::DatacenterNode);
    let b = shard_of(base_record(), AlnDeviceClass::ScadaGateway, AlnDeviceClass::SupercomputerNode);
    RoutingPolicy::evaluate(&a, &mut sink);
    RoutingPolicy::evaluate(&b, &mut sink);
    assert!(matches!(&sink.events[0].kind, AuditKind::RoutingAllowed { label } if label == "sensor_to_dc"));
    assert!(matches!(&sink.events[1].kind, AuditKind::RoutingAllowed { label } if label == "scada_to_supercomputer"));
    assert!(CLASSES.iter().all(|c| !c.is_cybernetic()));
}

#[test]
fn enclave_accepts_only_allowed_paths() {
    let mut sink = InMemoryAuditSink::new();
    let ok = shard_of(base_record(), AlnDeviceClass::Sensor, AlnDeviceClass::DatacenterNode);
    assert_eq!(VscArtemisEnclave::process_shard(ok, &mut sink), Ok(()));
    assert_eq!(sink.events.len(), 2);
    assert!(matches!(&sink.events[1].kind, AuditKind::RoutingAllowed { label } if label == "enclave_accept"));
    let bad = shard_of(base_record(), AlnDeviceClass::DatacenterNode, AlnDeviceClass::Sensor);
    assert_eq!(
        VscArtemisEnclave::process_shard(bad, &mut sink),
        Err("disallowed routing path under zero-trust segmentation")
    );
    assert_eq!(sink.events.len(), 3);
}

#[test]
fn classification_priority_and_stability() {
    let corridor = validated(with_rights(
        TerritoryProtectionLevel::SanctuaryCorridor,
        ConsentRequirement::CommunityAndIndividual,
        false,
        0,
    ));
    assert_eq!(classify(&corridor), SanctuaryShardKind::BiophysicalSanctuaryCorridor);
    assert_eq!(classify(&corridor), classify(&corridor));
    for consent in [
        ConsentRequirement::CommunityMultisigRequired,
        ConsentRequirement::IndividualConsentRequired,
        ConsentRequirement::CommunityAndIndividual,
    ] {
        let v = validated(with_rights(TerritoryProtectionLevel::Sanctuary, consent, false, 0));
        assert_eq!(classify(&v), SanctuaryShardKind::ConsentRequiredCyberneticDomain);
    }
    let plain = validated(with_rights(
        TerritoryProtectionLevel::Unprotected,
        ConsentRequirement::StandardGovernance,
        false,
        0,
    ));
    assert_eq!(classify(&plain), SanctuaryShardKind::Unrestricted);
}

#[test]
fn sanctuary_shard_reports_consent_need() {
    let np = with_rights(
        TerritoryProtectionLevel::RegulatedExperimentZone,
        ConsentRequirement::IndividualConsentRequired,
        false,
        0,
    );
    let s = SanctuaryRoutingShard::from_nanopolygon(shard_of(
        np,
        AlnDeviceClass::Sensor,
        AlnDeviceClass::DatacenterNode,
    ));
    assert_eq!(s.kind, SanctuaryShardKind::ConsentRequiredCyberneticDomain);
    assert!(s.requires_explicit_consent());
    let again = SanctuaryRoutingShard::from_nanopolygon(shard_of(
        base_record(),
        AlnDeviceClass::Sensor,
        AlnDeviceClass::DatacenterNode,
    ));
    assert_eq!(again.kind, SanctuaryShardKind::BiophysicalSanctuaryCorridor);
    assert!(!again.requires_explicit_consent());
}

#[test]
fn sanctuary_gate_boundary_is_inclusive() {
    let mut np = with_rights(
        TerritoryProtectionLevel::Unprotected,
        ConsentRequirement::StandardGovernance,
        false,
        0,
    );
    np.intelligence.quantified_safety_index = 0;
    let s = SanctuaryRoutingShard::from_nanopolygon(shard_of(
        np,
        AlnDeviceClass::Sensor,
        AlnDeviceClass::DatacenterNode,
    ));
    let own_index = s.base.nanopolygon.inner().intelligence.quantified_safety_index;
    assert!(is_sanctuary_enforced(&s, own_index));
    assert!(is_sanctuary_enforced(&s, 0));
    assert!(!is_sanctuary_enforced(&s, 100));
    let mut above = with_rights(
        TerritoryProtectionLevel::Unprotected,
        ConsentRequirement::StandardGovernance,
        false,
        0,
    );
    above.intelligence.quantified_safety_index = 100;
    let above = SanctuaryRoutingShard::from_nanopolygon(shard_of(
        above,
        AlnDeviceClass::Sensor,
        AlnDeviceClass::DatacenterNode,
    ));
    let own_index = above.base.nanopolygon.inner().intelligence.quantified_safety_index;
    assert!(!is_sanctuary_enforced(&above, own_index));
    assert!(is_sanctuary_enforced(&s, -100));
    let sanctuary = SanctuaryRoutingShard::from_nanopolygon(shard_of(
        with_rights(TerritoryProtectionLevel::Unprotected, ConsentRequirement::StandardGovernance, true, 0),
        AlnDeviceClass::Sensor,
        AlnDeviceClass::DatacenterNode,
    ));
    assert!(is_sanctuary_enforced(&sanctuary, 100));
    assert!(is_sanctuary_enforced(&sanctuary, 1_000_000));
}

/// Toy backend: the key of an identity is its DID's bytes, and a signature is
/// the key followed by the message.
struct EchoBackend;

// The spec functions of the traits below are read by the verifier only; these
// test doubles are not verified, so they give them no meaning.
impl MlDsaBackend for EchoBackend {
    fn signed(&self, _did: Seq<char>, _msg: Seq<u8>, _sig: Seq<u8>) -> bool {
        true
    }

    fn resolves_to(&self, _did: Seq<char>, _key: Seq<u8>) -> bool {
        true
    }

    fn accepts(&self, _key: Seq<u8>, _msg: Seq<u8>, _sig: Seq<u8>) -> bool {
        true
    }

    fn sign(&self, did: &str, msg: &[u8]) -> Vec<u8> {
        let mut sig = did.as_bytes().to_vec();
        sig.extend_from_slice(msg);
        sig
    }

    fn resolve(&self, did: &str) -> Option<Vec<u8>> {
        if did.starts_with("did:") { Some(did.as_bytes().to_vec()) } else { None }
    }

    fn verify(&self, public_key: &[u8], msg: &[u8], sig: &[u8]) -> bool {
        sig.len() == public_key.len() + msg.len()
            && &sig[..public_key.len()] == public_key
            && &sig[public_key.len()..] == msg
    }
}

fn signed_sample() -> SignedShard {
    let keypair = DidKeyPair { did: "did:example:issuer".to_string() };
    let shard = shard_of(base_record(), AlnDeviceClass::Sensor, AlnDeviceClass::DatacenterNode);
    sign_shard(shard, &keypair, &EchoBackend)
}

#[test]
fn attestation_round_trip_verifies() {
    let signed = signed_sample();
    assert_eq!(signed.did, "did:example:issuer");
    assert!(verify_shard(&signed, &EchoBackend));
}

#[test]
fn flipped_signature_byte_fails_verification() {
    let signed = signed_sample();
    for i in [0usize, 5, 40, signed.signature.len() - 1] {
        let mut s = signed_sample();
        s.signature[i] ^= 0x01;
        assert!(!verify_shard(&s, &EchoBackend));
    }
}

#[test]
fn changed_payload_fails_verification() {
    let signed = signed_sample();
    let mut np = base_record();
    np.geo.resource_stress += 1;
    let tampered = SignedShard {
        payload: shard_of(np, AlnDeviceClass::Sensor, AlnDeviceClass::DatacenterNode),
        did: signed.did.clone(),
        signature: signed.signature.clone(),
    };
    assert!(!verify_shard(&tampered, &EchoBackend));
}

#[test]
fn unresolvable_identity_fails_verification() {
    let mut signed = signed_sample();
    signed.did = "unknown".to_string();
    assert!(!verify_shard(&signed, &EchoBackend));
    assert!(!verify_ml_dsa(&EchoBackend, "nobody", b"m", b"m"));
    let k = DidKeyPair { did: "did:k".to_string() };
    let sig = k.sign_ml_dsa(&EchoBackend, b"msg");
    assert!(verify_ml_dsa(&EchoBackend, "did:k", b"msg", &sig));
}

#[test]
fn canonical_encoding_layout() {
    let np = base_record();
    let bytes = encode_record(&np);
    let id: u128 = 0x0102_0304_0506_0708_090a_0b0c_0d0e_0f10;
    assert_eq!(&bytes[0..8], &(id as u64).to_le_bytes());
    assert_eq!(&bytes[8..16], &((id >> 64) as u64).to_le_bytes());
    assert_eq!(&bytes[16..24], &(np.geometry.len() as u64).to_le_bytes());
    let g_end = 24 + np.geometry.len();
    assert_eq!(&bytes[24..g_end], np.geometry.as_bytes());
    assert_eq!(&bytes[g_end..g_end + 8], &10u64.to_le_bytes());
    assert_eq!(&bytes[g_end + 8..g_end + 18], b"urban-core");
    assert_eq!(&bytes[g_end + 18..g_end + 26], &1u64.to_le_bytes());
    assert_eq!(&bytes[g_end + 26..g_end + 34], &700_000u64.to_le_bytes());
    let n = bytes.len();
    assert_eq!(&bytes[n - 8..], &1_700_000_000_000_000u64.to_le_bytes());
    assert_eq!(&bytes[n - 16..n - 8], &1u64.to_le_bytes());
    let strings = np.geometry.len() + 10 + 6 + "did:example:owner".len();
    assert_eq!(n, 8 * 35 + strings);
}

#[test]
fn negative_values_encode_as_twos_complement() {
    let bytes = encode_record(&base_record());
    let pos = bytes
        .windows(8)
        .position(|w| w == (-200_000i64).to_le_bytes())
        .expect("safety index present");
    assert!(pos > 0);
}

/// Hooks that count the tickets they hand out.
struct CountingHooks {
    queued: Cell<u32>,
}

impl GovernanceHooks for CountingHooks {
    fn issued(&self, _shard: SignedShard, _confidence: i64, _ticket: HitlTicket) -> bool {
        true
    }

    fn enqueue_hitl(&self, shard: &SignedShard, _confidence: i64) -> HitlTicket {
        self.queued.set(self.queued.get() + 1);
        HitlTicket {
            ticket_id: format!("ticket-{}", self.queued.get()),
            shard_did: shard.did.clone(),
        }
    }

    fn record_appeal(&self, _ticket: &HitlTicket, _human_did: &str, _decision: AppealDecision, _reason: &str) {}
}

fn signed_with(impact: ImpactRating, hitl_required: bool) -> SignedShard {
    let mut np = base_record();
    np.impact_rating = impact;
    np.metadata.ai_rmf_profile.requires_human_in_loop = hitl_required;
    let keypair = DidKeyPair { did: "did:example:issuer".to_string() };
    let shard = shard_of(np, AlnDeviceClass::ScadaGateway, AlnDeviceClass::SupercomputerNode);
    sign_shard(shard, &keypair, &EchoBackend)
}

#[test]
fn critical_at_threshold_queues_review() {
    let hooks = CountingHooks { queued: Cell::new(0) };
    let ctx = RoutingContext::new(&hooks);
    assert_eq!(ctx.power_threshold, POWER_THRESHOLD);
    match ctx.decide(&signed_with(ImpactRating::Critical, false), 920_000) {
        RouteDecision::QueueHitl(t) => {
            assert_eq!(t.ticket_id, "ticket-1");
            assert_eq!(t.shard_did, "did:example:issuer");
        }
        _ => panic!("expected a review ticket"),
    }
}

#[test]
fn critical_below_threshold_executes_without_flag() {
    let hooks = CountingHooks { queued: Cell::new(0) };
    let ctx = RoutingContext::new(&hooks);
    assert!(matches!(ctx.decide(&signed_with(ImpactRating::Critical, false), 910_000), RouteDecision::Execute));
    assert_eq!(hooks.queued.get(), 0);
}

#[test]
fn critical_below_threshold_queues_with_flag() {
    let hooks = CountingHooks { queued: Cell::new(0) };
    let ctx = RoutingContext::new(&hooks);
    assert!(matches!(ctx.decide(&signed_with(ImpactRating::Critical, true), 910_000), RouteDecision::QueueHitl(_)));
    assert_eq!(hooks.queued.get(), 1);
}

#[test]
fn low_impact_never_escalates() {
    let hooks = CountingHooks { queued: Cell::new(0) };
    let ctx = RoutingContext::new(&hooks);
    assert!(matches!(ctx.decide(&signed_with(ImpactRating::Moderate, true), 1_000_000), RouteDecision::Execute));
    assert!(matches!(ctx.decide(&signed_with(ImpactRating::High, false), 990_000), RouteDecision::QueueHitl(_)));
    assert!(matches!(ctx.decide(&signed_with(ImpactRating::Low, false), 990_000), RouteDecision::Execute));
}

#[test]
fn verdict_needs_a_resolved_key() {
    let sig = EchoBackend.sign("did:k", b"msg");
    assert!(!verify_resolved(&EchoBackend, None, b"msg", &sig));
    assert!(verify_resolved(&EchoBackend, Some(b"did:k".to_vec()), b"msg", &sig));
    assert!(!verify_resolved(&EchoBackend, Some(b"did:j".to_vec()), b"msg", &sig));
}

#[test]
fn sink_keeps_earlier_events_unchanged() {
    let mut sink = InMemoryAuditSink::new();
    let a = shard_of(base_record(), AlnDeviceClass::Sensor, AlnDeviceClass::DatacenterNode);
    RoutingPolicy::evaluate(&a, &mut sink);
    let first_id = sink.events[0].event_id;
    let first_time = sink.events[0].timestamp_utc;
    let b = shard_of(base_record(), AlnDeviceClass::Sensor, AlnDeviceClass::Sensor);
    RoutingPolicy::evaluate(&b, &mut sink);
    assert_eq!(sink.events.len(), 2);
    assert_eq!(sink.events[0].event_id, first_id);
    assert_eq!(sink.events[0].timestamp_utc, first_time);
    assert_ne!(sink.events[1].event_id, first_id);
}
