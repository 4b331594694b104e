use vstd::prelude::*;
use vstd::bytes::{lemma_auto_spec_u64_to_from_le_bytes, spec_u64_to_le_bytes};
use vstd::utf8::{encode_utf8, encode_utf8_decode_utf8};

use crate::nanopolygon::{
    AppealPathType, BiospatialTelemetry, ConsentRequirement, GeoIntelligence, HazardLevel,
    ImpactRating, IntelligenceIndex, LearningSignal, NanopolygonSafetyObject, NeurorightsProfile,
    SpeciesClass, SpeciesRightsProfile, TerritoryProtectionLevel,
};
use crate::policy::GovernanceMetadata;

verus! {

// Canonical byte form of a record, the message that attestation signs. Fields
// follow in declaration order. Every integer, flag (0 or 1) and enum variant (its
// position) takes eight little-endian bytes, as bincode writes a u64; a 128-bit
// integer takes its low half, then its high half. A string is written as bincode
// writes a str: its UTF-8 length in eight little-endian bytes, then its UTF-8 bytes.

/// Appends the eight little-endian bytes of `x`.
pub open spec fn put_u64(acc: Seq<u8>, x: u64) -> Seq<u8> {
    acc + spec_u64_to_le_bytes(x)
}

/// Appends the UTF-8 length of `s` as eight little-endian bytes, then its UTF-8 bytes.
pub open spec fn put_str(acc: Seq<u8>, s: Seq<char>) -> Seq<u8> {
    acc + spec_u64_to_le_bytes(encode_utf8(s).len() as u64) + encode_utf8(s)
}

pub open spec fn put_u128(acc: Seq<u8>, x: u128) -> Seq<u8> {
    put_u64(put_u64(acc, x as u64), (x >> 64u128) as u64)
}

pub open spec fn put_flag(acc: Seq<u8>, b: bool) -> Seq<u8> {
    put_u64(acc, if b { 1 } else { 0 })
}

pub open spec fn hazard_code(h: HazardLevel) -> u64 {
    match h {
        HazardLevel::Low => 0,
        HazardLevel::Moderate => 1,
        HazardLevel::High => 2,
        HazardLevel::Extreme => 3,
    }
}

pub open spec fn territory_code(t: TerritoryProtectionLevel) -> u64 {
    match t {
        TerritoryProtectionLevel::Unprotected => 0,
        TerritoryProtectionLevel::Sanctuary => 1,
        TerritoryProtectionLevel::SanctuaryCorridor => 2,
        TerritoryProtectionLevel::RegulatedExperimentZone => 3,
    }
}

pub open spec fn consent_code(c: ConsentRequirement) -> u64 {
    match c {
        ConsentRequirement::StandardGovernance => 0,
        ConsentRequirement::CommunityMultisigRequired => 1,
        ConsentRequirement::IndividualConsentRequired => 2,
        ConsentRequirement::CommunityAndIndividual => 3,
    }
}

pub open spec fn appeal_code(a: AppealPathType) -> u64 {
    match a {
        AppealPathType::EcoInfraCouncil => 0,
        AppealPathType::EthicsPanel => 1,
        AppealPathType::CommunityCouncil => 2,
    }
}

pub open spec fn impact_code(i: ImpactRating) -> u64 {
    match i {
        ImpactRating::Low => 0,
        ImpactRating::Moderate => 1,
        ImpactRating::High => 2,
        ImpactRating::Critical => 3,
    }
}

pub open spec fn species_code(s: SpeciesClass) -> u64 {
    match s {
        SpeciesClass::Human => 0,
        SpeciesClass::NonHumanAnimal => 1,
        SpeciesClass::SyntheticLifeform => 2,
        SpeciesClass::CyberneticallyEnhancedHuman => 3,
        SpeciesClass::CyberneticallyEnhancedNonHuman => 4,
        SpeciesClass::Other(_) => 5,
    }
}

pub open spec fn put_species(acc: Seq<u8>, s: SpeciesClass) -> Seq<u8> {
    let a = put_u64(acc, species_code(s));
    match s {
        SpeciesClass::Other(name) => put_str(a, name@),
        _ => a,
    }
}

pub open spec fn put_geo(acc: Seq<u8>, g: GeoIntelligence) -> Seq<u8> {
    let a = put_str(acc, g.location_band@);
    let a = put_u64(a, hazard_code(g.hazard_level));
    let a = put_u64(a, g.resource_stress as u64);
    put_u64(a, g.infrastructure_criticality as u64)
}

pub open spec fn put_measures(
    acc: Seq<u8>,
    b: BiospatialTelemetry,
    l: LearningSignal,
    i: IntelligenceIndex,
) -> Seq<u8> {
    let a = put_u64(acc, b.heat_stress as u64);
    let a = put_u64(a, b.pollution_exposure as u64);
    let a = put_u64(a, l.gradient_weight as u64);
    put_u64(a, i.quantified_safety_index as u64)
}

pub open spec fn put_species_rights(acc: Seq<u8>, s: SpeciesRightsProfile) -> Seq<u8> {
    let a = put_species(acc, s.primary_species);
    let a = put_flag(a, s.recognizes_cybernetic_personhood);
    let a = put_u64(a, territory_code(s.territory_protection));
    put_flag(a, s.anti_discrimination_hard_floor)
}

pub open spec fn put_neurorights(acc: Seq<u8>, n: NeurorightsProfile) -> Seq<u8> {
    let a = put_flag(acc, n.allows_direct_neural_interfaces);
    let a = put_flag(a, n.neurorights_sanctuary);
    let a = put_u64(a, consent_code(n.consent_requirement));
    let a = put_u64(a, appeal_code(n.appeal_path));
    put_u64(a, n.hitl_trigger_threshold as u64)
}

pub open spec fn put_governance(acc: Seq<u8>, m: GovernanceMetadata) -> Seq<u8> {
    let a = put_str(acc, m.jurisdiction_code@);
    let a = put_u64(a, m.ai_rmf_profile.functions.bits as u64);
    let a = put_flag(a, m.ai_rmf_profile.requires_human_in_loop);
    let a = put_flag(a, m.ai_rmf_profile.requires_appeal_path);
    let a = put_u64(a, m.sp80053_profile.families.bits as u64);
    let a = put_flag(a, m.ethics_profile.human_primacy);
    let a = put_flag(a, m.ethics_profile.equal_power_thresholds);
    let a = put_flag(a, m.ethics_profile.appeal_paths_available);
    let a = put_str(a, m.data_owner_did@);
    let a = put_u128(a, m.created_by_agent_id);
    put_u128(a, m.last_modified_by_agent_id)
}

pub open spec fn put_record(acc: Seq<u8>, np: NanopolygonSafetyObject) -> Seq<u8> {
    let a = put_u128(acc, np.polygon_id);
    let a = put_str(a, np.geometry@);
    let a = put_geo(a, np.geo);
    let a = put_measures(a, np.biospatial, np.learning, np.intelligence);
    let a = put_species_rights(a, np.rights.species_rights);
    let a = put_neurorights(a, np.rights.neurorights);
    let a = put_governance(a, np.metadata);
    let a = put_u64(a, impact_code(np.impact_rating));
    put_u64(a, np.timestamp_utc as u64)
}

/// The canonical bytes of a record.
pub open spec fn record_bytes(np: NanopolygonSafetyObject) -> Seq<u8> {
    put_record(Seq::empty(), np)
}

/// `p` is the start of `s`.
pub open spec fn is_prefix(p: Seq<u8>, s: Seq<u8>) -> bool {
    p.len() <= s.len() && s.subrange(0, p.len() as int) == p
}

/// The UTF-8 form of `s` is short enough for its length to be written in 64 bits,
/// as holds of every string in memory.
pub open spec fn length_fits(s: Seq<char>) -> bool {
    encode_utf8(s).len() < 0x1_0000_0000_0000_0000
}

/// Every string of `np` has a length that fits in 64 bits.
pub open spec fn strings_fit(np: NanopolygonSafetyObject) -> bool {
    &&& length_fits(np.geometry@)
    &&& length_fits(np.geo.location_band@)
    &&& length_fits(np.metadata.jurisdiction_code@)
    &&& length_fits(np.metadata.data_owner_did@)
    &&& (np.rights.species_rights.primary_species matches SpeciesClass::Other(name) ==> length_fits(
        name@,
    ))
}

pub open spec fn same_species(a: SpeciesClass, b: SpeciesClass) -> bool {
    match (a, b) {
        (SpeciesClass::Other(x), SpeciesClass::Other(y)) => x@ == y@,
        _ => a == b,
    }
}

/// `a` and `b` hold the same values, strings compared by their characters.
pub open spec fn same_content(a: NanopolygonSafetyObject, b: NanopolygonSafetyObject) -> bool {
    &&& a.polygon_id == b.polygon_id
    &&& a.geometry@ == b.geometry@
    &&& a.geo.location_band@ == b.geo.location_band@
    &&& a.geo.hazard_level == b.geo.hazard_level
    &&& a.geo.resource_stress == b.geo.resource_stress
    &&& a.geo.infrastructure_criticality == b.geo.infrastructure_criticality
    &&& a.biospatial == b.biospatial
    &&& a.learning == b.learning
    &&& a.intelligence == b.intelligence
    &&& same_species(a.rights.species_rights.primary_species, b.rights.species_rights.primary_species)
    &&& a.rights.species_rights.recognizes_cybernetic_personhood
        == b.rights.species_rights.recognizes_cybernetic_personhood
    &&& a.rights.species_rights.territory_protection == b.rights.species_rights.territory_protection
    &&& a.rights.species_rights.anti_discrimination_hard_floor
        == b.rights.species_rights.anti_discrimination_hard_floor
    &&& a.rights.neurorights == b.rights.neurorights
    &&& a.metadata.jurisdiction_code@ == b.metadata.jurisdiction_code@
    &&& a.metadata.ai_rmf_profile == b.metadata.ai_rmf_profile
    &&& a.metadata.sp80053_profile == b.metadata.sp80053_profile
    &&& a.metadata.ethics_profile == b.metadata.ethics_profile
    &&& a.metadata.data_owner_did@ == b.metadata.data_owner_did@
    &&& a.metadata.created_by_agent_id == b.metadata.created_by_agent_id
    &&& a.metadata.last_modified_by_agent_id == b.metadata.last_modified_by_agent_id
    &&& a.impact_rating == b.impact_rating
    &&& a.timestamp_utc == b.timestamp_utc
}

/// The start of a concatenation that starts `full` starts `full` too.
pub broadcast proof fn lemma_prefix_of_concat(p: Seq<u8>, q: Seq<u8>, full: Seq<u8>)
    requires
        #[trigger] is_prefix(p + q, full),
    ensures
        is_prefix(p, full),
{
    let n = p.len() as int;
    assert(full.subrange(0, n) =~= full.subrange(0, (p + q).len() as int).subrange(0, n));
    assert((p + q).subrange(0, n) =~= p);
}

/// Two integers written at the same place of the same bytes are equal.
proof fn lemma_u64_step(a: Seq<u8>, x: u64, y: u64, full: Seq<u8>)
    requires
        is_prefix(put_u64(a, x), full),
        is_prefix(put_u64(a, y), full),
    ensures
        x == y,
{
    lemma_auto_spec_u64_to_from_le_bytes();
    let n = a.len() as int;
    assert(spec_u64_to_le_bytes(x) =~= put_u64(a, x).subrange(n, n + 8));
    assert(spec_u64_to_le_bytes(y) =~= put_u64(a, y).subrange(n, n + 8));
    assert(put_u64(a, x).subrange(n, n + 8) =~= full.subrange(n, n + 8));
    assert(put_u64(a, y).subrange(n, n + 8) =~= full.subrange(n, n + 8));
}

/// Two strings written at the same place of the same bytes are equal.
proof fn lemma_str_step(a: Seq<u8>, s: Seq<char>, t: Seq<char>, full: Seq<u8>)
    requires
        is_prefix(put_str(a, s), full),
        is_prefix(put_str(a, t), full),
        length_fits(s),
        length_fits(t),
    ensures
        s == t,
{
    broadcast use lemma_prefix_of_concat;

    lemma_auto_spec_u64_to_from_le_bytes();
    let ls = encode_utf8(s).len();
    let lt = encode_utf8(t).len();
    lemma_u64_step(a, ls as u64, lt as u64, full);
    let n = a.len() as int;
    assert(encode_utf8(s) =~= put_str(a, s).subrange(n + 8, n + 8 + ls));
    assert(encode_utf8(t) =~= put_str(a, t).subrange(n + 8, n + 8 + lt));
    let ps = put_str(a, s);
    let pt = put_str(a, t);
    assert(ps.subrange(n + 8, n + 8 + ls) =~= full.subrange(0, ps.len() as int).subrange(
        n + 8,
        n + 8 + ls,
    ));
    assert(pt.subrange(n + 8, n + 8 + lt) =~= full.subrange(0, pt.len() as int).subrange(
        n + 8,
        n + 8 + lt,
    ));
    assert(ps.subrange(n + 8, n + 8 + ls) =~= full.subrange(n + 8, n + 8 + ls));
    assert(pt.subrange(n + 8, n + 8 + lt) =~= full.subrange(n + 8, n + 8 + lt));
    encode_utf8_decode_utf8(s);
    encode_utf8_decode_utf8(t);
}

proof fn lemma_u128_step(a: Seq<u8>, x: u128, y: u128, full: Seq<u8>)
    requires
        is_prefix(put_u128(a, x), full),
        is_prefix(put_u128(a, y), full),
    ensures
        x == y,
{
    broadcast use lemma_prefix_of_concat;

    lemma_u64_step(a, x as u64, y as u64, full);
    lemma_u64_step(put_u64(a, x as u64), (x >> 64u128) as u64, (y >> 64u128) as u64, full);
    assert(x == y) by (bit_vector)
        requires
            x as u64 == y as u64,
            (x >> 64u128) as u64 == (y >> 64u128) as u64,
    ;
}

proof fn lemma_i64_step(a: Seq<u8>, x: i64, y: i64, full: Seq<u8>)
    requires
        is_prefix(put_u64(a, x as u64), full),
        is_prefix(put_u64(a, y as u64), full),
    ensures
        x == y,
{
    lemma_u64_step(a, x as u64, y as u64, full);
    assert(x == y) by (bit_vector)
        requires
            x as u64 == y as u64,
    ;
}

proof fn lemma_flag_step(a: Seq<u8>, x: bool, y: bool, full: Seq<u8>)
    requires
        is_prefix(put_flag(a, x), full),
        is_prefix(put_flag(a, y), full),
    ensures
        x == y,
{
    lemma_u64_step(a, if x { 1 } else { 0 }, if y { 1 } else { 0 }, full);
}

proof fn lemma_geo_step(a: Seq<u8>, x: GeoIntelligence, y: GeoIntelligence, full: Seq<u8>)
    requires
        is_prefix(put_geo(a, x), full),
        is_prefix(put_geo(a, y), full),
        length_fits(x.location_band@),
        length_fits(y.location_band@),
    ensures
        x.location_band@ == y.location_band@,
        x.hazard_level == y.hazard_level,
        x.resource_stress == y.resource_stress,
        x.infrastructure_criticality == y.infrastructure_criticality,
{
    broadcast use lemma_prefix_of_concat;

    lemma_str_step(a, x.location_band@, y.location_band@, full);
    let a1 = put_str(a, x.location_band@);
    lemma_u64_step(a1, hazard_code(x.hazard_level), hazard_code(y.hazard_level), full);
    let a2 = put_u64(a1, hazard_code(x.hazard_level));
    lemma_i64_step(a2, x.resource_stress, y.resource_stress, full);
    let a3 = put_u64(a2, x.resource_stress as u64);
    lemma_u64_step(a3, x.infrastructure_criticality as u64, y.infrastructure_criticality as u64, full);
}

proof fn lemma_measures_step(
    a: Seq<u8>,
    xb: BiospatialTelemetry,
    xl: LearningSignal,
    xi: IntelligenceIndex,
    yb: BiospatialTelemetry,
    yl: LearningSignal,
    yi: IntelligenceIndex,
    full: Seq<u8>,
)
    requires
        is_prefix(put_measures(a, xb, xl, xi), full),
        is_prefix(put_measures(a, yb, yl, yi), full),
    ensures
        xb == yb,
        xl == yl,
        xi == yi,
{
    broadcast use lemma_prefix_of_concat;

    lemma_i64_step(a, xb.heat_stress, yb.heat_stress, full);
    let a1 = put_u64(a, xb.heat_stress as u64);
    lemma_i64_step(a1, xb.pollution_exposure, yb.pollution_exposure, full);
    let a2 = put_u64(a1, xb.pollution_exposure as u64);
    lemma_i64_step(a2, xl.gradient_weight, yl.gradient_weight, full);
    let a3 = put_u64(a2, xl.gradient_weight as u64);
    lemma_i64_step(a3, xi.quantified_safety_index, yi.quantified_safety_index, full);
}

proof fn lemma_species_step(a: Seq<u8>, x: SpeciesClass, y: SpeciesClass, full: Seq<u8>)
    requires
        is_prefix(put_species(a, x), full),
        is_prefix(put_species(a, y), full),
        x matches SpeciesClass::Other(name) ==> length_fits(name@),
        y matches SpeciesClass::Other(name) ==> length_fits(name@),
    ensures
        same_species(x, y),
        put_species(a, x) == put_species(a, y),
{
    broadcast use lemma_prefix_of_concat;

    let ax = put_u64(a, species_code(x));
    let ay = put_u64(a, species_code(y));
    assert(is_prefix(ax, full)) by {
        if let SpeciesClass::Other(name) = x {
            assert(put_species(a, x) == put_str(ax, name@));
        }
    }
    assert(is_prefix(ay, full)) by {
        if let SpeciesClass::Other(name) = y {
            assert(put_species(a, y) == put_str(ay, name@));
        }
    }
    lemma_u64_step(a, species_code(x), species_code(y), full);
    if let SpeciesClass::Other(nx) = x {
        if let SpeciesClass::Other(ny) = y {
            lemma_str_step(ax, nx@, ny@, full);
        }
    }
}

proof fn lemma_species_rights_step(
    a: Seq<u8>,
    x: SpeciesRightsProfile,
    y: SpeciesRightsProfile,
    full: Seq<u8>,
)
    requires
        is_prefix(put_species_rights(a, x), full),
        is_prefix(put_species_rights(a, y), full),
        x.primary_species matches SpeciesClass::Other(name) ==> length_fits(name@),
        y.primary_species matches SpeciesClass::Other(name) ==> length_fits(name@),
    ensures
        same_species(x.primary_species, y.primary_species),
        x.recognizes_cybernetic_personhood == y.recognizes_cybernetic_personhood,
        x.territory_protection == y.territory_protection,
        x.anti_discrimination_hard_floor == y.anti_discrimination_hard_floor,
{
    broadcast use lemma_prefix_of_concat;

    lemma_species_step(a, x.primary_species, y.primary_species, full);
    let a1 = put_species(a, x.primary_species);
    lemma_flag_step(
        a1,
        x.recognizes_cybernetic_personhood,
        y.recognizes_cybernetic_personhood,
        full,
    );
    let a2 = put_flag(a1, x.recognizes_cybernetic_personhood);
    lemma_u64_step(
        a2,
        territory_code(x.territory_protection),
        territory_code(y.territory_protection),
        full,
    );
    let a3 = put_u64(a2, territory_code(x.territory_protection));
    lemma_flag_step(a3, x.anti_discrimination_hard_floor, y.anti_discrimination_hard_floor, full);
}

proof fn lemma_neurorights_step(
    a: Seq<u8>,
    x: NeurorightsProfile,
    y: NeurorightsProfile,
    full: Seq<u8>,
)
    requires
        is_prefix(put_neurorights(a, x), full),
        is_prefix(put_neurorights(a, y), full),
    ensures
        x == y,
{
    broadcast use lemma_prefix_of_concat;

    lemma_flag_step(a, x.allows_direct_neural_interfaces, y.allows_direct_neural_interfaces, full);
    let a1 = put_flag(a, x.allows_direct_neural_interfaces);
    lemma_flag_step(a1, x.neurorights_sanctuary, y.neurorights_sanctuary, full);
    let a2 = put_flag(a1, x.neurorights_sanctuary);
    lemma_u64_step(
        a2,
        consent_code(x.consent_requirement),
        consent_code(y.consent_requirement),
        full,
    );
    let a3 = put_u64(a2, consent_code(x.consent_requirement));
    lemma_u64_step(a3, appeal_code(x.appeal_path), appeal_code(y.appeal_path), full);
    let a4 = put_u64(a3, appeal_code(x.appeal_path));
    lemma_i64_step(a4, x.hitl_trigger_threshold, y.hitl_trigger_threshold, full);
}

proof fn lemma_governance_step(
    a: Seq<u8>,
    x: GovernanceMetadata,
    y: GovernanceMetadata,
    full: Seq<u8>,
)
    requires
        is_prefix(put_governance(a, x), full),
        is_prefix(put_governance(a, y), full),
        length_fits(x.jurisdiction_code@),
        length_fits(y.jurisdiction_code@),
        length_fits(x.data_owner_did@),
        length_fits(y.data_owner_did@),
    ensures
        x.jurisdiction_code@ == y.jurisdiction_code@,
        x.ai_rmf_profile == y.ai_rmf_profile,
        x.sp80053_profile == y.sp80053_profile,
        x.ethics_profile == y.ethics_profile,
        x.data_owner_did@ == y.data_owner_did@,
        x.created_by_agent_id == y.created_by_agent_id,
        x.last_modified_by_agent_id == y.last_modified_by_agent_id,
{
    broadcast use lemma_prefix_of_concat;

    lemma_str_step(a, x.jurisdiction_code@, y.jurisdiction_code@, full);
    let a1 = put_str(a, x.jurisdiction_code@);
    lemma_u64_step(
        a1,
        x.ai_rmf_profile.functions.bits as u64,
        y.ai_rmf_profile.functions.bits as u64,
        full,
    );
    let a2 = put_u64(a1, x.ai_rmf_profile.functions.bits as u64);
    lemma_flag_step(
        a2,
        x.ai_rmf_profile.requires_human_in_loop,
        y.ai_rmf_profile.requires_human_in_loop,
        full,
    );
    let a3 = put_flag(a2, x.ai_rmf_profile.requires_human_in_loop);
    lemma_flag_step(
        a3,
        x.ai_rmf_profile.requires_appeal_path,
        y.ai_rmf_profile.requires_appeal_path,
        full,
    );
    let a4 = put_flag(a3, x.ai_rmf_profile.requires_appeal_path);
    lemma_u64_step(
        a4,
        x.sp80053_profile.families.bits as u64,
        y.sp80053_profile.families.bits as u64,
        full,
    );
    let a5 = put_u64(a4, x.sp80053_profile.families.bits as u64);
    lemma_flag_step(a5, x.ethics_profile.human_primacy, y.ethics_profile.human_primacy, full);
    let a6 = put_flag(a5, x.ethics_profile.human_primacy);
    lemma_flag_step(
        a6,
        x.ethics_profile.equal_power_thresholds,
        y.ethics_profile.equal_power_thresholds,
        full,
    );
    let a7 = put_flag(a6, x.ethics_profile.equal_power_thresholds);
    lemma_flag_step(
        a7,
        x.ethics_profile.appeal_paths_available,
        y.ethics_profile.appeal_paths_available,
        full,
    );
    let a8 = put_flag(a7, x.ethics_profile.appeal_paths_available);
    lemma_str_step(a8, x.data_owner_did@, y.data_owner_did@, full);
    let a9 = put_str(a8, x.data_owner_did@);
    lemma_u128_step(a9, x.created_by_agent_id, y.created_by_agent_id, full);
    let a10 = put_u128(a9, x.created_by_agent_id);
    lemma_u128_step(a10, x.last_modified_by_agent_id, y.last_modified_by_agent_id, full);
}

/// The canonical bytes determine the record: two records with the same bytes
/// hold the same values. So a signature over one record's bytes covers no
/// record that differs from it in any field.
#[verifier::rlimit(40)]
pub proof fn lemma_record_bytes_injective(x: NanopolygonSafetyObject, y: NanopolygonSafetyObject)
    requires
        strings_fit(x),
        strings_fit(y),
        record_bytes(x) == record_bytes(y),
    ensures
        same_content(x, y),
{
    broadcast use lemma_prefix_of_concat;

    let full = record_bytes(x);
    assert(is_prefix(full, full)) by {
        assert(full.subrange(0, full.len() as int) =~= full);
    }
    let a0 = Seq::<u8>::empty();
    lemma_u128_step(a0, x.polygon_id, y.polygon_id, full);
    let a1 = put_u128(a0, x.polygon_id);
    lemma_str_step(a1, x.geometry@, y.geometry@, full);
    let a2 = put_str(a1, x.geometry@);
    lemma_geo_step(a2, x.geo, y.geo, full);
    let a3 = put_geo(a2, x.geo);
    lemma_measures_step(
        a3,
        x.biospatial,
        x.learning,
        x.intelligence,
        y.biospatial,
        y.learning,
        y.intelligence,
        full,
    );
    let a4 = put_measures(a3, x.biospatial, x.learning, x.intelligence);
    lemma_species_rights_step(a4, x.rights.species_rights, y.rights.species_rights, full);
    lemma_species_step(
        a4,
        x.rights.species_rights.primary_species,
        y.rights.species_rights.primary_species,
        full,
    );
    let a5 = put_species_rights(a4, x.rights.species_rights);
    lemma_neurorights_step(a5, x.rights.neurorights, y.rights.neurorights, full);
    let a6 = put_neurorights(a5, x.rights.neurorights);
    lemma_governance_step(a6, x.metadata, y.metadata, full);
    let a7 = put_governance(a6, x.metadata);
    lemma_u64_step(a7, impact_code(x.impact_rating), impact_code(y.impact_rating), full);
    let a8 = put_u64(a7, impact_code(x.impact_rating));
    lemma_i64_step(a8, x.timestamp_utc, y.timestamp_utc, full);
}

/// Relies on bincode::serialize of a u64 (fixed-width, little-endian): its eight
/// bytes, least significant first. Writing into a Vec cannot fail.
#[verifier::external_body]
fn bincode_u64(x: u64) -> (r: Vec<u8>)
    ensures
        r@ == spec_u64_to_le_bytes(x),
{
    bincode::serialize(&x).unwrap_or_default()
}

/// Relies on bincode::serialize of a str: its UTF-8 length as a fixed-width
/// little-endian u64, then its UTF-8 bytes. Writing into a Vec cannot fail.
#[verifier::external_body]
fn bincode_str(s: &str) -> (r: Vec<u8>)
    ensures
        r@ == spec_u64_to_le_bytes(encode_utf8(s@).len() as u64) + encode_utf8(s@),
{
    bincode::serialize(s).unwrap_or_default()
}

fn write_u64(buf: &mut Vec<u8>, x: u64)
    ensures
        final(buf)@ == put_u64(old(buf)@, x),
{
    let mut bytes = bincode_u64(x);
    buf.append(&mut bytes);
}

fn write_str(buf: &mut Vec<u8>, s: &str)
    ensures
        final(buf)@ == put_str(old(buf)@, s@),
{
    let mut bytes = bincode_str(s);
    buf.append(&mut bytes);
    assert(buf@ =~= put_str(old(buf)@, s@));
}

fn write_u128(buf: &mut Vec<u8>, x: u128)
    ensures
        final(buf)@ == put_u128(old(buf)@, x),
{
    write_u64(buf, x as u64);
    write_u64(buf, (x >> 64u128) as u64);
}

fn write_flag(buf: &mut Vec<u8>, b: bool)
    ensures
        final(buf)@ == put_flag(old(buf)@, b),
{
    write_u64(buf, if b { 1 } else { 0 });
}

fn write_species(buf: &mut Vec<u8>, s: &SpeciesClass)
    ensures
        final(buf)@ == put_species(old(buf)@, *s),
{
    match s {
        SpeciesClass::Human => write_u64(buf, 0),
        SpeciesClass::NonHumanAnimal => write_u64(buf, 1),
        SpeciesClass::SyntheticLifeform => write_u64(buf, 2),
        SpeciesClass::CyberneticallyEnhancedHuman => write_u64(buf, 3),
        SpeciesClass::CyberneticallyEnhancedNonHuman => write_u64(buf, 4),
        SpeciesClass::Other(name) => {
            write_u64(buf, 5);
            write_str(buf, name.as_str());
        },
    }
}

fn write_geo(buf: &mut Vec<u8>, g: &GeoIntelligence)
    ensures
        final(buf)@ == put_geo(old(buf)@, *g),
{
    write_str(buf, g.location_band.as_str());
    let hazard: u64 = match g.hazard_level {
        HazardLevel::Low => 0,
        HazardLevel::Moderate => 1,
        HazardLevel::High => 2,
        HazardLevel::Extreme => 3,
    };
    write_u64(buf, hazard);
    write_u64(buf, g.resource_stress as u64);
    write_u64(buf, g.infrastructure_criticality as u64);
}

fn write_measures(
    buf: &mut Vec<u8>,
    b: &BiospatialTelemetry,
    l: &LearningSignal,
    i: &IntelligenceIndex,
)
    ensures
        final(buf)@ == put_measures(old(buf)@, *b, *l, *i),
{
    write_u64(buf, b.heat_stress as u64);
    write_u64(buf, b.pollution_exposure as u64);
    write_u64(buf, l.gradient_weight as u64);
    write_u64(buf, i.quantified_safety_index as u64);
}

fn write_species_rights(buf: &mut Vec<u8>, s: &SpeciesRightsProfile)
    ensures
        final(buf)@ == put_species_rights(old(buf)@, *s),
{
    write_species(buf, &s.primary_species);
    write_flag(buf, s.recognizes_cybernetic_personhood);
    let territory: u64 = match s.territory_protection {
        TerritoryProtectionLevel::Unprotected => 0,
        TerritoryProtectionLevel::Sanctuary => 1,
        TerritoryProtectionLevel::SanctuaryCorridor => 2,
        TerritoryProtectionLevel::RegulatedExperimentZone => 3,
    };
    write_u64(buf, territory);
    write_flag(buf, s.anti_discrimination_hard_floor);
}

fn write_neurorights(buf: &mut Vec<u8>, n: &NeurorightsProfile)
    ensures
        final(buf)@ == put_neurorights(old(buf)@, *n),
{
    write_flag(buf, n.allows_direct_neural_interfaces);
    write_flag(buf, n.neurorights_sanctuary);
    let consent: u64 = match n.consent_requirement {
        ConsentRequirement::StandardGovernance => 0,
        ConsentRequirement::CommunityMultisigRequired => 1,
        ConsentRequirement::IndividualConsentRequired => 2,
        ConsentRequirement::CommunityAndIndividual => 3,
    };
    write_u64(buf, consent);
    let appeal: u64 = match n.appeal_path {
        AppealPathType::EcoInfraCouncil => 0,
        AppealPathType::EthicsPanel => 1,
        AppealPathType::CommunityCouncil => 2,
    };
    write_u64(buf, appeal);
    write_u64(buf, n.hitl_trigger_threshold as u64);
}

fn write_governance(buf: &mut Vec<u8>, m: &GovernanceMetadata)
    ensures
        final(buf)@ == put_governance(old(buf)@, *m),
{
    write_str(buf, m.jurisdiction_code.as_str());
    write_u64(buf, m.ai_rmf_profile.functions.bits as u64);
    write_flag(buf, m.ai_rmf_profile.requires_human_in_loop);
    write_flag(buf, m.ai_rmf_profile.requires_appeal_path);
    write_u64(buf, m.sp80053_profile.families.bits as u64);
    write_flag(buf, m.ethics_profile.human_primacy);
    write_flag(buf, m.ethics_profile.equal_power_thresholds);
    write_flag(buf, m.ethics_profile.appeal_paths_available);
    write_str(buf, m.data_owner_did.as_str());
    write_u128(buf, m.created_by_agent_id);
    write_u128(buf, m.last_modified_by_agent_id);
}

/// The canonical bytes of a record: the message that attestation signs.
pub fn encode_record(np: &NanopolygonSafetyObject) -> (r: Vec<u8>)
    ensures
        r@ == record_bytes(*np),
{
    let mut buf: Vec<u8> = Vec::new();
    write_u128(&mut buf, np.polygon_id);
    write_str(&mut buf, np.geometry.as_str());
    write_geo(&mut buf, &np.geo);
    write_measures(&mut buf, &np.biospatial, &np.learning, &np.intelligence);
    write_species_rights(&mut buf, &np.rights.species_rights);
    write_neurorights(&mut buf, &np.rights.neurorights);
    write_governance(&mut buf, &np.metadata);
    let impact: u64 = match np.impact_rating {
        ImpactRating::Low => 0,
        ImpactRating::Moderate => 1,
        ImpactRating::High => 2,
        ImpactRating::Critical => 3,
    };
    write_u64(&mut buf, impact);
    write_u64(&mut buf, np.timestamp_utc as u64);
    buf
}

} // verus!
