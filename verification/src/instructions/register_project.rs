use crate::address::Address;
use crate::instructions::errors::ErrorCode;
use crate::layout::project_fits;
use crate::layout::project_len;
use crate::layout::text_len;
use crate::layout::PROJECT_SPACE;
use crate::models::BlueProjectData;
use crate::models::Decimal;
use crate::models::EcosystemType;
use crate::models::GeoLocation;
use crate::models::GlobalRegistry;
use crate::models::Project;
use crate::models::VerificationStatus;
use vstd::prelude::*;

verus! {

/// The registry once one more project is registered.
pub open spec fn registry_with_one_more(registry: GlobalRegistry) -> GlobalRegistry {
    GlobalRegistry { total_projects: (registry.total_projects + 1) as u64, ..registry }
}

/// The bytes that a plain project takes: 236 besides its identifier and the
/// reference to its documents.
pub open spec fn plain_project_len(project_id: Seq<char>, ipfs_cid: Seq<char>) -> nat {
    236 + text_len(project_id) + text_len(ipfs_cid)
}

/// Why a registration is refused, if it is, for a project that takes `len`
/// bytes: the registry's count cannot grow, or the record does not fit in the
/// room kept for a project.
pub open spec fn registration_refusal(registry: GlobalRegistry, len: nat) -> Option<ErrorCode> {
    if registry.total_projects == u64::MAX {
        Some(ErrorCode::ArithmeticOverflow)
    } else if len > PROJECT_SPACE {
        Some(ErrorCode::AccountDidNotSerialize)
    } else {
        None
    }
}

/// Whether `project` is the plain project that `project_owner` registers: it
/// holds what was given, it is pending, nothing is issued for it, and every
/// other field is empty or zero.
pub open spec fn is_plain_project(
    project: Project,
    project_owner: Address,
    bump: u8,
    project_id: String,
    ipfs_cid: String,
    carbon_tons_estimated: u64,
) -> bool {
    &&& project.project_id == project_id
    &&& project.owner == project_owner
    &&& project.ipfs_cid == ipfs_cid
    &&& project.carbon_tons_estimated == carbon_tons_estimated
    &&& project.verification_status == VerificationStatus::Pending
    &&& project.credits_issued == 0
    &&& project.tokens_minted == 0
    &&& project.bump == bump
    &&& project.ecosystem_type == EcosystemType::MixedBlueCarbon
    &&& project.location.latitude.micros == 0
    &&& project.location.longitude.micros == 0
    &&& project.location.polygon_coordinates@.len() == 0
    &&& project.location.country_code@.len() == 0
    &&& project.location.region_name@.len() == 0
    &&& project.area_hectares.micros == 0
    &&& project.species_composition@.len() == 0
    &&& project.biodiversity_index.micros == 0
    &&& project.establishment_date == 0
    &&& project.above_ground_biomass.micros == 0
    &&& project.below_ground_biomass.micros == 0
    &&& project.soil_carbon_0_30cm.micros == 0
    &&& project.soil_carbon_30_100cm.micros == 0
    &&& project.sequestration_rate_annual.micros == 0
    &&& project.measurement_methodology@.len() == 0
    &&& project.uncertainty_percentage.micros == 0
    &&& project.vcs_methodology@.len() == 0
    &&& project.additionality_proof_cid@.len() == 0
    &&& project.permanence_guarantee_years == 0
    &&& project.leakage_assessment.micros == 0
    &&& project.monitoring_plan_cid@.len() == 0
    &&& project.baseline_ecosystem_health.micros == 0
    &&& project.current_ecosystem_health.micros == 0
    &&& project.species_count_baseline == 0
    &&& project.species_count_current == 0
    &&& project.co_benefits@.len() == 0
    &&& project.vintage_year == 0
    &&& project.quality_rating == 0
    &&& project.price_per_ton == 0
    &&& project.available_quantity == 0
}

/// A text without characters takes the four bytes of its length.
pub proof fn lemma_empty_text(text: Seq<char>)
    requires
        text.len() == 0,
    ensures
        text_len(text) == 4,
{
}

/// Registers a project by its identifier, the reference to its documents and
/// its estimated tons. The new project is pending with nothing issued, and the
/// registry counts one project more. It is refused, and the registry left as
/// it is, where that count cannot grow or the record does not fit.
pub fn register_project(
    registry: &mut GlobalRegistry,
    project_owner: Address,
    bump: u8,
    project_id: String,
    ipfs_cid: String,
    carbon_tons_estimated: u64,
) -> (r: Result<Project, ErrorCode>)
    ensures
        match registration_refusal(*old(registry), plain_project_len(project_id@, ipfs_cid@)) {
            Some(e) => r is Err && r->Err_0 == e && *final(registry) == *old(registry),
            None => r is Ok && is_plain_project(
                r->Ok_0,
                project_owner,
                bump,
                project_id,
                ipfs_cid,
                carbon_tons_estimated,
            ) && project_len(r->Ok_0) == plain_project_len(project_id@, ipfs_cid@) && *final(registry) == registry_with_one_more(*old(registry)),
        },
{
    let total = match registry.total_projects.checked_add(1) {
        Some(total) => total,
        None => {
            return Err(ErrorCode::ArithmeticOverflow);
        },
    };
    let zero = Decimal { micros: 0 };
    let project = Project {
        project_id,
        owner: project_owner,
        ipfs_cid,
        carbon_tons_estimated,
        verification_status: VerificationStatus::Pending,
        credits_issued: 0,
        tokens_minted: 0,
        bump,
        ecosystem_type: EcosystemType::MixedBlueCarbon,
        location: GeoLocation {
            latitude: zero,
            longitude: zero,
            polygon_coordinates: Vec::new(),
            country_code: String::new(),
            region_name: String::new(),
        },
        area_hectares: zero,
        species_composition: Vec::new(),
        biodiversity_index: zero,
        establishment_date: 0,
        above_ground_biomass: zero,
        below_ground_biomass: zero,
        soil_carbon_0_30cm: zero,
        soil_carbon_30_100cm: zero,
        sequestration_rate_annual: zero,
        measurement_methodology: String::new(),
        uncertainty_percentage: zero,
        vcs_methodology: String::new(),
        additionality_proof_cid: String::new(),
        permanence_guarantee_years: 0,
        leakage_assessment: zero,
        monitoring_plan_cid: String::new(),
        baseline_ecosystem_health: zero,
        current_ecosystem_health: zero,
        species_count_baseline: 0,
        species_count_current: 0,
        co_benefits: Vec::new(),
        vintage_year: 0,
        quality_rating: 0,
        price_per_ton: 0,
        available_quantity: 0,
    };
    proof {
        lemma_empty_text(project.location.country_code@);
        lemma_empty_text(project.location.region_name@);
        lemma_empty_text(project.measurement_methodology@);
        lemma_empty_text(project.vcs_methodology@);
        lemma_empty_text(project.additionality_proof_cid@);
        lemma_empty_text(project.monitoring_plan_cid@);
    }
    if !project_fits(&project) {
        return Err(ErrorCode::AccountDidNotSerialize);
    }
    registry.total_projects = total;
    Ok(project)
}

/// The project that `project_owner` registers with full data at the time `now`.
pub open spec fn new_blue_project(
    project_owner: Address,
    bump: u8,
    project_data: BlueProjectData,
    now: i64,
) -> Project {
    Project {
        project_id: project_data.project_id,
        owner: project_owner,
        ipfs_cid: project_data.ipfs_cid,
        carbon_tons_estimated: project_data.carbon_tons_estimated,
        verification_status: VerificationStatus::Pending,
        credits_issued: 0,
        tokens_minted: 0,
        bump,
        ecosystem_type: project_data.ecosystem_type,
        location: project_data.location,
        area_hectares: project_data.area_hectares,
        species_composition: project_data.species_composition,
        biodiversity_index: project_data.biodiversity_index,
        establishment_date: now,
        above_ground_biomass: project_data.above_ground_biomass,
        below_ground_biomass: project_data.below_ground_biomass,
        soil_carbon_0_30cm: project_data.soil_carbon_0_30cm,
        soil_carbon_30_100cm: project_data.soil_carbon_30_100cm,
        sequestration_rate_annual: project_data.sequestration_rate_annual,
        measurement_methodology: project_data.measurement_methodology,
        uncertainty_percentage: project_data.uncertainty_percentage,
        vcs_methodology: project_data.vcs_methodology,
        additionality_proof_cid: project_data.additionality_proof_cid,
        permanence_guarantee_years: project_data.permanence_guarantee_years,
        leakage_assessment: project_data.leakage_assessment,
        monitoring_plan_cid: project_data.monitoring_plan_cid,
        baseline_ecosystem_health: project_data.baseline_ecosystem_health,
        current_ecosystem_health: project_data.baseline_ecosystem_health,
        species_count_baseline: project_data.species_count_baseline,
        species_count_current: project_data.species_count_baseline,
        co_benefits: project_data.co_benefits,
        vintage_year: project_data.vintage_year,
        quality_rating: 0,
        price_per_ton: project_data.price_per_ton,
        available_quantity: project_data.carbon_tons_estimated,
    }
}

/// Registers a project with its ecosystem, carbon and compliance data. The
/// new project is pending with nothing issued and no rating; its current
/// health and species count start at their baselines, all its estimated tons
/// are available, and it is established at `now`. The registry counts one
/// project more. It is refused, and the registry left as it is, where that
/// count cannot grow or the record does not fit.
pub fn register_blue_carbon_project(
    registry: &mut GlobalRegistry,
    project_owner: Address,
    bump: u8,
    project_data: BlueProjectData,
    now: i64,
) -> (r: Result<Project, ErrorCode>)
    ensures
        match registration_refusal(
            *old(registry),
            project_len(new_blue_project(project_owner, bump, project_data, now)),
        ) {
            Some(e) => r is Err && r->Err_0 == e && *final(registry) == *old(registry),
            None => r is Ok && r->Ok_0 == new_blue_project(project_owner, bump, project_data, now)
                && *final(registry) == registry_with_one_more(*old(registry)),
        },
{
    let total = match registry.total_projects.checked_add(1) {
        Some(total) => total,
        None => {
            return Err(ErrorCode::ArithmeticOverflow);
        },
    };
    let project = Project {
        project_id: project_data.project_id,
        owner: project_owner,
        ipfs_cid: project_data.ipfs_cid,
        carbon_tons_estimated: project_data.carbon_tons_estimated,
        verification_status: VerificationStatus::Pending,
        credits_issued: 0,
        tokens_minted: 0,
        bump,
        ecosystem_type: project_data.ecosystem_type,
        location: project_data.location,
        area_hectares: project_data.area_hectares,
        species_composition: project_data.species_composition,
        biodiversity_index: project_data.biodiversity_index,
        establishment_date: now,
        above_ground_biomass: project_data.above_ground_biomass,
        below_ground_biomass: project_data.below_ground_biomass,
        soil_carbon_0_30cm: project_data.soil_carbon_0_30cm,
        soil_carbon_30_100cm: project_data.soil_carbon_30_100cm,
        sequestration_rate_annual: project_data.sequestration_rate_annual,
        measurement_methodology: project_data.measurement_methodology,
        uncertainty_percentage: project_data.uncertainty_percentage,
        vcs_methodology: project_data.vcs_methodology,
        additionality_proof_cid: project_data.additionality_proof_cid,
        permanence_guarantee_years: project_data.permanence_guarantee_years,
        leakage_assessment: project_data.leakage_assessment,
        monitoring_plan_cid: project_data.monitoring_plan_cid,
        baseline_ecosystem_health: project_data.baseline_ecosystem_health,
        current_ecosystem_health: project_data.baseline_ecosystem_health,
        species_count_baseline: project_data.species_count_baseline,
        species_count_current: project_data.species_count_baseline,
        co_benefits: project_data.co_benefits,
        vintage_year: project_data.vintage_year,
        quality_rating: 0,
        price_per_ton: project_data.price_per_ton,
        available_quantity: project_data.carbon_tons_estimated,
    };
    if !project_fits(&project) {
        return Err(ErrorCode::AccountDidNotSerialize);
    }
    registry.total_projects = total;
    Ok(project)
}

} // verus!
