use crate::address::Address;
use vstd::prelude::*;

verus! {

/// A decimal quantity, held exactly as a whole number of millionths.
#[derive(Clone, Copy, Debug, Default, PartialEq, Eq, Structural)]
pub struct Decimal {
    pub micros: i64,
}

/// The kind of coastal ecosystem that a project restores.
#[derive(Clone, Copy, Debug, PartialEq, Eq, Structural)]
pub enum EcosystemType {
    Mangrove,
    Seagrass,
    SaltMarsh,
    MixedBlueCarbon,
}

/// Where a project stands in its verification.
#[derive(Clone, Copy, Debug, PartialEq, Eq, Structural)]
pub enum VerificationStatus {
    Pending,
    UnderReview,
    Verified,
    Rejected,
    Monitoring,
    Expired,
}

/// The kind of body that a verifier is.
#[derive(Clone, Copy, Debug, PartialEq, Eq, Structural)]
pub enum VerifierType {
    ScientificInstitution,
    GovernmentAgency,
    CertificationBody,
    LocalCommunity,
    TechnicalAuditor,
    ThirdPartyValidator,
}

/// A benefit of a project besides the carbon it stores.
#[derive(Clone, Copy, Debug, PartialEq, Eq, Structural)]
pub enum CoBenefit {
    BiodiversityConservation,
    CommunityLivelihoods,
    CoastalProtection,
    WaterQuality,
    FisheryEnhancement,
    TourismDevelopment,
    EducationOutreach,
}

impl Default for VerificationStatus {
    fn default() -> (r: Self)
        ensures
            r == VerificationStatus::Pending,
    {
        VerificationStatus::Pending
    }
}

impl Default for EcosystemType {
    fn default() -> (r: Self)
        ensures
            r == EcosystemType::MixedBlueCarbon,
    {
        EcosystemType::MixedBlueCarbon
    }
}

/// Where a project lies.
#[derive(Clone, Debug, Default)]
pub struct GeoLocation {
    pub latitude: Decimal,
    pub longitude: Decimal,
    pub polygon_coordinates: Vec<[Decimal; 2]>,
    pub country_code: String,
    pub region_name: String,
}

/// The nutrients measured in a water sample.
#[derive(Clone, Copy, Debug, Default)]
pub struct NutrientLevels {
    pub nitrogen: Decimal,
    pub phosphorus: Decimal,
    pub potassium: Decimal,
}

/// What a water sample was measured to hold.
#[derive(Clone, Copy, Debug, Default)]
pub struct WaterQuality {
    pub ph_level: Decimal,
    pub salinity: Decimal,
    pub dissolved_oxygen: Decimal,
    pub turbidity: Decimal,
    pub nutrients: NutrientLevels,
}

/// One reading of the tide.
#[derive(Clone, Debug)]
pub struct TideReading {
    pub timestamp: i64,
    pub tide_height: Decimal,
    pub tide_type: String,
}

/// One reading of a sensor on the site.
#[derive(Clone, Debug)]
pub struct SensorReading {
    pub sensor_id: String,
    pub timestamp: i64,
    pub co2_flux: Decimal,
    pub soil_moisture: Decimal,
    pub ph_level: Decimal,
    pub temperature: Decimal,
    pub humidity: Decimal,
}

/// What a project brought to the people around it.
#[derive(Clone, Debug)]
pub struct CommunityBenefit {
    pub benefit_type: String,
    pub households_affected: u32,
    pub jobs_created: u32,
    pub income_increase_percentage: Decimal,
    pub capacity_building_programs: u32,
}

/// What a project earned and saved.
#[derive(Clone, Copy, Debug)]
pub struct EconomicImpact {
    pub direct_revenue: u64,
    pub indirect_benefits: u64,
    pub cost_savings: u64,
    pub roi_percentage: Decimal,
    pub payback_period_years: Decimal,
}

/// The one record that holds the totals of the whole registry.
#[derive(Clone, Copy, Debug)]
pub struct GlobalRegistry {
    pub total_credits_issued: u64,
    pub total_projects: u64,
    pub admin: Address,
    pub mint_authority: Address,
    pub carbon_token_mint: Address,
    pub bump: u8,
    pub mint_authority_bump: u8,
    /// The number of decimal places of one credit token.
    pub decimals: u8,
}

impl GlobalRegistry {
    /// The room kept for the registry record, in bytes.
    pub const LEN: usize = 8 + 8 + 32 + 32 + 32 + 1 + 1 + 1;
}

/// One restoration project.
#[derive(Clone, Debug)]
pub struct Project {
    pub project_id: String,
    pub owner: Address,
    pub ipfs_cid: String,
    pub carbon_tons_estimated: u64,
    pub verification_status: VerificationStatus,
    pub credits_issued: u64,
    pub tokens_minted: u64,
    pub bump: u8,
    pub ecosystem_type: EcosystemType,
    pub location: GeoLocation,
    pub area_hectares: Decimal,
    pub species_composition: Vec<String>,
    pub biodiversity_index: Decimal,
    pub establishment_date: i64,
    pub above_ground_biomass: Decimal,
    pub below_ground_biomass: Decimal,
    pub soil_carbon_0_30cm: Decimal,
    pub soil_carbon_30_100cm: Decimal,
    pub sequestration_rate_annual: Decimal,
    pub measurement_methodology: String,
    pub uncertainty_percentage: Decimal,
    pub vcs_methodology: String,
    pub additionality_proof_cid: String,
    pub permanence_guarantee_years: u16,
    pub leakage_assessment: Decimal,
    pub monitoring_plan_cid: String,
    pub baseline_ecosystem_health: Decimal,
    pub current_ecosystem_health: Decimal,
    pub species_count_baseline: u32,
    pub species_count_current: u32,
    pub co_benefits: Vec<CoBenefit>,
    pub vintage_year: u16,
    pub quality_rating: u8,
    pub price_per_ton: u64,
    pub available_quantity: u64,
}

impl Project {
    /// The room kept for a project record, in bytes: 200 for its fields of
    /// fixed size, and for each text and list the four bytes of its length
    /// with the room for what it holds.
    pub const LEN: usize = 200 + (4 + 32) + (4 + 46) + (4 + 100) + (4 + 4) + (4 + 50) + (4 + 320) + (4
        + 100) + (4 + 100) + (4 + 46) + (4 + 46) + (4 + 280);
}

/// One measurement of the carbon that a project holds.
#[derive(Clone, Debug)]
pub struct CarbonMeasurement {
    pub project_id: String,
    pub measurement_date: i64,
    pub above_ground_biomass: Decimal,
    pub below_ground_biomass: Decimal,
    pub soil_carbon_0_30cm: Decimal,
    pub soil_carbon_30_100cm: Decimal,
    pub sequestration_rate_annual: Decimal,
    pub methodology: String,
    pub uncertainty_percentage: Decimal,
    pub measurer_authority: Address,
    pub verification_status: VerificationStatus,
    pub satellite_imagery_cid: String,
    pub field_data_cid: String,
}

/// One accredited verifier.
#[derive(Clone, Debug)]
pub struct VerificationNode {
    pub verifier_pubkey: Address,
    pub verifier_type: VerifierType,
    pub credentials: Vec<String>,
    pub reputation_score: u64,
    pub verification_count: u64,
    pub is_active: bool,
    pub registration_date: i64,
    pub specializations: Vec<EcosystemType>,
}

/// One observation of a project's site.
#[derive(Clone, Debug)]
pub struct MonitoringData {
    pub project_id: String,
    pub timestamp: i64,
    pub satellite_imagery_cid: String,
    pub ndvi_index: Decimal,
    pub water_quality: WaterQuality,
    pub temperature_data: Vec<Decimal>,
    pub tide_data: Vec<TideReading>,
    pub iot_sensor_data: Vec<SensorReading>,
    pub ecosystem_health_score: Decimal,
}

/// One offer of credits for sale.
#[derive(Clone, Debug)]
pub struct CarbonCreditListing {
    pub project_id: String,
    pub seller: Address,
    pub vintage_year: u16,
    pub quantity_available: u64,
    pub price_per_ton: u64,
    pub quality_rating: u8,
    pub co_benefits: Vec<CoBenefit>,
    pub certification_standards: Vec<String>,
    pub listing_date: i64,
    pub expiry_date: i64,
    pub is_active: bool,
}

/// The growth of a species count over its baseline, in percent, as the
/// fraction `numerator / denominator`.
#[derive(Clone, Copy, Debug, PartialEq, Eq, Structural)]
pub struct PercentChange {
    pub numerator: i64,
    pub denominator: u32,
}

/// One summary of what a project achieved in a period.
#[derive(Clone, Debug)]
pub struct ImpactReport {
    pub project_id: String,
    pub reporting_period_start: i64,
    pub reporting_period_end: i64,
    pub carbon_sequestered: Decimal,
    /// Nothing where the difference of the two health scores does not fit.
    pub ecosystem_health_improvement: Option<Decimal>,
    /// Nothing where the project's baseline species count is zero.
    pub biodiversity_increase: Option<PercentChange>,
    pub community_benefits: Vec<CommunityBenefit>,
    pub economic_impact: EconomicImpact,
    pub sdg_contributions: Vec<u8>,
    pub verification_report_cid: String,
}

/// What an owner states of a project at its registration.
#[derive(Clone, Debug)]
pub struct BlueProjectData {
    pub project_id: String,
    pub ipfs_cid: String,
    pub carbon_tons_estimated: u64,
    pub ecosystem_type: EcosystemType,
    pub location: GeoLocation,
    pub area_hectares: Decimal,
    pub species_composition: Vec<String>,
    pub biodiversity_index: Decimal,
    pub above_ground_biomass: Decimal,
    pub below_ground_biomass: Decimal,
    pub soil_carbon_0_30cm: Decimal,
    pub soil_carbon_30_100cm: Decimal,
    pub sequestration_rate_annual: Decimal,
    pub measurement_methodology: String,
    pub uncertainty_percentage: Decimal,
    pub vcs_methodology: String,
    pub additionality_proof_cid: String,
    pub permanence_guarantee_years: u16,
    pub leakage_assessment: Decimal,
    pub monitoring_plan_cid: String,
    pub baseline_ecosystem_health: Decimal,
    pub species_count_baseline: u32,
    pub co_benefits: Vec<CoBenefit>,
    pub vintage_year: u16,
    pub price_per_ton: u64,
}

/// What a verifier states of itself at its registration.
#[derive(Clone, Debug)]
pub struct VerifierData {
    pub verifier_type: VerifierType,
    pub credentials: Vec<String>,
    pub specializations: Vec<EcosystemType>,
}

/// What a data provider hands in as an observation.
#[derive(Clone, Debug)]
pub struct MonitoringDataInput {
    pub project_id: String,
    pub satellite_imagery_cid: String,
    pub ndvi_index: Decimal,
    pub water_quality: WaterQuality,
    pub temperature_data: Vec<Decimal>,
    pub tide_data: Vec<TideReading>,
    pub iot_sensor_data: Vec<SensorReading>,
    pub ecosystem_health_score: Decimal,
}

/// What a seller states of an offer.
#[derive(Clone, Debug)]
pub struct MarketplaceListingData {
    pub project_id: String,
    pub vintage_year: u16,
    pub quantity_available: u64,
    pub price_per_ton: u64,
    pub certification_standards: Vec<String>,
    pub expiry_date: i64,
}

/// What a report generator states of a period.
#[derive(Clone, Debug)]
pub struct ImpactReportData {
    pub project_id: String,
    pub reporting_period_start: i64,
    pub reporting_period_end: i64,
    pub carbon_sequestered: Decimal,
    pub community_benefits: Vec<CommunityBenefit>,
    pub economic_impact: EconomicImpact,
    pub sdg_contributions: Vec<u8>,
    pub verification_report_cid: String,
    pub species_count_current: u32,
}

} // verus!
