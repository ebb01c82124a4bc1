use anchor_lang::prelude::Pubkey;
use blue_carbon_registry::address::derive_address;
use blue_carbon_registry::address::Address;
use blue_carbon_registry::history::execute;
use blue_carbon_registry::history::Operation;
use blue_carbon_registry::instructions::contexts::CreateMarketplaceListing;
use blue_carbon_registry::instructions::contexts::GenerateImpactReport;
use blue_carbon_registry::instructions::contexts::InitializeRegistry;
use blue_carbon_registry::instructions::contexts::MintCredits;
use blue_carbon_registry::instructions::contexts::MintVerifiedCredits;
use blue_carbon_registry::instructions::contexts::MultiPartyVerifyProject;
use blue_carbon_registry::instructions::contexts::RegisterBlueProject;
use blue_carbon_registry::instructions::contexts::RegisterProject;
use blue_carbon_registry::instructions::contexts::RegisterVerifier;
use blue_carbon_registry::instructions::contexts::SubmitMonitoringData;
use blue_carbon_registry::instructions::contexts::VerifyProject;
use blue_carbon_registry::instructions::errors::ErrorCode;
use blue_carbon_registry::ledger::Ledger;
use blue_carbon_registry::models::BlueProjectData;
use blue_carbon_registry::models::CoBenefit;
use blue_carbon_registry::models::Decimal;
use blue_carbon_registry::models::EconomicImpact;
use blue_carbon_registry::models::EcosystemType;
use blue_carbon_registry::models::GeoLocation;
use blue_carbon_registry::models::ImpactReportData;
use blue_carbon_registry::models::MarketplaceListingData;
use blue_carbon_registry::models::MonitoringDataInput;
use blue_carbon_registry::models::PercentChange;
use blue_carbon_registry::models::VerificationStatus;
use blue_carbon_registry::models::VerifierData;
use blue_carbon_registry::models::VerifierType;
use blue_carbon_registry::models::WaterQuality;
use blue_carbon_registry::program;
use blue_carbon_registry::seeds::make_impact_report_seeds;
use blue_carbon_registry::seeds::make_listing_seeds;
use blue_carbon_registry::seeds::make_mint_seeds;
use blue_carbon_registry::seeds::make_monitoring_seeds;
use blue_carbon_registry::seeds::make_project_seeds;
use blue_carbon_registry::seeds::make_registry_seeds;
use blue_carbon_registry::seeds::make_verifier_seeds;
use blue_carbon_registry::token::TokenInstruction;

fn key(byte: u8) -> Address {
    Address { bytes: [byte; 32] }
}

fn program_id() -> Address {
    key(7)
}

fn admin() -> Address {
    key(1)
}

fn owner() -> Address {
    key(2)
}

fn at(seeds: Vec<Vec<u8>>) -> Address {
    derive_address(&seeds, &program_id()).unwrap().0
}

fn registry_address() -> Address {
    at(make_registry_seeds())
}

fn mint_address() -> Address {
    at(make_mint_seeds())
}

fn project_address(id: &str) -> Address {
    at(make_project_seeds(&owner(), id))
}

fn new_ledger(decimals: u8) -> Ledger {
    let mut ledger = Ledger::new(program_id());
    let ctx = InitializeRegistry {
        registry: registry_address(),
        carbon_token_mint: mint_address(),
        admin: admin(),
    };
    assert_eq!(program::initialize_registry(&mut ledger, &ctx, decimals), Ok(()));
    ledger
}

fn register(ledger: &mut Ledger, id: &str, tons: u64) -> Result<(), ErrorCode> {
    let ctx = RegisterProject {
        project: project_address(id),
        registry: registry_address(),
        project_owner: owner(),
    };
    program::register_project(ledger, &ctx, id.to_string(), "cid".to_string(), tons)
}

fn verify(ledger: &mut Ledger, id: &str, tons: u64) -> Result<(), ErrorCode> {
    let ctx = VerifyProject {
        project: project_address(id),
        registry: registry_address(),
        admin: admin(),
    };
    program::verify_project(ledger, &ctx, tons)
}

fn mint(ledger: &mut Ledger, id: &str, amount: u64) -> Result<TokenInstruction, ErrorCode> {
    let ctx = MintVerifiedCredits {
        project: project_address(id),
        registry: registry_address(),
        carbon_token_mint: mint_address(),
        recipient_token_account: key(9),
        owner: owner(),
        recipient: key(8),
    };
    program::mint_verified_credits(ledger, &ctx, amount)
}

fn blue_data(id: &str, tons: u64, baseline_species: u32) -> BlueProjectData {
    BlueProjectData {
        project_id: id.to_string(),
        ipfs_cid: "cid".to_string(),
        carbon_tons_estimated: tons,
        ecosystem_type: EcosystemType::Mangrove,
        location: GeoLocation::default(),
        area_hectares: Decimal { micros: 12_500_000 },
        species_composition: vec!["Rhizophora".to_string()],
        biodiversity_index: Decimal { micros: 700_000 },
        above_ground_biomass: Decimal { micros: 1 },
        below_ground_biomass: Decimal { micros: 2 },
        soil_carbon_0_30cm: Decimal { micros: 3 },
        soil_carbon_30_100cm: Decimal { micros: 4 },
        sequestration_rate_annual: Decimal { micros: 5 },
        measurement_methodology: "field".to_string(),
        uncertainty_percentage: Decimal { micros: 6 },
        vcs_methodology: "VM0033".to_string(),
        additionality_proof_cid: "proof".to_string(),
        permanence_guarantee_years: 30,
        leakage_assessment: Decimal { micros: 7 },
        monitoring_plan_cid: "plan".to_string(),
        baseline_ecosystem_health: Decimal { micros: 60_000_000 },
        species_count_baseline: baseline_species,
        co_benefits: vec![CoBenefit::CoastalProtection, CoBenefit::WaterQuality],
        vintage_year: 2024,
        price_per_ton: 15,
    }
}

fn register_blue(ledger: &mut Ledger, id: &str, tons: u64, baseline_species: u32) {
    let ctx = RegisterBlueProject {
        project: project_address(id),
        registry: registry_address(),
        project_owner: owner(),
    };
    let data = blue_data(id, tons, baseline_species);
    assert_eq!(program::register_blue_carbon_project(ledger, &ctx, data, 1_700_000_000), Ok(()));
}

fn verifier_ctx(authority: Address, id: &str) -> MultiPartyVerifyProject {
    MultiPartyVerifyProject {
        project: project_address(id),
        verifier: at(make_verifier_seeds(&authority)),
        verifier_authority: authority,
    }
}

fn register_verifier(ledger: &mut Ledger, authority: Address) -> Result<(), ErrorCode> {
    let ctx = RegisterVerifier {
        verifier: at(make_verifier_seeds(&authority)),
        verifier_authority: authority,
    };
    let data = VerifierData {
        verifier_type: VerifierType::CertificationBody,
        credentials: vec!["ISO 14065".to_string()],
        specializations: vec![EcosystemType::Mangrove],
    };
    program::register_verifier(ledger, &ctx, data, 1_700_000_100)
}

fn listing_data(id: &str, quantity: u64) -> MarketplaceListingData {
    MarketplaceListingData {
        project_id: id.to_string(),
        vintage_year: 2024,
        quantity_available: quantity,
        price_per_ton: 20,
        certification_standards: vec!["VCS".to_string()],
        expiry_date: 1_800_000_000,
    }
}

fn list(ledger: &mut Ledger, id: &str, quantity: u64) -> Result<(), ErrorCode> {
    let seller = owner();
    let ctx = CreateMarketplaceListing {
        listing: at(make_listing_seeds(id, &seller)),
        project: project_address(id),
        seller,
    };
    program::create_marketplace_listing(ledger, &ctx, id.to_string(), listing_data(id, quantity), 1_700_000_200)
}

fn report_data(id: &str, period_end: i64, species: u32) -> ImpactReportData {
    ImpactReportData {
        project_id: id.to_string(),
        reporting_period_start: 1_600_000_000,
        reporting_period_end: period_end,
        carbon_sequestered: Decimal { micros: 42_000_000 },
        community_benefits: Vec::new(),
        economic_impact: EconomicImpact {
            direct_revenue: 1,
            indirect_benefits: 2,
            cost_savings: 3,
            roi_percentage: Decimal { micros: 4 },
            payback_period_years: Decimal { micros: 5 },
        },
        sdg_contributions: vec![13, 14],
        verification_report_cid: "report".to_string(),
        species_count_current: species,
    }
}

fn report(ledger: &mut Ledger, id: &str, period_end: i64, species: u32) -> Result<(), ErrorCode> {
    let ctx = GenerateImpactReport {
        impact_report: at(make_impact_report_seeds(id, period_end)),
        project: project_address(id),
        report_generator: key(5),
    };
    program::generate_impact_report(ledger, &ctx, id.to_string(), period_end, report_data(id, period_end, species))
}

#[test]
fn derived_address_is_the_program_address_of_the_seeds() {
    let seeds = make_project_seeds(&owner(), "p1");
    let parts: Vec<&[u8]> = vec![b"project", &[2u8; 32], b"p1"];
    let (expected, bump) = Pubkey::find_program_address(&parts, &Pubkey::new_from_array([7u8; 32]));
    assert_eq!(
        derive_address(&seeds, &program_id()),
        Some((Address { bytes: expected.to_bytes() }, bump))
    );
    assert_ne!(expected.to_bytes(), [7u8; 32]);
}

#[test]
fn a_seed_longer_than_32_bytes_derives_no_address() {
    let id = "a-project-identifier-that-is-much-too-long-for-a-seed";
    assert_eq!(derive_address(&make_project_seeds(&owner(), id), &program_id()), None);
}

#[test]
fn registry_starts_empty() {
    let ledger = new_ledger(6);
    let registry = ledger.registry(&registry_address()).unwrap();
    assert_eq!(registry.total_projects, 0);
    assert_eq!(registry.total_credits_issued, 0);
    assert_eq!(registry.admin, admin());
    assert_eq!(registry.mint_authority, registry_address());
    assert_eq!(registry.carbon_token_mint, mint_address());
    assert_eq!(registry.decimals, 6);
    assert_eq!(registry.bump, registry.mint_authority_bump);
    assert_eq!(ledger.len(), 1);
}

#[test]
fn registry_is_initialized_once() {
    let mut ledger = new_ledger(6);
    let ctx = InitializeRegistry {
        registry: registry_address(),
        carbon_token_mint: mint_address(),
        admin: key(3),
    };
    assert_eq!(program::initialize_registry(&mut ledger, &ctx, 9), Err(ErrorCode::AlreadyInitialized));
    assert_eq!(ledger.registry(&registry_address()).unwrap().admin, admin());
    assert_eq!(ledger.len(), 1);
}

#[test]
fn registry_at_another_address_is_refused() {
    let mut ledger = Ledger::new(program_id());
    let ctx = InitializeRegistry { registry: key(4), carbon_token_mint: mint_address(), admin: admin() };
    assert_eq!(program::initialize_registry(&mut ledger, &ctx, 6), Err(ErrorCode::ConstraintSeeds));
    let ctx = InitializeRegistry { registry: registry_address(), carbon_token_mint: key(4), admin: admin() };
    assert_eq!(program::initialize_registry(&mut ledger, &ctx, 6), Err(ErrorCode::ConstraintSeeds));
    assert_eq!(ledger.len(), 0);
}

#[test]
fn registering_a_project_counts_it() {
    let mut ledger = new_ledger(6);
    assert_eq!(register(&mut ledger, "p1", 100), Ok(()));
    let project = ledger.project(&project_address("p1")).unwrap();
    assert_eq!(project.project_id, "p1");
    assert_eq!(project.ipfs_cid, "cid");
    assert_eq!(project.owner, owner());
    assert_eq!(project.carbon_tons_estimated, 100);
    assert_eq!(project.verification_status, VerificationStatus::Pending);
    assert_eq!(project.credits_issued, 0);
    assert_eq!(project.tokens_minted, 0);
    assert_eq!(ledger.registry(&registry_address()).unwrap().total_projects, 1);
}

#[test]
fn registering_the_same_project_twice_fails() {
    let mut ledger = new_ledger(6);
    assert_eq!(register(&mut ledger, "p1", 100), Ok(()));
    assert_eq!(register(&mut ledger, "p1", 200), Err(ErrorCode::AddressAlreadyInUse));
    assert_eq!(ledger.project(&project_address("p1")).unwrap().carbon_tons_estimated, 100);
    assert_eq!(ledger.registry(&registry_address()).unwrap().total_projects, 1);
    assert_eq!(register(&mut ledger, "p2", 200), Ok(()));
    assert_eq!(ledger.registry(&registry_address()).unwrap().total_projects, 2);
}

#[test]
fn registering_at_an_address_of_other_keys_fails() {
    let mut ledger = new_ledger(6);
    let ctx = RegisterProject {
        project: project_address("p2"),
        registry: registry_address(),
        project_owner: owner(),
    };
    assert_eq!(
        program::register_project(&mut ledger, &ctx, "p1".to_string(), "cid".to_string(), 1),
        Err(ErrorCode::ConstraintSeeds)
    );
}

#[test]
fn registering_without_a_registry_fails() {
    let mut ledger = Ledger::new(program_id());
    assert_eq!(register(&mut ledger, "p1", 100), Err(ErrorCode::AccountNotInitialized));
    assert_eq!(ledger.len(), 0);
}

#[test]
fn a_project_is_no_registry() {
    let mut ledger = new_ledger(6);
    assert_eq!(register(&mut ledger, "p1", 100), Ok(()));
    let ctx = RegisterProject {
        project: project_address("p2"),
        registry: project_address("p1"),
        project_owner: owner(),
    };
    assert_eq!(
        program::register_project(&mut ledger, &ctx, "p2".to_string(), "cid".to_string(), 1),
        Err(ErrorCode::AccountDiscriminatorMismatch)
    );
}

#[test]
fn verify_project_succeeds_once() {
    let mut ledger = new_ledger(6);
    assert_eq!(register(&mut ledger, "p1", 100), Ok(()));
    assert_eq!(verify(&mut ledger, "p1", 80), Ok(()));
    let project = ledger.project(&project_address("p1")).unwrap();
    assert_eq!(project.verification_status, VerificationStatus::Verified);
    assert_eq!(project.carbon_tons_estimated, 80);
    assert_eq!(verify(&mut ledger, "p1", 90), Err(ErrorCode::ProjectAlreadyProcessed));
    assert_eq!(ledger.project(&project_address("p1")).unwrap().carbon_tons_estimated, 80);
}

#[test]
fn only_the_admin_verifies() {
    let mut ledger = new_ledger(6);
    assert_eq!(register(&mut ledger, "p1", 100), Ok(()));
    let ctx = VerifyProject { project: project_address("p1"), registry: registry_address(), admin: owner() };
    assert_eq!(program::verify_project(&mut ledger, &ctx, 80), Err(ErrorCode::ConstraintHasOne));
    assert_eq!(
        ledger.project(&project_address("p1")).unwrap().verification_status,
        VerificationStatus::Pending
    );
}

#[test]
fn verifying_a_missing_project_fails() {
    let mut ledger = new_ledger(6);
    assert_eq!(verify(&mut ledger, "p1", 80), Err(ErrorCode::AccountNotInitialized));
}

#[test]
fn mint_scenario_of_a_hundred_tons() {
    let mut ledger = new_ledger(6);
    assert_eq!(register(&mut ledger, "p1", 100), Ok(()));
    assert_eq!(verify(&mut ledger, "p1", 100), Ok(()));
    let minted = mint(&mut ledger, "p1", 50_000_000).unwrap();
    let bump = ledger.registry(&registry_address()).unwrap().bump;
    match minted {
        TokenInstruction::MintTo { mint, to, authority, signer_seeds, amount } => {
            assert_eq!(mint, mint_address());
            assert_eq!(to, key(9));
            assert_eq!(authority, registry_address());
            assert_eq!(signer_seeds, vec![b"registry_v3".to_vec(), vec![bump]]);
            assert_eq!(amount, 50_000_000);
        }
        _ => panic!("not a mint"),
    }
    assert_eq!(ledger.project(&project_address("p1")).unwrap().tokens_minted, 50_000_000);
    assert_eq!(ledger.project(&project_address("p1")).unwrap().credits_issued, 50_000_000);
    assert_eq!(ledger.registry(&registry_address()).unwrap().total_credits_issued, 50_000_000);
    assert_eq!(mint(&mut ledger, "p1", 60_000_000).unwrap_err(), ErrorCode::ExceedsVerifiedCapacity);
    assert_eq!(ledger.project(&project_address("p1")).unwrap().tokens_minted, 50_000_000);
    assert_eq!(ledger.project(&project_address("p1")).unwrap().credits_issued, 50_000_000);
    assert_eq!(ledger.registry(&registry_address()).unwrap().total_credits_issued, 50_000_000);
    assert!(mint(&mut ledger, "p1", 50_000_000).is_ok());
    assert_eq!(ledger.project(&project_address("p1")).unwrap().tokens_minted, 100_000_000);
    assert_eq!(mint(&mut ledger, "p1", 1).unwrap_err(), ErrorCode::ExceedsVerifiedCapacity);
}

#[test]
fn minting_needs_a_verified_project() {
    let mut ledger = new_ledger(6);
    assert_eq!(register(&mut ledger, "p1", 100), Ok(()));
    assert_eq!(mint(&mut ledger, "p1", 1).unwrap_err(), ErrorCode::ProjectNotVerified);
}

#[test]
fn minting_is_for_the_owner() {
    let mut ledger = new_ledger(6);
    assert_eq!(register(&mut ledger, "p1", 100), Ok(()));
    assert_eq!(verify(&mut ledger, "p1", 100), Ok(()));
    let ctx = MintVerifiedCredits {
        project: project_address("p1"),
        registry: registry_address(),
        carbon_token_mint: mint_address(),
        recipient_token_account: key(9),
        owner: admin(),
        recipient: key(8),
    };
    assert_eq!(program::mint_verified_credits(&mut ledger, &ctx, 1).unwrap_err(), ErrorCode::ConstraintHasOne);
    let ctx = MintVerifiedCredits { owner: owner(), carbon_token_mint: key(4), ..ctx };
    assert_eq!(program::mint_verified_credits(&mut ledger, &ctx, 1).unwrap_err(), ErrorCode::ConstraintSeeds);
}

#[test]
fn an_amount_that_overflows_is_beyond_capacity() {
    let mut ledger = new_ledger(0);
    assert_eq!(register(&mut ledger, "p1", 100), Ok(()));
    assert_eq!(verify(&mut ledger, "p1", u64::MAX), Ok(()));
    assert!(mint(&mut ledger, "p1", 10).is_ok());
    assert_eq!(mint(&mut ledger, "p1", u64::MAX).unwrap_err(), ErrorCode::ExceedsVerifiedCapacity);
    assert_eq!(ledger.project(&project_address("p1")).unwrap().tokens_minted, 10);
}

#[test]
fn registry_total_is_the_sum_over_the_projects() {
    let mut ledger = new_ledger(2);
    for (id, tons) in [("a", 10u64), ("b", 20), ("c", 30)] {
        assert_eq!(register(&mut ledger, id, tons), Ok(()));
        assert_eq!(verify(&mut ledger, id, tons), Ok(()));
    }
    assert!(mint(&mut ledger, "a", 1_000).is_ok());
    assert!(mint(&mut ledger, "b", 500).is_ok());
    assert!(mint(&mut ledger, "c", 3_000).is_ok());
    assert!(mint(&mut ledger, "a", 1).is_err());
    let sum: u64 = ["a", "b", "c"]
        .iter()
        .map(|id| ledger.project(&project_address(id)).unwrap().credits_issued)
        .sum();
    assert_eq!(sum, 4_500);
    assert_eq!(ledger.registry(&registry_address()).unwrap().total_credits_issued, sum);
    assert_eq!(ledger.registry(&registry_address()).unwrap().total_projects, 3);
}

#[test]
fn the_older_mint_leaves_the_registry_total() {
    let mut ledger = new_ledger(6);
    assert_eq!(register(&mut ledger, "p1", 1), Ok(()));
    let ctx = MintCredits {
        mint: key(6),
        project: project_address("p1"),
        owner: owner(),
        recipient_token_account: key(9),
        mint_authority: project_address("p1"),
    };
    assert_eq!(program::mint_credits(&mut ledger, &ctx, 5).unwrap_err(), ErrorCode::ProjectNotVerified);
    assert_eq!(verify(&mut ledger, "p1", 1), Ok(()));
    let bump = ledger.project(&project_address("p1")).unwrap().bump;
    match program::mint_credits(&mut ledger, &ctx, 5_000_000).unwrap() {
        TokenInstruction::MintTo { mint, to, authority, signer_seeds, amount } => {
            assert_eq!(mint, key(6));
            assert_eq!(to, key(9));
            assert_eq!(authority, project_address("p1"));
            assert_eq!(signer_seeds, vec![b"project".to_vec(), vec![2u8; 32], b"p1".to_vec(), vec![bump]]);
            assert_eq!(amount, 5_000_000);
        }
        _ => panic!("not a mint"),
    }
    assert_eq!(ledger.project(&project_address("p1")).unwrap().credits_issued, 5_000_000);
    assert_eq!(ledger.project(&project_address("p1")).unwrap().tokens_minted, 5_000_000);
    assert_eq!(ledger.registry(&registry_address()).unwrap().total_credits_issued, 0);
    let ctx = MintCredits { mint_authority: key(3), ..ctx };
    assert_eq!(program::mint_credits(&mut ledger, &ctx, 5).unwrap_err(), ErrorCode::ConstraintSeeds);
}

#[test]
fn blue_project_starts_at_its_baselines() {
    let mut ledger = new_ledger(6);
    register_blue(&mut ledger, "blue", 500, 12);
    let project = ledger.project(&project_address("blue")).unwrap();
    assert_eq!(project.verification_status, VerificationStatus::Pending);
    assert_eq!(project.ecosystem_type, EcosystemType::Mangrove);
    assert_eq!(project.establishment_date, 1_700_000_000);
    assert_eq!(project.current_ecosystem_health, Decimal { micros: 60_000_000 });
    assert_eq!(project.species_count_current, 12);
    assert_eq!(project.quality_rating, 0);
    assert_eq!(project.available_quantity, 500);
    assert_eq!(project.price_per_ton, 15);
    assert_eq!(project.co_benefits, vec![CoBenefit::CoastalProtection, CoBenefit::WaterQuality]);
    assert_eq!(project.species_composition, vec!["Rhizophora".to_string()]);
    assert_eq!(ledger.registry(&registry_address()).unwrap().total_projects, 1);
}

#[test]
fn verifier_is_registered_once() {
    let mut ledger = new_ledger(6);
    assert_eq!(register_verifier(&mut ledger, key(11)), Ok(()));
    let verifier = ledger.verification_node(&at(make_verifier_seeds(&key(11)))).unwrap();
    assert_eq!(verifier.verifier_pubkey, key(11));
    assert_eq!(verifier.reputation_score, 100);
    assert_eq!(verifier.verification_count, 0);
    assert!(verifier.is_active);
    assert_eq!(verifier.registration_date, 1_700_000_100);
    assert_eq!(verifier.verifier_type, VerifierType::CertificationBody);
    assert_eq!(register_verifier(&mut ledger, key(11)), Err(ErrorCode::AddressAlreadyInUse));
    assert_eq!(register_verifier(&mut ledger, key(12)), Ok(()));
}

#[test]
fn quality_rating_must_lie_between_one_and_five() {
    let mut ledger = new_ledger(6);
    register_blue(&mut ledger, "blue", 500, 12);
    assert_eq!(register_verifier(&mut ledger, key(11)), Ok(()));
    let ctx = verifier_ctx(key(11), "blue");
    assert_eq!(
        program::multi_party_verify_project(&mut ledger, &ctx, 400, 0, "cid".to_string()),
        Err(ErrorCode::InvalidQualityRating)
    );
    assert_eq!(
        program::multi_party_verify_project(&mut ledger, &ctx, 400, 6, "cid".to_string()),
        Err(ErrorCode::InvalidQualityRating)
    );
    let verifier = ledger.verification_node(&ctx.verifier).unwrap();
    assert_eq!((verifier.reputation_score, verifier.verification_count), (100, 0));
    assert_eq!(
        ledger.project(&ctx.project).unwrap().verification_status,
        VerificationStatus::Pending
    );
    assert_eq!(program::multi_party_verify_project(&mut ledger, &ctx, 400, 3, "cid".to_string()), Ok(()));
    let verifier = ledger.verification_node(&ctx.verifier).unwrap();
    assert_eq!((verifier.reputation_score, verifier.verification_count), (110, 1));
    let project = ledger.project(&ctx.project).unwrap();
    assert_eq!(project.verification_status, VerificationStatus::Verified);
    assert_eq!(project.carbon_tons_estimated, 400);
    assert_eq!(project.quality_rating, 3);
    assert_eq!(project.available_quantity, 400);
    assert_eq!(
        program::multi_party_verify_project(&mut ledger, &ctx, 400, 3, "cid".to_string()),
        Err(ErrorCode::ProjectAlreadyProcessed)
    );
    assert_eq!(verify(&mut ledger, "blue", 1), Err(ErrorCode::ProjectAlreadyProcessed));
}

#[test]
fn a_verifier_acts_under_its_own_key() {
    let mut ledger = new_ledger(6);
    register_blue(&mut ledger, "blue", 500, 12);
    assert_eq!(register_verifier(&mut ledger, key(11)), Ok(()));
    let ctx = MultiPartyVerifyProject { verifier_authority: key(12), ..verifier_ctx(key(11), "blue") };
    assert_eq!(
        program::multi_party_verify_project(&mut ledger, &ctx, 400, 3, "cid".to_string()),
        Err(ErrorCode::ConstraintSeeds)
    );
    let ctx = verifier_ctx(key(12), "blue");
    assert_eq!(
        program::multi_party_verify_project(&mut ledger, &ctx, 400, 3, "cid".to_string()),
        Err(ErrorCode::AccountNotInitialized)
    );
}

#[test]
fn listing_up_to_the_available_quantity() {
    let mut ledger = new_ledger(6);
    register_blue(&mut ledger, "blue", 500, 12);
    assert_eq!(list(&mut ledger, "blue", 1), Err(ErrorCode::ProjectNotVerified));
    assert_eq!(register_verifier(&mut ledger, key(11)), Ok(()));
    let ctx = verifier_ctx(key(11), "blue");
    assert_eq!(program::multi_party_verify_project(&mut ledger, &ctx, 400, 4, "cid".to_string()), Ok(()));
    assert_eq!(list(&mut ledger, "blue", 401), Err(ErrorCode::ExceedsAvailableQuantity));
    assert_eq!(ledger.len(), 3);
    assert_eq!(list(&mut ledger, "blue", 400), Ok(()));
    let listing = ledger.listing(&at(make_listing_seeds("blue", &owner()))).unwrap();
    assert_eq!(listing.project_id, "blue");
    assert_eq!(listing.seller, owner());
    assert_eq!(listing.quantity_available, 400);
    assert_eq!(listing.price_per_ton, 20);
    assert_eq!(listing.quality_rating, 4);
    assert_eq!(listing.co_benefits, vec![CoBenefit::CoastalProtection, CoBenefit::WaterQuality]);
    assert_eq!(listing.certification_standards, vec!["VCS".to_string()]);
    assert_eq!(listing.listing_date, 1_700_000_200);
    assert_eq!(listing.expiry_date, 1_800_000_000);
    assert!(listing.is_active);
    assert_eq!(list(&mut ledger, "blue", 1), Err(ErrorCode::AddressAlreadyInUse));
    let stranger = key(13);
    let ctx = CreateMarketplaceListing {
        listing: at(make_listing_seeds("blue", &stranger)),
        project: project_address("blue"),
        seller: stranger,
    };
    assert_eq!(
        program::create_marketplace_listing(&mut ledger, &ctx, "blue".to_string(), listing_data("blue", 1), 5),
        Err(ErrorCode::ConstraintHasOne)
    );
}

#[test]
fn monitoring_sets_the_current_health() {
    let mut ledger = new_ledger(6);
    register_blue(&mut ledger, "blue", 500, 12);
    let address = at(make_monitoring_seeds("blue", 1_700_000_300));
    let ctx = SubmitMonitoringData { monitoring_data: address, project: project_address("blue"), data_provider: key(5) };
    let data = MonitoringDataInput {
        project_id: "blue".to_string(),
        satellite_imagery_cid: "image".to_string(),
        ndvi_index: Decimal { micros: 650_000 },
        water_quality: WaterQuality::default(),
        temperature_data: vec![Decimal { micros: 27_500_000 }],
        tide_data: Vec::new(),
        iot_sensor_data: Vec::new(),
        ecosystem_health_score: Decimal { micros: 75_000_000 },
    };
    assert_eq!(
        program::submit_monitoring_data(&mut ledger, &ctx, "blue".to_string(), 1_700_000_300, data.clone(), 1_700_000_301),
        Ok(())
    );
    let record = ledger.monitoring_data(&address).unwrap();
    assert_eq!(record.project_id, "blue");
    assert_eq!(record.timestamp, 1_700_000_301);
    assert_eq!(record.ecosystem_health_score, Decimal { micros: 75_000_000 });
    assert_eq!(record.temperature_data, vec![Decimal { micros: 27_500_000 }]);
    let project = ledger.project(&project_address("blue")).unwrap();
    assert_eq!(project.current_ecosystem_health, Decimal { micros: 75_000_000 });
    assert_eq!(project.baseline_ecosystem_health, Decimal { micros: 60_000_000 });
    assert_eq!(
        program::submit_monitoring_data(&mut ledger, &ctx, "blue".to_string(), 1_700_000_300, data, 1_700_000_302),
        Err(ErrorCode::AddressAlreadyInUse)
    );
}

#[test]
fn impact_report_derives_its_figures() {
    let mut ledger = new_ledger(6);
    register_blue(&mut ledger, "blue", 500, 12);
    assert_eq!(report(&mut ledger, "blue", 1_700_000_400, 15), Ok(()));
    let first = ledger.impact_report(&at(make_impact_report_seeds("blue", 1_700_000_400))).unwrap();
    assert_eq!(first.ecosystem_health_improvement, Some(Decimal { micros: 0 }));
    assert_eq!(first.biodiversity_increase, Some(PercentChange { numerator: 0, denominator: 12 }));
    assert_eq!(first.carbon_sequestered, Decimal { micros: 42_000_000 });
    assert_eq!(first.sdg_contributions, vec![13, 14]);
    assert_eq!(ledger.project(&project_address("blue")).unwrap().species_count_current, 15);
    assert_eq!(report(&mut ledger, "blue", 1_700_000_500, 9), Ok(()));
    let second = ledger.impact_report(&at(make_impact_report_seeds("blue", 1_700_000_500))).unwrap();
    assert_eq!(second.biodiversity_increase, Some(PercentChange { numerator: 300, denominator: 12 }));
    assert_eq!(report(&mut ledger, "blue", 1_700_000_600, 9), Ok(()));
    let third = ledger.impact_report(&at(make_impact_report_seeds("blue", 1_700_000_600))).unwrap();
    assert_eq!(third.biodiversity_increase, Some(PercentChange { numerator: -300, denominator: 12 }));
    assert_eq!(report(&mut ledger, "blue", 1_700_000_600, 9), Err(ErrorCode::AddressAlreadyInUse));
}

#[test]
fn impact_report_with_no_baseline_species() {
    let mut ledger = new_ledger(6);
    register_blue(&mut ledger, "bare", 500, 0);
    assert_eq!(report(&mut ledger, "bare", 1_700_000_400, 7), Ok(()));
    let made = ledger.impact_report(&at(make_impact_report_seeds("bare", 1_700_000_400))).unwrap();
    assert_eq!(made.biodiversity_increase, None);
    assert_eq!(made.ecosystem_health_improvement, Some(Decimal { micros: 0 }));
    assert_eq!(ledger.project(&project_address("bare")).unwrap().species_count_current, 7);
    assert_eq!(report(&mut ledger, "bare", 1_700_000_500, 8), Ok(()));
    let next = ledger.impact_report(&at(make_impact_report_seeds("bare", 1_700_000_500))).unwrap();
    assert_eq!(next.biodiversity_increase, None);
}

#[test]
fn a_project_record_has_its_room() {
    let mut ledger = new_ledger(6);
    let ctx = RegisterProject {
        project: project_address("p1"),
        registry: registry_address(),
        project_owner: owner(),
    };
    let too_long = "c".repeat(1123);
    assert_eq!(
        program::register_project(&mut ledger, &ctx, "p1".to_string(), too_long, 1),
        Err(ErrorCode::AccountDidNotSerialize)
    );
    assert_eq!(ledger.registry(&registry_address()).unwrap().total_projects, 0);
    assert_eq!(ledger.len(), 1);
    let just_right = "c".repeat(1122);
    assert_eq!(program::register_project(&mut ledger, &ctx, "p1".to_string(), just_right, 1), Ok(()));
    assert_eq!(ledger.registry(&registry_address()).unwrap().total_projects, 1);
}

#[test]
fn a_verifier_record_has_its_room() {
    let mut ledger = new_ledger(6);
    let ctx = RegisterVerifier { verifier: at(make_verifier_seeds(&key(11))), verifier_authority: key(11) };
    let data = VerifierData {
        verifier_type: VerifierType::LocalCommunity,
        credentials: vec!["x".repeat(929)],
        specializations: vec![EcosystemType::Seagrass, EcosystemType::SaltMarsh],
    };
    assert_eq!(
        program::register_verifier(&mut ledger, &ctx, data.clone(), 1),
        Err(ErrorCode::AccountDidNotSerialize)
    );
    assert_eq!(ledger.len(), 1);
    let data = VerifierData { credentials: vec!["x".repeat(928)], ..data };
    assert_eq!(program::register_verifier(&mut ledger, &ctx, data, 1), Ok(()));
}

#[test]
fn operations_run_one_after_the_other() {
    let mut ledger = Ledger::new(program_id());
    let ops = vec![
        Operation::InitializeRegistry {
            ctx: InitializeRegistry {
                registry: registry_address(),
                carbon_token_mint: mint_address(),
                admin: admin(),
            },
            decimals: 3,
        },
        Operation::RegisterProject {
            ctx: RegisterProject {
                project: project_address("p1"),
                registry: registry_address(),
                project_owner: owner(),
            },
            project_id: "p1".to_string(),
            ipfs_cid: "cid".to_string(),
            carbon_tons_estimated: 7,
        },
        Operation::RegisterVerifier {
            ctx: RegisterVerifier { verifier: at(make_verifier_seeds(&key(11))), verifier_authority: key(11) },
            verifier_data: VerifierData {
                verifier_type: VerifierType::TechnicalAuditor,
                credentials: Vec::new(),
                specializations: Vec::new(),
            },
            now: 1,
        },
        Operation::MultiPartyVerifyProject {
            ctx: verifier_ctx(key(11), "p1"),
            verified_carbon_tons: 5,
            quality_rating: 4,
            verification_report_cid: "cid".to_string(),
        },
    ];
    for op in ops {
        assert_eq!(execute(&mut ledger, op).map(|request| request.is_some()), Ok(false));
    }
    let mint = |amount| Operation::MintVerifiedCredits {
        ctx: MintVerifiedCredits {
            project: project_address("p1"),
            registry: registry_address(),
            carbon_token_mint: mint_address(),
            recipient_token_account: key(9),
            owner: owner(),
            recipient: key(8),
        },
        amount,
    };
    assert_eq!(execute(&mut ledger, mint(5_001)).map(|request| request.is_some()), Err(ErrorCode::ExceedsVerifiedCapacity));
    assert_eq!(execute(&mut ledger, mint(5_000)).map(|request| request.is_some()), Ok(true));
    let again = Operation::VerifyProject {
        ctx: VerifyProject { project: project_address("p1"), registry: registry_address(), admin: admin() },
        verified_carbon_tons: 9,
    };
    assert_eq!(execute(&mut ledger, again).map(|request| request.is_some()), Err(ErrorCode::ProjectAlreadyProcessed));
    assert_eq!(ledger.len(), 3);
    assert_eq!(ledger.registry(&registry_address()).unwrap().total_credits_issued, 5_000);
    assert_eq!(ledger.project(&project_address("p1")).unwrap().credits_issued, 5_000);
    assert_eq!(ledger.verification_node(&at(make_verifier_seeds(&key(11)))).unwrap().reputation_score, 110);
}
