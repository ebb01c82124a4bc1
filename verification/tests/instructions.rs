use blue_carbon_registry::address::Address;
use blue_carbon_registry::auth_utils::access::has_permission;
use blue_carbon_registry::auth_utils::validation::validate_authority;
use blue_carbon_registry::instructions::errors::ErrorCode;
use blue_carbon_registry::instructions::marketplace::copy_co_benefits;
use blue_carbon_registry::instructions::marketplace::create_marketplace_listing;
use blue_carbon_registry::instructions::mint_credits::initialize_registry;
use blue_carbon_registry::instructions::mint_credits::mint_credits;
use blue_carbon_registry::instructions::mint_credits::mint_verified_credits;
use blue_carbon_registry::instructions::monitoring::submit_monitoring_data;
use blue_carbon_registry::instructions::register_project::register_project;
use blue_carbon_registry::instructions::track_impact::compute_biodiversity_increase;
use blue_carbon_registry::instructions::track_impact::compute_health_improvement;
use blue_carbon_registry::instructions::track_impact::generate_impact_report;
use blue_carbon_registry::instructions::track_impact::track_impact;
use blue_carbon_registry::instructions::track_impact::ImpactData;
use blue_carbon_registry::instructions::track_impact::TrackImpact;
use blue_carbon_registry::instructions::trade_credits::retire_credits;
use blue_carbon_registry::instructions::trade_credits::trade_credits;
use blue_carbon_registry::instructions::trade_credits::transfer_credits;
use blue_carbon_registry::instructions::verify_project::multi_party_verify_project;
use blue_carbon_registry::instructions::verify_project::register_verifier;
use blue_carbon_registry::instructions::verify_project::verify_project;
use blue_carbon_registry::layout::impact_report_fits;
use blue_carbon_registry::layout::monitoring_fits;
use blue_carbon_registry::layout::project_fits;
use blue_carbon_registry::layout::Meter;
use blue_carbon_registry::models::CoBenefit;
use blue_carbon_registry::models::CommunityBenefit;
use blue_carbon_registry::models::Decimal;
use blue_carbon_registry::models::EconomicImpact;
use blue_carbon_registry::models::EcosystemType;
use blue_carbon_registry::models::GlobalRegistry;
use blue_carbon_registry::models::ImpactReportData;
use blue_carbon_registry::models::MarketplaceListingData;
use blue_carbon_registry::models::MonitoringDataInput;
use blue_carbon_registry::models::PercentChange;
use blue_carbon_registry::models::Project;
use blue_carbon_registry::models::SensorReading;
use blue_carbon_registry::models::TideReading;
use blue_carbon_registry::models::VerificationStatus;
use blue_carbon_registry::models::VerifierData;
use blue_carbon_registry::models::VerifierType;
use blue_carbon_registry::models::WaterQuality;
use blue_carbon_registry::program;
use blue_carbon_registry::instructions::contexts::RetireCredits;
use blue_carbon_registry::instructions::contexts::TradeCredits;
use blue_carbon_registry::instructions::contexts::TransferCredits;
use blue_carbon_registry::seeds::address_seed;
use blue_carbon_registry::seeds::make_monitoring_seeds;
use blue_carbon_registry::seeds::push_bump;
use blue_carbon_registry::seeds::timestamp_seed;
use blue_carbon_registry::token::TokenInstruction;

fn key(byte: u8) -> Address {
    Address { bytes: [byte; 32] }
}

fn registry(decimals: u8) -> GlobalRegistry {
    initialize_registry(key(1), key(20), key(21), 254, decimals)
}

fn project(registry: &mut GlobalRegistry, tons: u64) -> Project {
    register_project(registry, key(2), 250, "p1".to_string(), "cid".to_string(), tons).unwrap()
}

#[test]
fn addresses_compare_by_their_bytes() {
    let mut bytes = [3u8; 32];
    assert_eq!(Address { bytes }, key(3));
    bytes[31] = 4;
    assert_ne!(Address { bytes }, key(3));
    bytes[31] = 3;
    bytes[0] = 4;
    assert_ne!(Address { bytes }, key(3));
}

#[test]
fn seeds_are_the_bytes_of_their_parts() {
    assert_eq!(address_seed(&key(5)), vec![5u8; 32]);
    assert_eq!(timestamp_seed(1), vec![1, 0, 0, 0, 0, 0, 0, 0]);
    assert_eq!(timestamp_seed(-2), vec![0xfe, 0xff, 0xff, 0xff, 0xff, 0xff, 0xff, 0xff]);
    assert_eq!(timestamp_seed(0x0102030405060708), vec![8, 7, 6, 5, 4, 3, 2, 1]);
    assert_eq!(
        make_monitoring_seeds("é", 258),
        vec![b"monitoring".to_vec(), vec![0xc3, 0xa9], vec![2, 1, 0, 0, 0, 0, 0, 0]]
    );
    assert_eq!(push_bump(vec![vec![1, 2]], 9), vec![vec![1, 2], vec![9]]);
}

#[test]
fn every_error_has_its_text() {
    assert_eq!(ErrorCode::ProjectNotVerified.message(), "Project is not verified");
    assert_eq!(ErrorCode::ExceedsVerifiedCapacity.message(), "Amount exceeds verified carbon capacity");
    assert_eq!(ErrorCode::ProjectAlreadyProcessed.message(), "Project has already been processed");
    assert_eq!(ErrorCode::VerifierNotActive.message(), "Verifier is not active");
    assert_eq!(ErrorCode::InvalidQualityRating.message(), "Invalid quality rating (must be 1-5)");
    assert_eq!(ErrorCode::ExceedsAvailableQuantity.message(), "Exceeds available quantity");
    assert_eq!(ErrorCode::InvalidEcosystemType.message(), "Invalid ecosystem type");
    assert_eq!(ErrorCode::InsufficientMonitoringData.message(), "Insufficient monitoring data");
    assert_eq!(ErrorCode::InvalidCarbonMeasurement.message(), "Invalid carbon measurement");
    assert_eq!(ErrorCode::ComplianceValidationFailed.message(), "Compliance validation failed");
    assert_eq!(ErrorCode::InsufficientCredits.message(), "Not enough credits to trade.");
    assert_eq!(ErrorCode::AddressAlreadyInUse.message(), "Address is already in use");
    assert_eq!(ErrorCode::AlreadyInitialized.message(), "Registry is already initialized");
    assert_eq!(ErrorCode::AccountNotInitialized.message(), "Account is not initialized");
    assert_eq!(ErrorCode::AccountDiscriminatorMismatch.message(), "Account is of another kind");
    assert_eq!(ErrorCode::ConstraintSeeds.message(), "Address does not match its seeds");
    assert_eq!(ErrorCode::ConstraintHasOne.message(), "Caller is not the party the record names");
    assert_eq!(ErrorCode::AccountDidNotSerialize.message(), "Record exceeds its maximum size");
    assert_eq!(ErrorCode::ArithmeticOverflow.message(), "Counter overflow");
}

#[test]
fn rooms_of_the_records() {
    assert_eq!(GlobalRegistry::LEN, 115);
    assert_eq!(Project::LEN, 1368);
}

#[test]
fn defaults_of_the_states() {
    assert_eq!(VerificationStatus::default(), VerificationStatus::Pending);
    assert_eq!(EcosystemType::default(), EcosystemType::MixedBlueCarbon);
}

#[test]
fn plain_project_is_pending_and_blank() {
    let mut registry = registry(6);
    let project = project(&mut registry, 100);
    assert_eq!(registry.total_projects, 1);
    assert_eq!(project.owner, key(2));
    assert_eq!(project.bump, 250);
    assert_eq!(project.verification_status, VerificationStatus::Pending);
    assert_eq!(project.ecosystem_type, EcosystemType::MixedBlueCarbon);
    assert_eq!((project.credits_issued, project.tokens_minted), (0, 0));
    assert_eq!(project.available_quantity, 0);
    assert!(project.species_composition.is_empty());
    assert!(project.co_benefits.is_empty());
    assert!(project.vcs_methodology.is_empty());
    assert!(project_fits(&project));
}

#[test]
fn the_count_of_projects_does_not_wrap() {
    let mut registry = registry(6);
    registry.total_projects = u64::MAX;
    let r = register_project(&mut registry, key(2), 250, "p1".to_string(), "cid".to_string(), 1);
    assert_eq!(r.unwrap_err(), ErrorCode::ArithmeticOverflow);
    assert_eq!(registry.total_projects, u64::MAX);
}

#[test]
fn verify_moves_pending_to_verified() {
    let mut registry = registry(6);
    let mut project = project(&mut registry, 100);
    assert_eq!(verify_project(&mut project, 70), Ok(()));
    assert_eq!(project.verification_status, VerificationStatus::Verified);
    assert_eq!(project.carbon_tons_estimated, 70);
    for status in [
        VerificationStatus::UnderReview,
        VerificationStatus::Verified,
        VerificationStatus::Rejected,
        VerificationStatus::Monitoring,
        VerificationStatus::Expired,
    ] {
        project.verification_status = status;
        assert_eq!(verify_project(&mut project, 1), Err(ErrorCode::ProjectAlreadyProcessed));
        assert_eq!(project.verification_status, status);
        assert_eq!(project.carbon_tons_estimated, 70);
    }
}

#[test]
fn verifier_rules_in_their_order() {
    let mut registry = registry(6);
    let mut project = project(&mut registry, 100);
    let data = VerifierData {
        verifier_type: VerifierType::ScientificInstitution,
        credentials: Vec::new(),
        specializations: Vec::new(),
    };
    let mut verifier = register_verifier(key(11), data, 5).unwrap();
    assert_eq!((verifier.reputation_score, verifier.verification_count), (100, 0));
    verifier.is_active = false;
    project.verification_status = VerificationStatus::Rejected;
    assert_eq!(
        multi_party_verify_project(&mut project, &mut verifier, 50, 0, String::new()),
        Err(ErrorCode::ProjectAlreadyProcessed)
    );
    project.verification_status = VerificationStatus::UnderReview;
    assert_eq!(
        multi_party_verify_project(&mut project, &mut verifier, 50, 0, String::new()),
        Err(ErrorCode::VerifierNotActive)
    );
    verifier.is_active = true;
    assert_eq!(
        multi_party_verify_project(&mut project, &mut verifier, 50, 0, String::new()),
        Err(ErrorCode::InvalidQualityRating)
    );
    verifier.reputation_score = u64::MAX - 9;
    assert_eq!(
        multi_party_verify_project(&mut project, &mut verifier, 50, 5, String::new()),
        Err(ErrorCode::ArithmeticOverflow)
    );
    assert_eq!(project.verification_status, VerificationStatus::UnderReview);
    assert_eq!(verifier.verification_count, 0);
    verifier.reputation_score = u64::MAX - 10;
    assert_eq!(multi_party_verify_project(&mut project, &mut verifier, 50, 5, String::new()), Ok(()));
    assert_eq!(verifier.reputation_score, u64::MAX);
    assert_eq!(verifier.verification_count, 1);
    assert_eq!(project.verification_status, VerificationStatus::Verified);
    assert_eq!((project.quality_rating, project.available_quantity, project.carbon_tons_estimated), (5, 50, 50));
}

#[test]
fn mint_within_capacity_at_each_precision() {
    for (decimals, scale) in [(0u8, 1u64), (2, 100), (6, 1_000_000), (9, 1_000_000_000)] {
        let mut registry = registry(decimals);
        let mut project = project(&mut registry, 3);
        assert_eq!(verify_project(&mut project, 3), Ok(()));
        let r = mint_verified_credits(&mut project, &mut registry, key(20), key(9), 3 * scale + 1);
        assert_eq!(r.unwrap_err(), ErrorCode::ExceedsVerifiedCapacity);
        assert_eq!((project.tokens_minted, project.credits_issued, registry.total_credits_issued), (0, 0, 0));
        assert!(mint_verified_credits(&mut project, &mut registry, key(20), key(9), 3 * scale).is_ok());
        assert_eq!(project.tokens_minted, 3 * scale);
        assert_eq!(project.credits_issued, 3 * scale);
        assert_eq!(registry.total_credits_issued, 3 * scale);
    }
}

#[test]
fn a_capacity_beyond_64_bits_is_bounded_by_the_counter() {
    let mut registry = registry(30);
    let mut project = project(&mut registry, 1);
    assert_eq!(verify_project(&mut project, 1), Ok(()));
    assert!(mint_verified_credits(&mut project, &mut registry, key(20), key(9), u64::MAX).is_ok());
    assert_eq!(project.tokens_minted, u64::MAX);
    let r = mint_verified_credits(&mut project, &mut registry, key(20), key(9), 1);
    assert_eq!(r.unwrap_err(), ErrorCode::ExceedsVerifiedCapacity);
    assert_eq!(registry.total_credits_issued, u64::MAX);
}

#[test]
fn zero_tons_allow_only_a_mint_of_nothing() {
    let mut registry = registry(6);
    let mut project = project(&mut registry, 0);
    assert_eq!(verify_project(&mut project, 0), Ok(()));
    assert!(mint_verified_credits(&mut project, &mut registry, key(20), key(9), 0).is_ok());
    let r = mint_verified_credits(&mut project, &mut registry, key(20), key(9), 1);
    assert_eq!(r.unwrap_err(), ErrorCode::ExceedsVerifiedCapacity);
}

#[test]
fn the_registry_total_does_not_wrap() {
    let mut registry = registry(6);
    let mut project = project(&mut registry, 100);
    assert_eq!(verify_project(&mut project, 100), Ok(()));
    registry.total_credits_issued = u64::MAX;
    let r = mint_verified_credits(&mut project, &mut registry, key(20), key(9), 1);
    assert_eq!(r.unwrap_err(), ErrorCode::ExceedsVerifiedCapacity);
    assert_eq!(project.tokens_minted, 0);
}

#[test]
fn the_older_mint_has_no_capacity() {
    let mut registry = registry(6);
    let mut project = project(&mut registry, 1);
    assert_eq!(verify_project(&mut project, 1), Ok(()));
    assert!(mint_credits(&mut project, key(6), key(9), key(30), 5_000_000).is_ok());
    assert_eq!((project.tokens_minted, project.credits_issued), (5_000_000, 5_000_000));
    let r = mint_credits(&mut project, key(6), key(9), key(30), u64::MAX);
    assert_eq!(r.unwrap_err(), ErrorCode::ExceedsVerifiedCapacity);
    assert_eq!(project.tokens_minted, 5_000_000);
}

#[test]
fn transfers_ask_the_token_service() {
    match transfer_credits(key(1), key(2), key(3), 40).unwrap() {
        TokenInstruction::Transfer { from, to, authority, amount } => {
            assert_eq!((from, to, authority, amount), (key(1), key(2), key(3), 40));
        }
        _ => panic!("not a transfer"),
    }
    match retire_credits(key(4), key(5), key(6), 7).unwrap() {
        TokenInstruction::Transfer { from, to, authority, amount } => {
            assert_eq!((from, to, authority, amount), (key(4), key(5), key(6), 7));
        }
        _ => panic!("not a transfer"),
    }
    let ctx = TransferCredits { from_account: key(1), to_account: key(2), from_authority: key(3) };
    match program::transfer_credits(&ctx, 41).unwrap() {
        TokenInstruction::Transfer { from, to, authority, amount } => {
            assert_eq!((from, to, authority, amount), (key(1), key(2), key(3), 41));
        }
        _ => panic!("not a transfer"),
    }
    let ctx = RetireCredits { from_account: key(4), retirement_account: key(5), from_authority: key(6) };
    match program::retire_credits(&ctx, 8).unwrap() {
        TokenInstruction::Transfer { from, to, authority, amount } => {
            assert_eq!((from, to, authority, amount), (key(4), key(5), key(6), 8));
        }
        _ => panic!("not a transfer"),
    }
}

#[test]
fn notes_always_succeed() {
    assert_eq!(trade_credits(key(1), 5), Ok(()));
    assert_eq!(program::trade_credits(&TradeCredits { authority: key(1) }, 5), Ok(()));
    let data = ImpactData { co2_absorbed: Decimal { micros: 1 }, biodiversity_index: Decimal { micros: 2 } };
    assert_eq!(track_impact(&TrackImpact { authority: key(1) }, data), Ok(()));
    assert_eq!(program::track_impact(&TrackImpact { authority: key(1) }, data), Ok(()));
    assert!(has_permission(&key(1), "admin"));
    assert_eq!(validate_authority(&key(1)), Ok(()));
}

#[test]
fn biodiversity_increase_in_percent() {
    assert_eq!(compute_biodiversity_increase(0, 0), None);
    assert_eq!(compute_biodiversity_increase(0, 5), None);
    assert_eq!(
        compute_biodiversity_increase(8, 10),
        Some(PercentChange { numerator: 200, denominator: 8 })
    );
    assert_eq!(
        compute_biodiversity_increase(10, 4),
        Some(PercentChange { numerator: -600, denominator: 10 })
    );
    assert_eq!(
        compute_biodiversity_increase(1, u32::MAX),
        Some(PercentChange { numerator: 429_496_729_400, denominator: 1 })
    );
    assert_eq!(
        compute_biodiversity_increase(u32::MAX, 0),
        Some(PercentChange { numerator: -429_496_729_500, denominator: u32::MAX })
    );
}

#[test]
fn health_improvement_is_current_less_baseline() {
    let d = |micros| Decimal { micros };
    assert_eq!(compute_health_improvement(d(60_000_000), d(75_500_000)), Some(d(15_500_000)));
    assert_eq!(compute_health_improvement(d(75_000_000), d(60_000_000)), Some(d(-15_000_000)));
    assert_eq!(compute_health_improvement(d(-1), d(i64::MAX)), None);
    assert_eq!(compute_health_improvement(d(1), d(i64::MIN)), None);
}

#[test]
fn listing_copies_the_rating_of_the_project() {
    let mut registry = registry(6);
    let mut project = project(&mut registry, 100);
    project.co_benefits = vec![CoBenefit::TourismDevelopment];
    project.quality_rating = 2;
    project.available_quantity = 10;
    let data = |quantity| MarketplaceListingData {
        project_id: "p1".to_string(),
        vintage_year: 2023,
        quantity_available: quantity,
        price_per_ton: 9,
        certification_standards: Vec::new(),
        expiry_date: 77,
    };
    assert_eq!(
        create_marketplace_listing(&project, key(2), data(1), 5).unwrap_err(),
        ErrorCode::ProjectNotVerified
    );
    project.verification_status = VerificationStatus::Verified;
    assert_eq!(
        create_marketplace_listing(&project, key(2), data(11), 5).unwrap_err(),
        ErrorCode::ExceedsAvailableQuantity
    );
    let listing = create_marketplace_listing(&project, key(2), data(10), 5).unwrap();
    assert_eq!(listing.quality_rating, 2);
    assert_eq!(listing.co_benefits, vec![CoBenefit::TourismDevelopment]);
    assert_eq!(listing.quantity_available, 10);
    assert_eq!(listing.vintage_year, 2023);
    assert_eq!(listing.listing_date, 5);
    assert_eq!(copy_co_benefits(&project.co_benefits), project.co_benefits);
    let mut wordy = data(10);
    wordy.certification_standards = vec!["s".repeat(914)];
    assert_eq!(
        create_marketplace_listing(&project, key(2), wordy, 5).unwrap_err(),
        ErrorCode::AccountDidNotSerialize
    );
    let mut wordy = data(10);
    wordy.certification_standards = vec!["s".repeat(913)];
    assert!(create_marketplace_listing(&project, key(2), wordy, 5).is_ok());
}

#[test]
fn an_observation_has_its_room() {
    let mut registry = registry(6);
    let mut project = project(&mut registry, 100);
    let data = |readings: usize| MonitoringDataInput {
        project_id: "p1".to_string(),
        satellite_imagery_cid: "img".to_string(),
        ndvi_index: Decimal { micros: 1 },
        water_quality: WaterQuality::default(),
        temperature_data: vec![Decimal { micros: 2 }; 3],
        tide_data: vec![TideReading { timestamp: 1, tide_height: Decimal { micros: 3 }, tide_type: "high".to_string() }],
        iot_sensor_data: vec![
            SensorReading {
                sensor_id: "s".to_string(),
                timestamp: 1,
                co2_flux: Decimal { micros: 1 },
                soil_moisture: Decimal { micros: 1 },
                ph_level: Decimal { micros: 1 },
                temperature: Decimal { micros: 1 },
                humidity: Decimal { micros: 1 },
            };
            readings
        ],
        ecosystem_health_score: Decimal { micros: 80_000_000 },
    };
    let record = submit_monitoring_data(&mut project, data(34), 9).unwrap();
    assert!(monitoring_fits(&record));
    assert_eq!(record.timestamp, 9);
    assert_eq!(project.current_ecosystem_health, Decimal { micros: 80_000_000 });
    project.current_ecosystem_health = Decimal { micros: 0 };
    assert_eq!(submit_monitoring_data(&mut project, data(35), 9).unwrap_err(), ErrorCode::AccountDidNotSerialize);
    assert_eq!(project.current_ecosystem_health, Decimal { micros: 0 });
}

#[test]
fn a_report_has_its_room() {
    let mut registry = registry(6);
    let mut project = project(&mut registry, 100);
    project.species_count_baseline = 4;
    project.species_count_current = 5;
    let data = |benefits: usize| ImpactReportData {
        project_id: "p1".to_string(),
        reporting_period_start: 1,
        reporting_period_end: 2,
        carbon_sequestered: Decimal { micros: 3 },
        community_benefits: vec![
            CommunityBenefit {
                benefit_type: "jobs".to_string(),
                households_affected: 1,
                jobs_created: 2,
                income_increase_percentage: Decimal { micros: 3 },
                capacity_building_programs: 4,
            };
            benefits
        ],
        economic_impact: EconomicImpact {
            direct_revenue: 1,
            indirect_benefits: 2,
            cost_savings: 3,
            roi_percentage: Decimal { micros: 4 },
            payback_period_years: Decimal { micros: 5 },
        },
        sdg_contributions: vec![13, 14],
        verification_report_cid: "cid".to_string(),
        species_count_current: 9,
    };
    assert_eq!(generate_impact_report(&mut project, data(50)).unwrap_err(), ErrorCode::AccountDidNotSerialize);
    assert_eq!(project.species_count_current, 5);
    let report = generate_impact_report(&mut project, data(49)).unwrap();
    assert!(impact_report_fits(&report));
    assert_eq!(report.biodiversity_increase, Some(PercentChange { numerator: 100, denominator: 4 }));
    assert_eq!(project.species_count_current, 9);
}

#[test]
fn the_meter_counts_against_its_room() {
    let mut meter = Meter::new(10);
    meter.add(4);
    meter.add_text("héllo");
    assert!(!meter.fits());
    let mut meter = Meter::new(20);
    meter.add_text("héllo");
    meter.add_items(2, 3);
    assert!(meter.fits());
    meter.add(1);
    assert!(!meter.fits());
    let mut meter = Meter::new(usize::MAX);
    meter.add_items(usize::MAX, 2);
    assert!(!meter.fits());
    let mut meter = Meter::new(15);
    meter.add_texts(&vec!["ab".to_string(), "c".to_string()]);
    assert!(meter.fits());
    meter.add(1);
    assert!(!meter.fits());
}
