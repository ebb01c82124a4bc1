use crate::address::bump_for;
use crate::address::derives_to;
use crate::address::Address;
use crate::instructions;
use crate::instructions::contexts::CreateMarketplaceListing;
use crate::instructions::contexts::GenerateImpactReport;
use crate::instructions::contexts::InitializeRegistry;
use crate::instructions::contexts::MintCredits;
use crate::instructions::contexts::MintVerifiedCredits;
use crate::instructions::contexts::MultiPartyVerifyProject;
use crate::instructions::contexts::RegisterBlueProject;
use crate::instructions::contexts::RegisterProject;
use crate::instructions::contexts::RegisterVerifier;
use crate::instructions::contexts::RetireCredits;
use crate::instructions::contexts::SubmitMonitoringData;
use crate::instructions::contexts::TradeCredits;
use crate::instructions::contexts::TransferCredits;
use crate::instructions::contexts::VerifyProject;
use crate::instructions::errors::ErrorCode;
use crate::instructions::marketplace::is_listing_of;
use crate::instructions::marketplace::listing_refusal;
use crate::instructions::mint_credits::initial_registry;
use crate::instructions::mint_credits::mint_legacy_refusal;
use crate::instructions::mint_credits::mint_verified_refusal;
use crate::instructions::mint_credits::project_after_mint;
use crate::instructions::mint_credits::registry_after_mint;
use crate::instructions::monitoring::new_monitoring_data;
use crate::instructions::monitoring::project_observed;
use crate::instructions::register_project::is_plain_project;
use crate::instructions::register_project::plain_project_len;
use crate::instructions::register_project::registration_refusal;
use crate::layout::impact_report_len;
use crate::layout::monitoring_len;
use crate::layout::project_len;
use crate::layout::verifier_len;
use crate::layout::IMPACT_REPORT_SPACE;
use crate::layout::MONITORING_SPACE;
use crate::layout::VERIFIER_SPACE;
use crate::instructions::register_project::new_blue_project;
use crate::instructions::register_project::registry_with_one_more;
use crate::instructions::track_impact::new_impact_report;
use crate::instructions::track_impact::project_counted;
use crate::instructions::track_impact::ImpactData;
use crate::instructions::track_impact::TrackImpact;
use crate::instructions::verify_project::multi_party_refusal;
use crate::instructions::verify_project::new_verifier;
use crate::instructions::verify_project::project_rated;
use crate::instructions::verify_project::project_verified;
use crate::instructions::verify_project::verifier_rewarded;
use crate::ledger::claim_refusal;
use crate::ledger::created;
use crate::ledger::holds;
use crate::ledger::lemma_created_distinct;
use crate::ledger::lemma_created_sound;
use crate::ledger::lemma_replaced_distinct;
use crate::ledger::lemma_replaced_account;
use crate::ledger::lemma_replaced_sound;
use crate::ledger::lemma_two_replaced;
use crate::ledger::load_project;
use crate::ledger::load_registry;
use crate::ledger::load_verifier;
use crate::ledger::replaced;
use crate::ledger::Account;
use crate::ledger::Entry;
use crate::ledger::Ledger;
use crate::models::BlueProjectData;
use crate::models::ImpactReportData;
use crate::models::MarketplaceListingData;
use crate::models::MonitoringDataInput;
use crate::models::Project;
use crate::models::VerificationStatus;
use crate::models::VerifierData;
use crate::seeds::impact_report_seeds;
use crate::seeds::listing_seeds;
use crate::seeds::make_impact_report_seeds;
use crate::seeds::make_listing_seeds;
use crate::seeds::make_mint_seeds;
use crate::seeds::make_monitoring_seeds;
use crate::seeds::make_project_seeds;
use crate::seeds::make_registry_seeds;
use crate::seeds::make_verifier_seeds;
use crate::seeds::mint_seeds;
use crate::seeds::monitoring_seeds;
use crate::seeds::project_seeds;
use crate::seeds::registry_seeds;
use crate::seeds::verifier_seeds;
use crate::seeds::with_bump;
use crate::token::TokenInstruction;
use crate::totals::credits_balanced;
use crate::totals::lemma_totals_created;
use crate::totals::lemma_totals_replaced;
use crate::totals::projects_counted;
use crate::totals::totals;
use vstd::prelude::*;

verus! {

/// The records after an operation that is refused for `refusal`, or that
/// gives `success` where it is not refused.
pub open spec fn settled(
    refusal: Option<ErrorCode>,
    before: Seq<Entry>,
    after: Seq<Entry>,
    success: Seq<Entry>,
) -> bool {
    match refusal {
        Some(_) => after == before,
        None => after == success,
    }
}

/// Why the registry cannot be set up, if it cannot. The first rule that is
/// broken decides.
pub open spec fn initialize_registry_refusal(
    entries: Seq<Entry>,
    program_id: Address,
    ctx: InitializeRegistry,
) -> Option<ErrorCode> {
    if derives_to(registry_seeds(), program_id, ctx.registry) is None {
        Some(ErrorCode::ConstraintSeeds)
    } else if holds(entries, ctx.registry) {
        Some(ErrorCode::AlreadyInitialized)
    } else if derives_to(mint_seeds(), program_id, ctx.carbon_token_mint) is None {
        Some(ErrorCode::ConstraintSeeds)
    } else {
        None
    }
}

/// What `initialize_registry` leaves of the records.
pub open spec fn initialize_registry_outcome(
    before: Seq<Entry>,
    after: Seq<Entry>,
    program_id: Address,
    ctx: InitializeRegistry,
    decimals: u8,
) -> bool {
    settled(
        initialize_registry_refusal(before, program_id, ctx),
        before,
        after,
        created(
            before,
            ctx.registry,
            Account::Registry(
                initial_registry(
                    ctx.admin,
                    ctx.registry,
                    ctx.carbon_token_mint,
                    derives_to(registry_seeds(), program_id, ctx.registry)->Some_0,
                    decimals,
                ),
            ),
        ),
    )
}

/// Sets up the registry, once: at its derived address, with `ctx.admin` in
/// charge, no project and no credit, and `decimals` decimal places to a
/// credit. A second attempt is refused with `AlreadyInitialized`.
pub fn initialize_registry(ledger: &mut Ledger, ctx: &InitializeRegistry, decimals: u8) -> (r: Result<
    (),
    ErrorCode,
>)
    requires
        old(ledger).wf(),
    ensures
        final(ledger).wf(),
        final(ledger).spec_program_id() == old(ledger).spec_program_id(),
        initialize_registry_outcome(
            old(ledger)@,
            final(ledger)@,
            old(ledger).spec_program_id(),
            *ctx,
            decimals,
        ),
        credits_balanced(old(ledger)@) ==> credits_balanced(final(ledger)@),
        projects_counted(old(ledger)@) ==> projects_counted(final(ledger)@),
        match initialize_registry_refusal(old(ledger)@, old(ledger).spec_program_id(), *ctx) {
            Some(e) => r == Err::<(), ErrorCode>(e),
            None => r is Ok,
        },
{
    let program_id = ledger.program_id();
    let bump = match bump_for(&make_registry_seeds(), &program_id, &ctx.registry) {
        Some(bump) => bump,
        None => {
            return Err(ErrorCode::ConstraintSeeds);
        },
    };
    if ledger.find(&ctx.registry).is_some() {
        return Err(ErrorCode::AlreadyInitialized);
    }
    if bump_for(&make_mint_seeds(), &program_id, &ctx.carbon_token_mint).is_none() {
        return Err(ErrorCode::ConstraintSeeds);
    }
    let registry = instructions::mint_credits::initialize_registry(
        ctx.admin,
        ctx.registry,
        ctx.carbon_token_mint,
        bump,
        decimals,
    );
    proof {
        lemma_created_distinct(ledger@, ctx.registry, Account::Registry(registry));
        lemma_created_sound(ledger@, program_id, ctx.registry, Account::Registry(registry));
        lemma_totals_created(ledger@, ctx.registry, Account::Registry(registry));
    }
    ledger.create(ctx.registry, Account::Registry(registry))
}

/// Why a project whose record takes `len` bytes cannot be registered, if it
/// cannot. The first rule that is broken decides.
pub open spec fn register_project_refusal(
    entries: Seq<Entry>,
    program_id: Address,
    project: Address,
    registry: Address,
    project_owner: Address,
    project_id: Seq<char>,
    len: nat,
) -> Option<ErrorCode> {
    if claim_refusal(entries, program_id, project_seeds(project_owner, project_id), project)
        is Some {
        claim_refusal(entries, program_id, project_seeds(project_owner, project_id), project)
    } else if load_registry(entries, registry) is Err {
        Some(load_registry(entries, registry)->Err_0)
    } else {
        registration_refusal(load_registry(entries, registry)->Ok_0, len)
    }
}

/// The records once a project was registered: the registry counts one more,
/// and the new project is the last record.
pub open spec fn with_project_registered(
    entries: Seq<Entry>,
    registry: Address,
    project: Address,
    account: Account,
) -> Seq<Entry> {
    created(
        replaced(
            entries,
            registry,
            Account::Registry(registry_with_one_more(load_registry(entries, registry)->Ok_0)),
        ),
        project,
        account,
    )
}

/// What `register_project` leaves of the records.
pub open spec fn register_project_outcome(
    before: Seq<Entry>,
    after: Seq<Entry>,
    program_id: Address,
    ctx: RegisterProject,
    project_id: String,
    ipfs_cid: String,
    carbon_tons_estimated: u64,
) -> bool {
    match register_project_refusal(
        before,
        program_id,
        ctx.project,
        ctx.registry,
        ctx.project_owner,
        project_id@,
        plain_project_len(project_id@, ipfs_cid@),
    ) {
        Some(_) => after == before,
        None => {
            &&& after.len() == before.len() + 1
            &&& after.last().account matches Account::Project(project)
            &&& is_plain_project(
                project,
                ctx.project_owner,
                derives_to(
                    project_seeds(ctx.project_owner, project_id@),
                    program_id,
                    ctx.project,
                )->Some_0,
                project_id,
                ipfs_cid,
                carbon_tons_estimated,
            )
            &&& after == with_project_registered(
                before,
                ctx.registry,
                ctx.project,
                Account::Project(project),
            )
        },
    }
}

/// Registers the project that `ctx.project_owner` names `project_id`, at the
/// address derived from the two. A second registration of the same pair is
/// refused with `AddressAlreadyInUse`. On success the project is the last
/// record, pending and with nothing issued, and the registry counts one
/// project more.
pub fn register_project(
    ledger: &mut Ledger,
    ctx: &RegisterProject,
    project_id: String,
    ipfs_cid: String,
    carbon_tons_estimated: u64,
) -> (r: Result<(), ErrorCode>)
    requires
        old(ledger).wf(),
    ensures
        final(ledger).wf(),
        final(ledger).spec_program_id() == old(ledger).spec_program_id(),
        register_project_outcome(
            old(ledger)@,
            final(ledger)@,
            old(ledger).spec_program_id(),
            *ctx,
            project_id,
            ipfs_cid,
            carbon_tons_estimated,
        ),
        credits_balanced(old(ledger)@) ==> credits_balanced(final(ledger)@),
        projects_counted(old(ledger)@) ==> projects_counted(final(ledger)@),
        match register_project_refusal(
            old(ledger)@,
            old(ledger).spec_program_id(),
            ctx.project,
            ctx.registry,
            ctx.project_owner,
            project_id@,
            plain_project_len(project_id@, ipfs_cid@),
        ) {
            Some(e) => r == Err::<(), ErrorCode>(e),
            None => r is Ok,
        },
{
    let program_id = ledger.program_id();
    let seeds = make_project_seeds(&ctx.project_owner, project_id.as_str());
    let bump = match ledger.claim(&seeds, &ctx.project) {
        Ok(bump) => bump,
        Err(e) => {
            return Err(e);
        },
    };
    let (place, mut registry) = match ledger.peek_registry(&ctx.registry) {
        Ok(found) => found,
        Err(e) => {
            return Err(e);
        },
    };
    let project = match instructions::register_project::register_project(
        &mut registry,
        ctx.project_owner,
        bump,
        project_id,
        ipfs_cid,
        carbon_tons_estimated,
    ) {
        Ok(project) => project,
        Err(e) => {
            return Err(e);
        },
    };
    proof {
        let counted = Account::Registry(registry);
        lemma_replaced_distinct(ledger@, ctx.registry, counted);
        lemma_replaced_sound(ledger@, program_id, ctx.registry, counted);
        let middle = replaced(ledger@, ctx.registry, counted);
        lemma_created_distinct(middle, ctx.project, Account::Project(project));
        lemma_created_sound(middle, program_id, ctx.project, Account::Project(project));
        lemma_totals_replaced(ledger@, ctx.registry, counted);
        lemma_totals_created(middle, ctx.project, Account::Project(project));
    }
    ledger.set(place, ctx.registry, Account::Registry(registry));
    ledger.create(ctx.project, Account::Project(project))
}

/// The project that `register_blue_carbon_project` makes.
pub open spec fn blue_project_of(
    program_id: Address,
    ctx: RegisterBlueProject,
    project_data: BlueProjectData,
    now: i64,
) -> Project {
    new_blue_project(
        ctx.project_owner,
        derives_to(
            project_seeds(ctx.project_owner, project_data.project_id@),
            program_id,
            ctx.project,
        )->Some_0,
        project_data,
        now,
    )
}

/// What `register_blue_carbon_project` leaves of the records.
pub open spec fn register_blue_carbon_project_outcome(
    before: Seq<Entry>,
    after: Seq<Entry>,
    program_id: Address,
    ctx: RegisterBlueProject,
    project_data: BlueProjectData,
    now: i64,
) -> bool {
    settled(
        register_project_refusal(
            before,
            program_id,
            ctx.project,
            ctx.registry,
            ctx.project_owner,
            project_data.project_id@,
            project_len(blue_project_of(program_id, ctx, project_data, now)),
        ),
        before,
        after,
        with_project_registered(
            before,
            ctx.registry,
            ctx.project,
            Account::Project(blue_project_of(program_id, ctx, project_data, now)),
        ),
    )
}

/// Registers a project with its ecosystem, carbon and compliance data, at the
/// address derived from its owner and its identifier. A second registration
/// of the same pair is refused with `AddressAlreadyInUse`. On success the
/// project is the last record and the registry counts one project more.
pub fn register_blue_carbon_project(
    ledger: &mut Ledger,
    ctx: &RegisterBlueProject,
    project_data: BlueProjectData,
    now: i64,
) -> (r: Result<(), ErrorCode>)
    requires
        old(ledger).wf(),
    ensures
        final(ledger).wf(),
        final(ledger).spec_program_id() == old(ledger).spec_program_id(),
        register_blue_carbon_project_outcome(
            old(ledger)@,
            final(ledger)@,
            old(ledger).spec_program_id(),
            *ctx,
            project_data,
            now,
        ),
        credits_balanced(old(ledger)@) ==> credits_balanced(final(ledger)@),
        projects_counted(old(ledger)@) ==> projects_counted(final(ledger)@),
        match register_project_refusal(
            old(ledger)@,
            old(ledger).spec_program_id(),
            ctx.project,
            ctx.registry,
            ctx.project_owner,
            project_data.project_id@,
            project_len(
                new_blue_project(
                    ctx.project_owner,
                    derives_to(
                        project_seeds(ctx.project_owner, project_data.project_id@),
                        old(ledger).spec_program_id(),
                        ctx.project,
                    )->Some_0,
                    project_data,
                    now,
                ),
            ),
        ) {
            Some(e) => r == Err::<(), ErrorCode>(e),
            None => r is Ok,
        },
{
    let program_id = ledger.program_id();
    let seeds = make_project_seeds(&ctx.project_owner, project_data.project_id.as_str());
    let bump = match ledger.claim(&seeds, &ctx.project) {
        Ok(bump) => bump,
        Err(e) => {
            return Err(e);
        },
    };
    let (place, mut registry) = match ledger.peek_registry(&ctx.registry) {
        Ok(found) => found,
        Err(e) => {
            return Err(e);
        },
    };
    let project = match instructions::register_project::register_blue_carbon_project(
        &mut registry,
        ctx.project_owner,
        bump,
        project_data,
        now,
    ) {
        Ok(project) => project,
        Err(e) => {
            return Err(e);
        },
    };
    proof {
        let counted = Account::Registry(registry);
        lemma_replaced_distinct(ledger@, ctx.registry, counted);
        lemma_replaced_sound(ledger@, program_id, ctx.registry, counted);
        let middle = replaced(ledger@, ctx.registry, counted);
        lemma_created_distinct(middle, ctx.project, Account::Project(project));
        lemma_created_sound(middle, program_id, ctx.project, Account::Project(project));
        lemma_totals_replaced(ledger@, ctx.registry, counted);
        lemma_totals_created(middle, ctx.project, Account::Project(project));
    }
    ledger.set(place, ctx.registry, Account::Registry(registry));
    ledger.create(ctx.project, Account::Project(project))
}

/// Why a verifier whose record takes `len` bytes cannot be registered, if it
/// cannot. The first rule that is broken decides.
pub open spec fn register_verifier_refusal(
    entries: Seq<Entry>,
    program_id: Address,
    ctx: RegisterVerifier,
    len: nat,
) -> Option<ErrorCode> {
    if claim_refusal(entries, program_id, verifier_seeds(ctx.verifier_authority), ctx.verifier)
        is Some {
        claim_refusal(entries, program_id, verifier_seeds(ctx.verifier_authority), ctx.verifier)
    } else if len > VERIFIER_SPACE {
        Some(ErrorCode::AccountDidNotSerialize)
    } else {
        None
    }
}

/// What `register_verifier` leaves of the records.
pub open spec fn register_verifier_outcome(
    before: Seq<Entry>,
    after: Seq<Entry>,
    program_id: Address,
    ctx: RegisterVerifier,
    verifier_data: VerifierData,
    now: i64,
) -> bool {
    settled(
        register_verifier_refusal(
            before,
            program_id,
            ctx,
            verifier_len(new_verifier(ctx.verifier_authority, verifier_data, now)),
        ),
        before,
        after,
        created(
            before,
            ctx.verifier,
            Account::Verifier(new_verifier(ctx.verifier_authority, verifier_data, now)),
        ),
    )
}

/// Registers the verifier with the key `ctx.verifier_authority`, at the
/// address derived from that key: active, with no verification yet and the
/// starting reputation. A second registration of the same key is refused with
/// `AddressAlreadyInUse`.
pub fn register_verifier(
    ledger: &mut Ledger,
    ctx: &RegisterVerifier,
    verifier_data: VerifierData,
    now: i64,
) -> (r: Result<(), ErrorCode>)
    requires
        old(ledger).wf(),
    ensures
        final(ledger).wf(),
        final(ledger).spec_program_id() == old(ledger).spec_program_id(),
        register_verifier_outcome(
            old(ledger)@,
            final(ledger)@,
            old(ledger).spec_program_id(),
            *ctx,
            verifier_data,
            now,
        ),
        credits_balanced(old(ledger)@) ==> credits_balanced(final(ledger)@),
        projects_counted(old(ledger)@) ==> projects_counted(final(ledger)@),
        match register_verifier_refusal(
            old(ledger)@,
            old(ledger).spec_program_id(),
            *ctx,
            verifier_len(new_verifier(ctx.verifier_authority, verifier_data, now)),
        ) {
            Some(e) => r == Err::<(), ErrorCode>(e),
            None => r is Ok,
        },
{
    let program_id = ledger.program_id();
    let seeds = make_verifier_seeds(&ctx.verifier_authority);
    match ledger.claim(&seeds, &ctx.verifier) {
        Ok(_) => {},
        Err(e) => {
            return Err(e);
        },
    }
    let verifier = match instructions::verify_project::register_verifier(
        ctx.verifier_authority,
        verifier_data,
        now,
    ) {
        Ok(verifier) => verifier,
        Err(e) => {
            return Err(e);
        },
    };
    proof {
        lemma_created_distinct(ledger@, ctx.verifier, Account::Verifier(verifier));
        lemma_created_sound(ledger@, program_id, ctx.verifier, Account::Verifier(verifier));
        lemma_totals_created(ledger@, ctx.verifier, Account::Verifier(verifier));
    }
    ledger.create(ctx.verifier, Account::Verifier(verifier))
}

/// Why the administrator's verification is refused, if it is. The first rule
/// that is broken decides.
pub open spec fn verify_project_refusal(entries: Seq<Entry>, ctx: VerifyProject) -> Option<ErrorCode> {
    if load_project(entries, ctx.project) is Err {
        Some(load_project(entries, ctx.project)->Err_0)
    } else if load_registry(entries, ctx.registry) is Err {
        Some(load_registry(entries, ctx.registry)->Err_0)
    } else if load_registry(entries, ctx.registry)->Ok_0.admin != ctx.admin {
        Some(ErrorCode::ConstraintHasOne)
    } else if load_project(entries, ctx.project)->Ok_0.verification_status
        != VerificationStatus::Pending {
        Some(ErrorCode::ProjectAlreadyProcessed)
    } else {
        None
    }
}

/// What `verify_project` leaves of the records.
pub open spec fn verify_project_outcome(
    before: Seq<Entry>,
    after: Seq<Entry>,
    ctx: VerifyProject,
    verified_carbon_tons: u64,
) -> bool {
    settled(
        verify_project_refusal(before, ctx),
        before,
        after,
        replaced(
            before,
            ctx.project,
            Account::Project(
                project_verified(load_project(before, ctx.project)->Ok_0, verified_carbon_tons),
            ),
        ),
    )
}

/// The registry's administrator verifies a pending project. On success the
/// project is `Verified` and holds the verified tons; no other record
/// changes. A project that was verified before is refused with
/// `ProjectAlreadyProcessed`.
pub fn verify_project(ledger: &mut Ledger, ctx: &VerifyProject, verified_carbon_tons: u64) -> (r: Result<
    (),
    ErrorCode,
>)
    requires
        old(ledger).wf(),
    ensures
        final(ledger).wf(),
        final(ledger).spec_program_id() == old(ledger).spec_program_id(),
        verify_project_outcome(old(ledger)@, final(ledger)@, *ctx, verified_carbon_tons),
        credits_balanced(old(ledger)@) ==> credits_balanced(final(ledger)@),
        projects_counted(old(ledger)@) ==> projects_counted(final(ledger)@),
        match verify_project_refusal(old(ledger)@, *ctx) {
            Some(e) => r == Err::<(), ErrorCode>(e),
            None => r is Ok,
        },
{
    let program_id = ledger.program_id();
    let place = match ledger.peek_project(&ctx.project) {
        Ok(place) => place,
        Err(e) => {
            return Err(e);
        },
    };
    let (_, registry) = match ledger.peek_registry(&ctx.registry) {
        Ok(found) => found,
        Err(e) => {
            return Err(e);
        },
    };
    if registry.admin != ctx.admin {
        return Err(ErrorCode::ConstraintHasOne);
    }
    let mut project = ledger.take_project(place);
    let outcome = instructions::verify_project::verify_project(&mut project, verified_carbon_tons);
    proof {
        lemma_replaced_distinct(old(ledger)@, ctx.project, Account::Project(project));
        lemma_replaced_sound(old(ledger)@, program_id, ctx.project, Account::Project(project));
        lemma_totals_replaced(old(ledger)@, ctx.project, Account::Project(project));
    }
    ledger.put(place, ctx.project, Account::Project(project));
    assert(ledger@ =~= replaced(old(ledger)@, ctx.project, Account::Project(project)));
    if outcome.is_err() {
        assert(ledger@ =~= old(ledger)@);
    }
    outcome
}

/// Why a verifier's verification is refused, if it is. The first rule that is
/// broken decides.
pub open spec fn multi_party_verify_project_refusal(
    entries: Seq<Entry>,
    program_id: Address,
    ctx: MultiPartyVerifyProject,
    quality_rating: u8,
) -> Option<ErrorCode> {
    if load_project(entries, ctx.project) is Err {
        Some(load_project(entries, ctx.project)->Err_0)
    } else if load_verifier(entries, ctx.verifier) is Err {
        Some(load_verifier(entries, ctx.verifier)->Err_0)
    } else if derives_to(verifier_seeds(ctx.verifier_authority), program_id, ctx.verifier) is None {
        Some(ErrorCode::ConstraintSeeds)
    } else {
        multi_party_refusal(
            load_project(entries, ctx.project)->Ok_0,
            load_verifier(entries, ctx.verifier)->Ok_0,
            quality_rating,
        )
    }
}

/// What `multi_party_verify_project` leaves of the records.
pub open spec fn multi_party_verify_project_outcome(
    before: Seq<Entry>,
    after: Seq<Entry>,
    program_id: Address,
    ctx: MultiPartyVerifyProject,
    verified_carbon_tons: u64,
    quality_rating: u8,
) -> bool {
    settled(
        multi_party_verify_project_refusal(before, program_id, ctx, quality_rating),
        before,
        after,
        replaced(
            replaced(
                before,
                ctx.project,
                Account::Project(
                    project_rated(
                        load_project(before, ctx.project)->Ok_0,
                        verified_carbon_tons,
                        quality_rating,
                    ),
                ),
            ),
            ctx.verifier,
            Account::Verifier(verifier_rewarded(load_verifier(before, ctx.verifier)->Ok_0)),
        ),
    )
}

/// The verifier whose record lies at the address derived from the key
/// `ctx.verifier_authority` verifies a project that is pending or under
/// review, with a quality rating from 1 to 5. On success the project is
/// `Verified` with the verified tons, the rating, and all its tons available;
/// the verifier has one more verification and ten more points of reputation;
/// no other record changes.
pub fn multi_party_verify_project(
    ledger: &mut Ledger,
    ctx: &MultiPartyVerifyProject,
    verified_carbon_tons: u64,
    quality_rating: u8,
    verification_report_cid: String,
) -> (r: Result<(), ErrorCode>)
    requires
        old(ledger).wf(),
    ensures
        final(ledger).wf(),
        final(ledger).spec_program_id() == old(ledger).spec_program_id(),
        multi_party_verify_project_outcome(
            old(ledger)@,
            final(ledger)@,
            old(ledger).spec_program_id(),
            *ctx,
            verified_carbon_tons,
            quality_rating,
        ),
        credits_balanced(old(ledger)@) ==> credits_balanced(final(ledger)@),
        projects_counted(old(ledger)@) ==> projects_counted(final(ledger)@),
        match multi_party_verify_project_refusal(
            old(ledger)@,
            old(ledger).spec_program_id(),
            *ctx,
            quality_rating,
        ) {
            Some(e) => r == Err::<(), ErrorCode>(e),
            None => r is Ok,
        },
{
    let program_id = ledger.program_id();
    let place = match ledger.peek_project(&ctx.project) {
        Ok(place) => place,
        Err(e) => {
            return Err(e);
        },
    };
    let seat = match ledger.peek_verifier(&ctx.verifier) {
        Ok(seat) => seat,
        Err(e) => {
            return Err(e);
        },
    };
    if bump_for(&make_verifier_seeds(&ctx.verifier_authority), &program_id, &ctx.verifier).is_none() {
        return Err(ErrorCode::ConstraintSeeds);
    }
    let ghost before = ledger@;
    let mut project = ledger.take_project(place);
    let shifted = if seat > place {
        seat - 1
    } else {
        seat
    };
    let mut verifier = ledger.take_verifier(shifted);
    let outcome = instructions::verify_project::multi_party_verify_project(
        &mut project,
        &mut verifier,
        verified_carbon_tons,
        quality_rating,
        verification_report_cid,
    );
    ledger.put(shifted, ctx.verifier, Account::Verifier(verifier));
    ledger.put(place, ctx.project, Account::Project(project));
    proof {
        let changed = Account::Project(project);
        let rewarded = Account::Verifier(verifier);
        lemma_two_replaced(
            before,
            place as int,
            seat as int,
            Entry { address: ctx.project, account: changed },
            Entry { address: ctx.verifier, account: rewarded },
        );
        let first = replaced(before, ctx.project, changed);
        lemma_replaced_distinct(before, ctx.project, changed);
        lemma_replaced_sound(before, program_id, ctx.project, changed);
        lemma_replaced_distinct(first, ctx.verifier, rewarded);
        lemma_replaced_sound(first, program_id, ctx.verifier, rewarded);
        lemma_replaced_account(before, ctx.project, changed);
        lemma_totals_replaced(before, ctx.project, changed);
        lemma_totals_replaced(first, ctx.verifier, rewarded);
        assert(ledger@ == replaced(first, ctx.verifier, rewarded));
        if outcome.is_err() {
            assert(ledger@ =~= before);
        }
    }
    outcome
}

/// Why a mint against the registry's supply is refused, if it is. The first
/// rule that is broken decides.
pub open spec fn mint_verified_credits_refusal(
    entries: Seq<Entry>,
    ctx: MintVerifiedCredits,
    amount: u64,
) -> Option<ErrorCode> {
    if load_project(entries, ctx.project) is Err {
        Some(load_project(entries, ctx.project)->Err_0)
    } else if load_project(entries, ctx.project)->Ok_0.owner != ctx.owner {
        Some(ErrorCode::ConstraintHasOne)
    } else if load_registry(entries, ctx.registry) is Err {
        Some(load_registry(entries, ctx.registry)->Err_0)
    } else if load_registry(entries, ctx.registry)->Ok_0.carbon_token_mint != ctx.carbon_token_mint {
        Some(ErrorCode::ConstraintSeeds)
    } else {
        mint_verified_refusal(
            load_project(entries, ctx.project)->Ok_0,
            load_registry(entries, ctx.registry)->Ok_0,
            amount,
        )
    }
}

/// The records once `amount` was minted for the project at `project` against
/// the supply of the registry at `registry`.
pub open spec fn with_credits_minted(
    entries: Seq<Entry>,
    project: Address,
    registry: Address,
    amount: u64,
) -> Seq<Entry> {
    replaced(
        replaced(
            entries,
            project,
            Account::Project(project_after_mint(load_project(entries, project)->Ok_0, amount)),
        ),
        registry,
        Account::Registry(registry_after_mint(load_registry(entries, registry)->Ok_0, amount)),
    )
}

/// What `mint_verified_credits` leaves of the records.
pub open spec fn mint_verified_credits_outcome(
    before: Seq<Entry>,
    after: Seq<Entry>,
    ctx: MintVerifiedCredits,
    amount: u64,
) -> bool {
    settled(
        mint_verified_credits_refusal(before, ctx, amount),
        before,
        after,
        with_credits_minted(before, ctx.project, ctx.registry, amount),
    )
}

/// The owner of a verified project mints `amount` token units for it against
/// the registry's supply. On success the project's issued and minted totals
/// and the registry's total have each grown by `amount`, the project's minted
/// total lies within its verified capacity, no other record changes, and the
/// result is the request to the token service, signed for the registry. A
/// mint that would pass the capacity is refused with
/// `ExceedsVerifiedCapacity` and changes nothing.
pub fn mint_verified_credits(ledger: &mut Ledger, ctx: &MintVerifiedCredits, amount: u64) -> (r: Result<
    TokenInstruction,
    ErrorCode,
>)
    requires
        old(ledger).wf(),
    ensures
        final(ledger).wf(),
        final(ledger).spec_program_id() == old(ledger).spec_program_id(),
        mint_verified_credits_outcome(old(ledger)@, final(ledger)@, *ctx, amount),
        credits_balanced(old(ledger)@) ==> credits_balanced(final(ledger)@),
        projects_counted(old(ledger)@) ==> projects_counted(final(ledger)@),
        match mint_verified_credits_refusal(old(ledger)@, *ctx, amount) {
            Some(e) => r == Err::<TokenInstruction, ErrorCode>(e),
            None => {
                &&& r is Ok
                &&& r->Ok_0.is_mint_to(
                    ctx.carbon_token_mint,
                    ctx.recipient_token_account,
                    ctx.registry,
                    with_bump(registry_seeds(), load_registry(old(ledger)@, ctx.registry)->Ok_0.bump),
                    amount,
                )
                &&& load_project(final(ledger)@, ctx.project)->Ok_0.tokens_minted
                    <= crate::capacity::verified_capacity(
                    load_project(final(ledger)@, ctx.project)->Ok_0.carbon_tons_estimated,
                    load_registry(final(ledger)@, ctx.registry)->Ok_0.decimals,
                )
            },
        },
{
    let program_id = ledger.program_id();
    let place = match ledger.peek_project(&ctx.project) {
        Ok(place) => place,
        Err(e) => {
            return Err(e);
        },
    };
    if ledger.project_ref(place).owner != ctx.owner {
        return Err(ErrorCode::ConstraintHasOne);
    }
    let (seat, mut registry) = match ledger.peek_registry(&ctx.registry) {
        Ok(found) => found,
        Err(e) => {
            return Err(e);
        },
    };
    if registry.carbon_token_mint != ctx.carbon_token_mint {
        return Err(ErrorCode::ConstraintSeeds);
    }
    let ghost before = ledger@;
    let mut project = ledger.take_project(place);
    let outcome = instructions::mint_credits::mint_verified_credits(
        &mut project,
        &mut registry,
        ctx.registry,
        ctx.recipient_token_account,
        amount,
    );
    ledger.put(place, ctx.project, Account::Project(project));
    ledger.set(seat, ctx.registry, Account::Registry(registry));
    proof {
        let changed = Account::Project(project);
        let counted = Account::Registry(registry);
        let first = replaced(before, ctx.project, changed);
        assert(first =~= before.remove(place as int).insert(
            place as int,
            Entry { address: ctx.project, account: changed },
        ));
        lemma_replaced_distinct(before, ctx.project, changed);
        lemma_replaced_sound(before, program_id, ctx.project, changed);
        lemma_replaced_account(before, ctx.project, changed);
        lemma_replaced_distinct(first, ctx.registry, counted);
        lemma_replaced_sound(first, program_id, ctx.registry, counted);
        lemma_replaced_account(first, ctx.registry, counted);
        lemma_totals_replaced(before, ctx.project, changed);
        lemma_totals_replaced(first, ctx.registry, counted);
        assert(ledger@ == replaced(first, ctx.registry, counted));
        if outcome.is_err() {
            assert(ledger@ =~= before);
        }
    }
    outcome
}

/// Why a mint by the older path is refused, if it is. The first rule that is
/// broken decides.
pub open spec fn mint_credits_refusal(entries: Seq<Entry>, ctx: MintCredits, amount: u64) -> Option<
    ErrorCode,
> {
    if load_project(entries, ctx.project) is Err {
        Some(load_project(entries, ctx.project)->Err_0)
    } else if load_project(entries, ctx.project)->Ok_0.owner != ctx.owner {
        Some(ErrorCode::ConstraintHasOne)
    } else if ctx.mint_authority != ctx.project {
        Some(ErrorCode::ConstraintSeeds)
    } else {
        mint_legacy_refusal(load_project(entries, ctx.project)->Ok_0, amount)
    }
}

/// What `mint_credits`, the older way to mint, leaves of the records.
pub open spec fn mint_credits_outcome(
    before: Seq<Entry>,
    after: Seq<Entry>,
    ctx: MintCredits,
    amount: u64,
) -> bool {
    settled(
        mint_credits_refusal(before, ctx, amount),
        before,
        after,
        replaced(
            before,
            ctx.project,
            Account::Project(project_after_mint(load_project(before, ctx.project)->Ok_0, amount)),
        ),
    )
}

/// The older way to mint, kept apart from `mint_verified_credits`. The owner
/// of a verified project mints `amount` units of a mint of the project's own,
/// for which the project's derived address signs. It compares nothing with
/// the verified capacity, and it changes the project alone: the registry's
/// total stays as it is, so after a success with a positive amount the
/// registry's total is smaller than the sum over the projects.
pub fn mint_credits(ledger: &mut Ledger, ctx: &MintCredits, amount: u64) -> (r: Result<
    TokenInstruction,
    ErrorCode,
>)
    requires
        old(ledger).wf(),
    ensures
        final(ledger).wf(),
        final(ledger).spec_program_id() == old(ledger).spec_program_id(),
        mint_credits_outcome(old(ledger)@, final(ledger)@, *ctx, amount),
        r is Ok ==> totals(final(ledger)@).credits_issued == totals(old(ledger)@).credits_issued
            + amount && totals(final(ledger)@).credits_recorded == totals(
            old(ledger)@,
        ).credits_recorded,
        projects_counted(old(ledger)@) ==> projects_counted(final(ledger)@),
        match mint_credits_refusal(old(ledger)@, *ctx, amount) {
            Some(e) => r == Err::<TokenInstruction, ErrorCode>(e),
            None => {
                &&& r is Ok
                &&& r->Ok_0.is_mint_to(
                    ctx.mint,
                    ctx.recipient_token_account,
                    ctx.mint_authority,
                    with_bump(
                        project_seeds(
                            load_project(old(ledger)@, ctx.project)->Ok_0.owner,
                            load_project(old(ledger)@, ctx.project)->Ok_0.project_id@,
                        ),
                        load_project(old(ledger)@, ctx.project)->Ok_0.bump,
                    ),
                    amount,
                )
            },
        },
{
    let program_id = ledger.program_id();
    let place = match ledger.peek_project(&ctx.project) {
        Ok(place) => place,
        Err(e) => {
            return Err(e);
        },
    };
    if ledger.project_ref(place).owner != ctx.owner {
        return Err(ErrorCode::ConstraintHasOne);
    }
    if ctx.mint_authority != ctx.project {
        return Err(ErrorCode::ConstraintSeeds);
    }
    let ghost before = ledger@;
    let mut project = ledger.take_project(place);
    let outcome = instructions::mint_credits::mint_credits(
        &mut project,
        ctx.mint,
        ctx.recipient_token_account,
        ctx.mint_authority,
        amount,
    );
    ledger.put(place, ctx.project, Account::Project(project));
    proof {
        let changed = Account::Project(project);
        assert(ledger@ =~= replaced(before, ctx.project, changed));
        lemma_replaced_distinct(before, ctx.project, changed);
        lemma_replaced_sound(before, program_id, ctx.project, changed);
        lemma_totals_replaced(before, ctx.project, changed);
        if outcome.is_err() {
            assert(ledger@ =~= before);
        }
    }
    outcome
}

/// Why an observation whose record takes `len` bytes cannot be recorded, if
/// it cannot. The first rule that is broken decides.
pub open spec fn submit_monitoring_data_refusal(
    entries: Seq<Entry>,
    program_id: Address,
    ctx: SubmitMonitoringData,
    project_id: Seq<char>,
    timestamp: i64,
    len: nat,
) -> Option<ErrorCode> {
    if claim_refusal(
        entries,
        program_id,
        monitoring_seeds(project_id, timestamp),
        ctx.monitoring_data,
    ) is Some {
        claim_refusal(entries, program_id, monitoring_seeds(project_id, timestamp), ctx.monitoring_data)
    } else if load_project(entries, ctx.project) is Err {
        Some(load_project(entries, ctx.project)->Err_0)
    } else if len > MONITORING_SPACE {
        Some(ErrorCode::AccountDidNotSerialize)
    } else {
        None
    }
}

/// What `submit_monitoring_data` leaves of the records.
pub open spec fn submit_monitoring_data_outcome(
    before: Seq<Entry>,
    after: Seq<Entry>,
    program_id: Address,
    ctx: SubmitMonitoringData,
    project_id: String,
    timestamp: i64,
    monitoring_data: MonitoringDataInput,
    now: i64,
) -> bool {
    settled(
        submit_monitoring_data_refusal(
            before,
            program_id,
            ctx,
            project_id@,
            timestamp,
            monitoring_len(new_monitoring_data(monitoring_data, now)),
        ),
        before,
        after,
        created(
            replaced(
                before,
                ctx.project,
                Account::Project(
                    project_observed(
                        load_project(before, ctx.project)->Ok_0,
                        monitoring_data.ecosystem_health_score,
                    ),
                ),
            ),
            ctx.monitoring_data,
            Account::Monitoring(new_monitoring_data(monitoring_data, now)),
        ),
    )
}

/// Records an observation of a project's site at the address derived from
/// `project_id` and `timestamp`, where there can be one record only. On
/// success the observation is the last record, it bears the time `now`, and
/// the project's current ecosystem health is the observed score.
pub fn submit_monitoring_data(
    ledger: &mut Ledger,
    ctx: &SubmitMonitoringData,
    project_id: String,
    timestamp: i64,
    monitoring_data: MonitoringDataInput,
    now: i64,
) -> (r: Result<(), ErrorCode>)
    requires
        old(ledger).wf(),
    ensures
        final(ledger).wf(),
        final(ledger).spec_program_id() == old(ledger).spec_program_id(),
        submit_monitoring_data_outcome(
            old(ledger)@,
            final(ledger)@,
            old(ledger).spec_program_id(),
            *ctx,
            project_id,
            timestamp,
            monitoring_data,
            now,
        ),
        credits_balanced(old(ledger)@) ==> credits_balanced(final(ledger)@),
        projects_counted(old(ledger)@) ==> projects_counted(final(ledger)@),
        match submit_monitoring_data_refusal(
            old(ledger)@,
            old(ledger).spec_program_id(),
            *ctx,
            project_id@,
            timestamp,
            monitoring_len(new_monitoring_data(monitoring_data, now)),
        ) {
            Some(e) => r == Err::<(), ErrorCode>(e),
            None => r is Ok,
        },
{
    let program_id = ledger.program_id();
    let seeds = make_monitoring_seeds(project_id.as_str(), timestamp);
    match ledger.claim(&seeds, &ctx.monitoring_data) {
        Ok(_) => {},
        Err(e) => {
            return Err(e);
        },
    }
    let place = match ledger.peek_project(&ctx.project) {
        Ok(place) => place,
        Err(e) => {
            return Err(e);
        },
    };
    let ghost before = ledger@;
    let mut project = ledger.take_project(place);
    let outcome = instructions::monitoring::submit_monitoring_data(
        &mut project,
        monitoring_data,
        now,
    );
    ledger.put(place, ctx.project, Account::Project(project));
    let monitoring = match outcome {
        Ok(monitoring) => monitoring,
        Err(e) => {
            assert(ledger@ =~= before);
            return Err(e);
        },
    };
    proof {
        let changed = Account::Project(project);
        let first = replaced(before, ctx.project, changed);
        assert(ledger@ =~= first);
        lemma_replaced_distinct(before, ctx.project, changed);
        lemma_replaced_sound(before, program_id, ctx.project, changed);
        lemma_created_distinct(first, ctx.monitoring_data, Account::Monitoring(monitoring));
        lemma_created_sound(first, program_id, ctx.monitoring_data, Account::Monitoring(monitoring));
        lemma_totals_replaced(before, ctx.project, changed);
        lemma_totals_created(first, ctx.monitoring_data, Account::Monitoring(monitoring));
    }
    ledger.create(ctx.monitoring_data, Account::Monitoring(monitoring))
}

/// Why an offer cannot be made, if it cannot. The first rule that is broken
/// decides.
pub open spec fn create_marketplace_listing_refusal(
    entries: Seq<Entry>,
    program_id: Address,
    ctx: CreateMarketplaceListing,
    project_id: Seq<char>,
    listing_data: MarketplaceListingData,
) -> Option<ErrorCode> {
    if claim_refusal(entries, program_id, listing_seeds(project_id, ctx.seller), ctx.listing)
        is Some {
        claim_refusal(entries, program_id, listing_seeds(project_id, ctx.seller), ctx.listing)
    } else if load_project(entries, ctx.project) is Err {
        Some(load_project(entries, ctx.project)->Err_0)
    } else if load_project(entries, ctx.project)->Ok_0.owner != ctx.seller {
        Some(ErrorCode::ConstraintHasOne)
    } else {
        listing_refusal(load_project(entries, ctx.project)->Ok_0, listing_data)
    }
}

/// What `create_marketplace_listing` leaves of the records.
pub open spec fn create_marketplace_listing_outcome(
    before: Seq<Entry>,
    after: Seq<Entry>,
    program_id: Address,
    ctx: CreateMarketplaceListing,
    project_id: String,
    listing_data: MarketplaceListingData,
    now: i64,
) -> bool {
    match create_marketplace_listing_refusal(before, program_id, ctx, project_id@, listing_data) {
        Some(_) => after == before,
        None => {
            &&& after.len() == before.len() + 1
            &&& after.drop_last() == before
            &&& after.last().address == ctx.listing
            &&& after.last().account matches Account::Listing(listing)
            &&& is_listing_of(
                listing,
                load_project(before, ctx.project)->Ok_0,
                ctx.seller,
                listing_data,
                now,
            )
        },
    }
}

/// The owner of a verified project makes an offer of its credits at the
/// address derived from `project_id` and the seller, for no more than the
/// project has available. On success the offer is the last record and no
/// other record changes; the offer takes its rating and its co-benefits from
/// the project.
pub fn create_marketplace_listing(
    ledger: &mut Ledger,
    ctx: &CreateMarketplaceListing,
    project_id: String,
    listing_data: MarketplaceListingData,
    now: i64,
) -> (r: Result<(), ErrorCode>)
    requires
        old(ledger).wf(),
    ensures
        final(ledger).wf(),
        final(ledger).spec_program_id() == old(ledger).spec_program_id(),
        create_marketplace_listing_outcome(
            old(ledger)@,
            final(ledger)@,
            old(ledger).spec_program_id(),
            *ctx,
            project_id,
            listing_data,
            now,
        ),
        credits_balanced(old(ledger)@) ==> credits_balanced(final(ledger)@),
        projects_counted(old(ledger)@) ==> projects_counted(final(ledger)@),
        match create_marketplace_listing_refusal(
            old(ledger)@,
            old(ledger).spec_program_id(),
            *ctx,
            project_id@,
            listing_data,
        ) {
            Some(e) => r == Err::<(), ErrorCode>(e),
            None => r is Ok,
        },
{
    let program_id = ledger.program_id();
    let seeds = make_listing_seeds(project_id.as_str(), &ctx.seller);
    match ledger.claim(&seeds, &ctx.listing) {
        Ok(_) => {},
        Err(e) => {
            return Err(e);
        },
    }
    let place = match ledger.peek_project(&ctx.project) {
        Ok(place) => place,
        Err(e) => {
            return Err(e);
        },
    };
    if ledger.project_ref(place).owner != ctx.seller {
        return Err(ErrorCode::ConstraintHasOne);
    }
    let listing = match instructions::marketplace::create_marketplace_listing(
        ledger.project_ref(place),
        ctx.seller,
        listing_data,
        now,
    ) {
        Ok(listing) => listing,
        Err(e) => {
            return Err(e);
        },
    };
    proof {
        lemma_created_distinct(ledger@, ctx.listing, Account::Listing(listing));
        lemma_created_sound(ledger@, program_id, ctx.listing, Account::Listing(listing));
        lemma_totals_created(ledger@, ctx.listing, Account::Listing(listing));
        assert(created(ledger@, ctx.listing, Account::Listing(listing)).drop_last() =~= ledger@);
    }
    ledger.create(ctx.listing, Account::Listing(listing))
}

/// Why a report cannot be made, if it cannot. The first rule that is broken
/// decides.
pub open spec fn generate_impact_report_refusal(
    entries: Seq<Entry>,
    program_id: Address,
    ctx: GenerateImpactReport,
    project_id: Seq<char>,
    reporting_period_end: i64,
    report_data: ImpactReportData,
) -> Option<ErrorCode> {
    if claim_refusal(
        entries,
        program_id,
        impact_report_seeds(project_id, reporting_period_end),
        ctx.impact_report,
    ) is Some {
        claim_refusal(
            entries,
            program_id,
            impact_report_seeds(project_id, reporting_period_end),
            ctx.impact_report,
        )
    } else if load_project(entries, ctx.project) is Err {
        Some(load_project(entries, ctx.project)->Err_0)
    } else if impact_report_len(
        new_impact_report(load_project(entries, ctx.project)->Ok_0, report_data),
    ) > IMPACT_REPORT_SPACE {
        Some(ErrorCode::AccountDidNotSerialize)
    } else {
        None
    }
}

/// What `generate_impact_report` leaves of the records.
pub open spec fn generate_impact_report_outcome(
    before: Seq<Entry>,
    after: Seq<Entry>,
    program_id: Address,
    ctx: GenerateImpactReport,
    project_id: String,
    reporting_period_end: i64,
    report_data: ImpactReportData,
) -> bool {
    settled(
        generate_impact_report_refusal(
            before,
            program_id,
            ctx,
            project_id@,
            reporting_period_end,
            report_data,
        ),
        before,
        after,
        created(
            replaced(
                before,
                ctx.project,
                Account::Project(
                    project_counted(
                        load_project(before, ctx.project)->Ok_0,
                        report_data.species_count_current,
                    ),
                ),
            ),
            ctx.impact_report,
            Account::ImpactReport(
                new_impact_report(load_project(before, ctx.project)->Ok_0, report_data),
            ),
        ),
    )
}

/// Makes the report on a project for a period at the address derived from
/// `project_id` and the end of the period, where there can be one record
/// only. On success the report is the last record; its two derived figures
/// come from the project as it stood before, and the biodiversity increase is
/// left out where the project's baseline species count is zero. The
/// project's current species count is then the one that the report states.
pub fn generate_impact_report(
    ledger: &mut Ledger,
    ctx: &GenerateImpactReport,
    project_id: String,
    reporting_period_end: i64,
    report_data: ImpactReportData,
) -> (r: Result<(), ErrorCode>)
    requires
        old(ledger).wf(),
    ensures
        final(ledger).wf(),
        final(ledger).spec_program_id() == old(ledger).spec_program_id(),
        generate_impact_report_outcome(
            old(ledger)@,
            final(ledger)@,
            old(ledger).spec_program_id(),
            *ctx,
            project_id,
            reporting_period_end,
            report_data,
        ),
        credits_balanced(old(ledger)@) ==> credits_balanced(final(ledger)@),
        projects_counted(old(ledger)@) ==> projects_counted(final(ledger)@),
        match generate_impact_report_refusal(
            old(ledger)@,
            old(ledger).spec_program_id(),
            *ctx,
            project_id@,
            reporting_period_end,
            report_data,
        ) {
            Some(e) => r == Err::<(), ErrorCode>(e),
            None => r is Ok,
        },
{
    let program_id = ledger.program_id();
    let seeds = make_impact_report_seeds(project_id.as_str(), reporting_period_end);
    match ledger.claim(&seeds, &ctx.impact_report) {
        Ok(_) => {},
        Err(e) => {
            return Err(e);
        },
    }
    let place = match ledger.peek_project(&ctx.project) {
        Ok(place) => place,
        Err(e) => {
            return Err(e);
        },
    };
    let ghost before = ledger@;
    let mut project = ledger.take_project(place);
    let outcome = instructions::track_impact::generate_impact_report(&mut project, report_data);
    ledger.put(place, ctx.project, Account::Project(project));
    let report = match outcome {
        Ok(report) => report,
        Err(e) => {
            assert(ledger@ =~= before);
            return Err(e);
        },
    };
    proof {
        let changed = Account::Project(project);
        let first = replaced(before, ctx.project, changed);
        assert(ledger@ =~= first);
        lemma_replaced_distinct(before, ctx.project, changed);
        lemma_replaced_sound(before, program_id, ctx.project, changed);
        lemma_created_distinct(first, ctx.impact_report, Account::ImpactReport(report));
        lemma_created_sound(first, program_id, ctx.impact_report, Account::ImpactReport(report));
        lemma_totals_replaced(before, ctx.project, changed);
        lemma_totals_created(first, ctx.impact_report, Account::ImpactReport(report));
    }
    ledger.create(ctx.impact_report, Account::ImpactReport(report))
}

/// The request to the token service that moves `amount` credits between the
/// accounts that `ctx` names.
pub fn transfer_credits(ctx: &TransferCredits, amount: u64) -> (r: Result<TokenInstruction, ErrorCode>)
    ensures
        r is Ok,
        r->Ok_0.is_transfer(ctx.from_account, ctx.to_account, ctx.from_authority, amount),
{
    instructions::trade_credits::transfer_credits(
        ctx.from_account,
        ctx.to_account,
        ctx.from_authority,
        amount,
    )
}

/// The request to the token service that retires `amount` credits: it moves
/// them to the retirement account that `ctx` names.
pub fn retire_credits(ctx: &RetireCredits, amount: u64) -> (r: Result<TokenInstruction, ErrorCode>)
    ensures
        r is Ok,
        r->Ok_0.is_transfer(ctx.from_account, ctx.retirement_account, ctx.from_authority, amount),
{
    instructions::trade_credits::retire_credits(
        ctx.from_account,
        ctx.retirement_account,
        ctx.from_authority,
        amount,
    )
}

/// Takes note of a trade. It moves nothing and always succeeds.
pub fn trade_credits(ctx: &TradeCredits, amount: u64) -> (r: Result<(), ErrorCode>)
    ensures
        r is Ok,
{
    instructions::trade_credits::trade_credits(ctx.authority, amount)
}

/// Takes note of impact figures in the older form. It keeps nothing and
/// always succeeds.
pub fn track_impact(ctx: &TrackImpact, data: ImpactData) -> (r: Result<(), ErrorCode>)
    ensures
        r is Ok,
{
    instructions::track_impact::track_impact(ctx, data)
}

} // verus!
