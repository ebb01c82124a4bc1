use crate::address::derives_to;
use crate::address::Address;
use crate::instructions::contexts::CreateMarketplaceListing;
use crate::instructions::contexts::GenerateImpactReport;
use crate::instructions::contexts::InitializeRegistry;
use crate::instructions::contexts::MintCredits;
use crate::instructions::contexts::MintVerifiedCredits;
use crate::instructions::contexts::MultiPartyVerifyProject;
use crate::instructions::contexts::RegisterBlueProject;
use crate::instructions::contexts::RegisterProject;
use crate::instructions::contexts::RegisterVerifier;
use crate::instructions::contexts::SubmitMonitoringData;
use crate::instructions::contexts::VerifyProject;
use crate::instructions::mint_credits::initial_registry;
use crate::instructions::mint_credits::project_after_mint;
use crate::instructions::monitoring::new_monitoring_data;
use crate::instructions::monitoring::project_observed;
use crate::instructions::register_project::plain_project_len;
use crate::instructions::register_project::registry_with_one_more;
use crate::instructions::track_impact::new_impact_report;
use crate::instructions::track_impact::project_counted;
use crate::instructions::verify_project::new_verifier;
use crate::instructions::verify_project::project_rated;
use crate::instructions::verify_project::project_verified;
use crate::instructions::verify_project::verifier_rewarded;
use crate::layout::monitoring_len;
use crate::layout::project_len;
use crate::layout::verifier_len;
use crate::bounds::all_within_capacity;
use crate::bounds::lemma_capacity_created;
use crate::bounds::lemma_capacity_replaced_other;
use crate::bounds::lemma_capacity_replaced_project;
use crate::bounds::lemma_capacity_replaced_registry;
use crate::bounds::lemma_no_registry_no_project;
use crate::ledger::all_sound;
use crate::ledger::sound;
use crate::ledger::created;
use crate::ledger::distinct;
use crate::ledger::lemma_created_distinct;
use crate::ledger::lemma_created_sound;
use crate::ledger::lemma_replaced_account;
use crate::ledger::lemma_replaced_distinct;
use crate::ledger::lemma_replaced_sound;
use crate::ledger::load_project;
use crate::ledger::load_registry;
use crate::ledger::load_verifier;
use crate::ledger::replaced;
use crate::ledger::Account;
use crate::instructions::errors::ErrorCode;
use crate::ledger::Entry;
use crate::ledger::Ledger;
use crate::program;
use crate::token::TokenInstruction;
use crate::models::BlueProjectData;
use crate::models::ImpactReportData;
use crate::models::MarketplaceListingData;
use crate::models::MonitoringDataInput;
use crate::models::VerifierData;
use crate::program::initialize_registry_outcome;
use crate::program::register_project_outcome;
use crate::program::register_blue_carbon_project_outcome;
use crate::program::register_verifier_outcome;
use crate::program::verify_project_outcome;
use crate::program::multi_party_verify_project_outcome;
use crate::program::mint_verified_credits_outcome;
use crate::program::mint_credits_outcome;
use crate::program::submit_monitoring_data_outcome;
use crate::program::create_marketplace_listing_outcome;
use crate::program::generate_impact_report_outcome;
use crate::program::blue_project_of;
use crate::program::create_marketplace_listing_refusal;
use crate::program::generate_impact_report_refusal;
use crate::program::initialize_registry_refusal;
use crate::program::mint_credits_refusal;
use crate::program::mint_verified_credits_refusal;
use crate::program::multi_party_verify_project_refusal;
use crate::program::register_project_refusal;
use crate::program::register_verifier_refusal;
use crate::program::submit_monitoring_data_refusal;
use crate::program::verify_project_refusal;
use crate::program::with_project_registered;
use crate::seeds::project_seeds;
use crate::seeds::registry_seeds;
use crate::seeds::with_bump;
use crate::totals::credits_balanced;
use crate::totals::lemma_totals_created;
use crate::totals::lemma_totals_replaced;
use crate::totals::projects_counted;
use vstd::prelude::*;

verus! {

/// One operation on the ledger with its arguments.
#[derive(Clone, Debug)]
pub enum Operation {
    InitializeRegistry { ctx: InitializeRegistry, decimals: u8 },
    RegisterProject {
        ctx: RegisterProject,
        project_id: String,
        ipfs_cid: String,
        carbon_tons_estimated: u64,
    },
    RegisterBlueCarbonProject { ctx: RegisterBlueProject, project_data: BlueProjectData, now: i64 },
    RegisterVerifier { ctx: RegisterVerifier, verifier_data: VerifierData, now: i64 },
    VerifyProject { ctx: VerifyProject, verified_carbon_tons: u64 },
    MultiPartyVerifyProject {
        ctx: MultiPartyVerifyProject,
        verified_carbon_tons: u64,
        quality_rating: u8,
        verification_report_cid: String,
    },
    MintVerifiedCredits { ctx: MintVerifiedCredits, amount: u64 },
    /// The older way to mint.
    MintCredits { ctx: MintCredits, amount: u64 },
    SubmitMonitoringData {
        ctx: SubmitMonitoringData,
        project_id: String,
        timestamp: i64,
        monitoring_data: MonitoringDataInput,
        now: i64,
    },
    CreateMarketplaceListing {
        ctx: CreateMarketplaceListing,
        project_id: String,
        listing_data: MarketplaceListingData,
        now: i64,
    },
    GenerateImpactReport {
        ctx: GenerateImpactReport,
        project_id: String,
        reporting_period_end: i64,
        report_data: ImpactReportData,
    },
}

/// Whether `after` are the records that the operation `op` leaves of the
/// records `before`: the same where the operation is refused, and else its
/// effect.
pub open spec fn follows(
    before: Seq<Entry>,
    after: Seq<Entry>,
    program_id: Address,
    op: Operation,
) -> bool {
    match op {
        Operation::InitializeRegistry { ctx, decimals } => initialize_registry_outcome(
            before,
            after,
            program_id,
            ctx,
            decimals,
        ),
        Operation::RegisterProject { ctx, project_id, ipfs_cid, carbon_tons_estimated } => {
            register_project_outcome(
                before,
                after,
                program_id,
                ctx,
                project_id,
                ipfs_cid,
                carbon_tons_estimated,
            )
        },
        Operation::RegisterBlueCarbonProject { ctx, project_data, now } => {
            register_blue_carbon_project_outcome(before, after, program_id, ctx, project_data, now)
        },
        Operation::RegisterVerifier { ctx, verifier_data, now } => register_verifier_outcome(
            before,
            after,
            program_id,
            ctx,
            verifier_data,
            now,
        ),
        Operation::VerifyProject { ctx, verified_carbon_tons } => verify_project_outcome(
            before,
            after,
            ctx,
            verified_carbon_tons,
        ),
        Operation::MultiPartyVerifyProject {
            ctx,
            verified_carbon_tons,
            quality_rating,
            verification_report_cid,
        } => {
            multi_party_verify_project_outcome(
                before,
                after,
                program_id,
                ctx,
                verified_carbon_tons,
                quality_rating,
            )
        },
        Operation::MintVerifiedCredits { ctx, amount } => mint_verified_credits_outcome(
            before,
            after,
            ctx,
            amount,
        ),
        Operation::MintCredits { ctx, amount } => mint_credits_outcome(before, after, ctx, amount),
        Operation::SubmitMonitoringData { ctx, project_id, timestamp, monitoring_data, now } => {
            submit_monitoring_data_outcome(
                before,
                after,
                program_id,
                ctx,
                project_id,
                timestamp,
                monitoring_data,
                now,
            )
        },
        Operation::CreateMarketplaceListing { ctx, project_id, listing_data, now } => {
            create_marketplace_listing_outcome(
                before,
                after,
                program_id,
                ctx,
                project_id,
                listing_data,
                now,
            )
        },
        Operation::GenerateImpactReport { ctx, project_id, reporting_period_end, report_data } => {
            generate_impact_report_outcome(
                before,
                after,
                program_id,
                ctx,
                project_id,
                reporting_period_end,
                report_data,
            )
        },
    }
}

/// Why the operation `op` is refused on the records `before`, if it is.
pub open spec fn refusal_of(before: Seq<Entry>, program_id: Address, op: Operation) -> Option<
    crate::instructions::errors::ErrorCode,
> {
    match op {
        Operation::InitializeRegistry { ctx, decimals } => initialize_registry_refusal(
            before,
            program_id,
            ctx,
        ),
        Operation::RegisterProject { ctx, project_id, ipfs_cid, carbon_tons_estimated } => {
            register_project_refusal(
                before,
                program_id,
                ctx.project,
                ctx.registry,
                ctx.project_owner,
                project_id@,
                plain_project_len(project_id@, ipfs_cid@),
            )
        },
        Operation::RegisterBlueCarbonProject { ctx, project_data, now } => register_project_refusal(
            before,
            program_id,
            ctx.project,
            ctx.registry,
            ctx.project_owner,
            project_data.project_id@,
            project_len(blue_project_of(program_id, ctx, project_data, now)),
        ),
        Operation::RegisterVerifier { ctx, verifier_data, now } => register_verifier_refusal(
            before,
            program_id,
            ctx,
            verifier_len(new_verifier(ctx.verifier_authority, verifier_data, now)),
        ),
        Operation::VerifyProject { ctx, verified_carbon_tons } => verify_project_refusal(before, ctx),
        Operation::MultiPartyVerifyProject {
            ctx,
            verified_carbon_tons,
            quality_rating,
            verification_report_cid,
        } => {
            multi_party_verify_project_refusal(before, program_id, ctx, quality_rating)
        },
        Operation::MintVerifiedCredits { ctx, amount } => mint_verified_credits_refusal(
            before,
            ctx,
            amount,
        ),
        Operation::MintCredits { ctx, amount } => mint_credits_refusal(before, ctx, amount),
        Operation::SubmitMonitoringData { ctx, project_id, timestamp, monitoring_data, now } => {
            submit_monitoring_data_refusal(
                before,
                program_id,
                ctx,
                project_id@,
                timestamp,
                monitoring_len(new_monitoring_data(monitoring_data, now)),
            )
        },
        Operation::CreateMarketplaceListing { ctx, project_id, listing_data, now } => {
            create_marketplace_listing_refusal(before, program_id, ctx, project_id@, listing_data)
        },
        Operation::GenerateImpactReport { ctx, project_id, reporting_period_end, report_data } => {
            generate_impact_report_refusal(
                before,
                program_id,
                ctx,
                project_id@,
                reporting_period_end,
                report_data,
            )
        },
    }
}

/// The request to the token service that goes with the operation `op` on the
/// records `before`, where it is not refused: the one to mint for an
/// operation that mints, and none for any other.
pub open spec fn is_request_of(
    request: Option<TokenInstruction>,
    before: Seq<Entry>,
    op: Operation,
) -> bool {
    match op {
        Operation::MintVerifiedCredits { ctx, amount } => request is Some
            && request->Some_0.is_mint_to(
            ctx.carbon_token_mint,
            ctx.recipient_token_account,
            ctx.registry,
            with_bump(registry_seeds(), load_registry(before, ctx.registry)->Ok_0.bump),
            amount,
        ),
        Operation::MintCredits { ctx, amount } => request is Some && request->Some_0.is_mint_to(
            ctx.mint,
            ctx.recipient_token_account,
            ctx.mint_authority,
            with_bump(
                project_seeds(
                    load_project(before, ctx.project)->Ok_0.owner,
                    load_project(before, ctx.project)->Ok_0.project_id@,
                ),
                load_project(before, ctx.project)->Ok_0.bump,
            ),
            amount,
        ),
        _ => request is None,
    }
}

/// Carries out one operation on the ledger. A refused operation changes
/// nothing. An operation that mints hands back the request to the token
/// service; the host keeps the ledger's change only if that request succeeds.
pub fn execute(ledger: &mut Ledger, op: Operation) -> (r: Result<Option<TokenInstruction>, ErrorCode>)
    requires
        old(ledger).wf(),
    ensures
        final(ledger).wf(),
        final(ledger).spec_program_id() == old(ledger).spec_program_id(),
        follows(old(ledger)@, final(ledger)@, old(ledger).spec_program_id(), op),
        match refusal_of(old(ledger)@, old(ledger).spec_program_id(), op) {
            Some(e) => r == Err::<Option<TokenInstruction>, ErrorCode>(e),
            None => r is Ok && is_request_of(r->Ok_0, old(ledger)@, op),
        },
        projects_counted(old(ledger)@) ==> projects_counted(final(ledger)@),
        !(op is MintCredits) ==> (credits_balanced(old(ledger)@) ==> credits_balanced(
            final(ledger)@,
        )),
{
    match op {
        Operation::InitializeRegistry { ctx, decimals } => {
            match program::initialize_registry(ledger, &ctx, decimals) {
                Ok(()) => Ok(None),
                Err(e) => Err(e),
            }
        },
        Operation::RegisterProject { ctx, project_id, ipfs_cid, carbon_tons_estimated } => {
            match program::register_project(ledger, &ctx, project_id, ipfs_cid, carbon_tons_estimated) {
                Ok(()) => Ok(None),
                Err(e) => Err(e),
            }
        },
        Operation::RegisterBlueCarbonProject { ctx, project_data, now } => {
            match program::register_blue_carbon_project(ledger, &ctx, project_data, now) {
                Ok(()) => Ok(None),
                Err(e) => Err(e),
            }
        },
        Operation::RegisterVerifier { ctx, verifier_data, now } => {
            match program::register_verifier(ledger, &ctx, verifier_data, now) {
                Ok(()) => Ok(None),
                Err(e) => Err(e),
            }
        },
        Operation::VerifyProject { ctx, verified_carbon_tons } => {
            match program::verify_project(ledger, &ctx, verified_carbon_tons) {
                Ok(()) => Ok(None),
                Err(e) => Err(e),
            }
        },
        Operation::MultiPartyVerifyProject {
            ctx,
            verified_carbon_tons,
            quality_rating,
            verification_report_cid,
        } => {
            match program::multi_party_verify_project(
                ledger,
                &ctx,
                verified_carbon_tons,
                quality_rating,
                verification_report_cid,
            ) {
                Ok(()) => Ok(None),
                Err(e) => Err(e),
            }
        },
        Operation::MintVerifiedCredits { ctx, amount } => {
            match program::mint_verified_credits(ledger, &ctx, amount) {
                Ok(request) => Ok(Some(request)),
                Err(e) => Err(e),
            }
        },
        Operation::MintCredits { ctx, amount } => {
            match program::mint_credits(ledger, &ctx, amount) {
                Ok(request) => Ok(Some(request)),
                Err(e) => Err(e),
            }
        },
        Operation::SubmitMonitoringData { ctx, project_id, timestamp, monitoring_data, now } => {
            match program::submit_monitoring_data(
                ledger,
                &ctx,
                project_id,
                timestamp,
                monitoring_data,
                now,
            ) {
                Ok(()) => Ok(None),
                Err(e) => Err(e),
            }
        },
        Operation::CreateMarketplaceListing { ctx, project_id, listing_data, now } => {
            match program::create_marketplace_listing(ledger, &ctx, project_id, listing_data, now) {
                Ok(()) => Ok(None),
                Err(e) => Err(e),
            }
        },
        Operation::GenerateImpactReport { ctx, project_id, reporting_period_end, report_data } => {
            match program::generate_impact_report(
                ledger,
                &ctx,
                project_id,
                reporting_period_end,
                report_data,
            ) {
                Ok(()) => Ok(None),
                Err(e) => Err(e),
            }
        },
    }
}

/// Whether `states` is what a fresh ledger goes through under the operations
/// `ops`, one after the other.
pub open spec fn history(states: Seq<Seq<Entry>>, ops: Seq<Operation>, program_id: Address) -> bool {
    &&& states.len() == ops.len() + 1
    &&& states[0].len() == 0
    &&& forall|t: int|
        0 <= t < ops.len() ==> follows(states[t], states[t + 1], program_id, #[trigger] ops[t])
}

/// Whether none of the operations is the older way to mint.
pub open spec fn without_older_mint(ops: Seq<Operation>) -> bool {
    forall|t: int| 0 <= t < ops.len() ==> !((#[trigger] ops[t]) is MintCredits)
}

/// What holds of the records after a step if it held before: each record is
/// sound and lies at an address of its own, and the registry's count of
/// projects equals the number of projects.
pub open spec fn kept(before: Seq<Entry>, after: Seq<Entry>, program_id: Address) -> bool {
    &&& distinct(after)
    &&& all_sound(after, program_id)
    &&& projects_counted(before) ==> projects_counted(after)
}

/// What holds besides after a step that is not the older way to mint: the
/// registry's total of issued credits stays equal to the sum over the
/// projects, and every project's minted total stays within its verified
/// capacity.
pub open spec fn kept_balance(before: Seq<Entry>, after: Seq<Entry>) -> bool {
    &&& credits_balanced(before) ==> credits_balanced(after)
    &&& projects_counted(before) && all_within_capacity(before) ==> all_within_capacity(after)
}

/// The place of the one registry among sound records.
proof fn lemma_the_registry(entries: Seq<Entry>, program_id: Address, registry: Address, j: int)
    requires
        distinct(entries),
        all_sound(entries, program_id),
        load_registry(entries, registry) is Ok,
        0 <= j < entries.len(),
        entries[j].account is Registry,
    ensures
        j == crate::ledger::position(entries, registry),
        entries[j].account == Account::Registry(load_registry(entries, registry)->Ok_0),
{
    crate::laws::law_one_registry(entries, program_id, j, crate::ledger::position(entries, registry));
}

proof fn step_initialize_registry(
    before: Seq<Entry>,
    after: Seq<Entry>,
    program_id: Address,
    ctx: InitializeRegistry,
    decimals: u8,
)
    requires
        distinct(before),
        all_sound(before, program_id),
        initialize_registry_outcome(before, after, program_id, ctx, decimals),
    ensures
        kept(before, after, program_id),
        kept_balance(before, after),
{
    if initialize_registry_refusal(before, program_id, ctx) is None {
        let account = Account::Registry(
            initial_registry(
                ctx.admin,
                ctx.registry,
                ctx.carbon_token_mint,
                derives_to(registry_seeds(), program_id, ctx.registry)->Some_0,
                decimals,
            ),
        );
        lemma_created_distinct(before, ctx.registry, account);
        lemma_created_sound(before, program_id, ctx.registry, account);
        lemma_totals_created(before, ctx.registry, account);
        if projects_counted(before) && all_within_capacity(before) {
            assert forall|j: int| 0 <= j < before.len() implies !((#[trigger] before[j]).account
                is Registry) by {
                if before[j].account is Registry {
                    assert(sound(before[j], program_id));
                }
            }
            assert forall|i: int| 0 <= i < before.len() implies !((#[trigger] before[i]).account
                is Project) by {
                lemma_no_registry_no_project(before, i);
            }
            lemma_capacity_created(before, ctx.registry, account);
        }
    }
}

proof fn step_register_project(
    before: Seq<Entry>,
    after: Seq<Entry>,
    program_id: Address,
    ctx: RegisterProject,
    project_id: String,
    ipfs_cid: String,
    carbon_tons_estimated: u64,
)
    requires
        distinct(before),
        all_sound(before, program_id),
        register_project_outcome(
            before,
            after,
            program_id,
            ctx,
            project_id,
            ipfs_cid,
            carbon_tons_estimated,
        ),
    ensures
        kept(before, after, program_id),
        kept_balance(before, after),
{
    if register_project_refusal(
        before,
        program_id,
        ctx.project,
        ctx.registry,
        ctx.project_owner,
        project_id@,
        plain_project_len(project_id@, ipfs_cid@),
    ) is None {
        lemma_registered(before, program_id, ctx.registry, ctx.project, after.last().account);
    }
}

proof fn step_register_blue_carbon_project(
    before: Seq<Entry>,
    after: Seq<Entry>,
    program_id: Address,
    ctx: RegisterBlueProject,
    project_data: BlueProjectData,
    now: i64,
)
    requires
        distinct(before),
        all_sound(before, program_id),
        register_blue_carbon_project_outcome(before, after, program_id, ctx, project_data, now),
    ensures
        kept(before, after, program_id),
        kept_balance(before, after),
{
    let project = blue_project_of(program_id, ctx, project_data, now);
    if register_project_refusal(
        before,
        program_id,
        ctx.project,
        ctx.registry,
        ctx.project_owner,
        project_data.project_id@,
        project_len(project),
    ) is None {
        lemma_registered(before, program_id, ctx.registry, ctx.project, Account::Project(project));
    }
}

proof fn step_register_verifier(
    before: Seq<Entry>,
    after: Seq<Entry>,
    program_id: Address,
    ctx: RegisterVerifier,
    verifier_data: VerifierData,
    now: i64,
)
    requires
        distinct(before),
        all_sound(before, program_id),
        register_verifier_outcome(before, after, program_id, ctx, verifier_data, now),
    ensures
        kept(before, after, program_id),
        kept_balance(before, after),
{
    let account = Account::Verifier(new_verifier(ctx.verifier_authority, verifier_data, now));
    if register_verifier_refusal(
        before,
        program_id,
        ctx,
        verifier_len(new_verifier(ctx.verifier_authority, verifier_data, now)),
    ) is None {
        lemma_created_distinct(before, ctx.verifier, account);
        lemma_created_sound(before, program_id, ctx.verifier, account);
        lemma_totals_created(before, ctx.verifier, account);
        if all_within_capacity(before) {
            lemma_capacity_created(before, ctx.verifier, account);
        }
    }
}

proof fn step_verify_project(
    before: Seq<Entry>,
    after: Seq<Entry>,
    program_id: Address,
    ctx: VerifyProject,
    verified_carbon_tons: u64,
)
    requires
        distinct(before),
        all_sound(before, program_id),
        verify_project_outcome(before, after, ctx, verified_carbon_tons),
    ensures
        kept(before, after, program_id),
        kept_balance(before, after),
{
    if verify_project_refusal(before, ctx) is None {
        assert(sound(before[crate::ledger::position(before, ctx.project)], program_id));
        lemma_project_replaced(
            before,
            program_id,
            ctx.project,
            project_verified(load_project(before, ctx.project)->Ok_0, verified_carbon_tons),
        );
    }
}

proof fn step_multi_party_verify_project(
    before: Seq<Entry>,
    after: Seq<Entry>,
    program_id: Address,
    ctx: MultiPartyVerifyProject,
    verified_carbon_tons: u64,
    quality_rating: u8,
)
    requires
        distinct(before),
        all_sound(before, program_id),
        multi_party_verify_project_outcome(
            before,
            after,
            program_id,
            ctx,
            verified_carbon_tons,
            quality_rating,
        ),
    ensures
        kept(before, after, program_id),
        kept_balance(before, after),
{
    if multi_party_verify_project_refusal(before, program_id, ctx, quality_rating) is None {
        let rated = project_rated(
            load_project(before, ctx.project)->Ok_0,
            verified_carbon_tons,
            quality_rating,
        );
        let rewarded = Account::Verifier(verifier_rewarded(load_verifier(before, ctx.verifier)->Ok_0));
        lemma_project_replaced(before, program_id, ctx.project, rated);
        let first = replaced(before, ctx.project, Account::Project(rated));
        lemma_replaced_distinct(before, ctx.project, Account::Project(rated));
        lemma_replaced_account(before, ctx.project, Account::Project(rated));
        lemma_replaced_distinct(first, ctx.verifier, rewarded);
        lemma_replaced_sound(first, program_id, ctx.verifier, rewarded);
        lemma_totals_replaced(first, ctx.verifier, rewarded);
        if all_within_capacity(before) {
            assert(sound(
                Entry {
                    address: ctx.project,
                    account: Account::Project(load_project(before, ctx.project)->Ok_0),
                },
                program_id,
            )) by {
                assert(sound(before[crate::ledger::position(before, ctx.project)], program_id));
            }
            lemma_capacity_replaced_other(first, ctx.verifier, rewarded);
        }
    }
}

proof fn step_mint_verified_credits(
    before: Seq<Entry>,
    after: Seq<Entry>,
    program_id: Address,
    ctx: MintVerifiedCredits,
    amount: u64,
)
    requires
        distinct(before),
        all_sound(before, program_id),
        mint_verified_credits_outcome(before, after, ctx, amount),
    ensures
        kept(before, after, program_id),
        kept_balance(before, after),
{
    if mint_verified_credits_refusal(before, ctx, amount) is None {
        let minted = project_after_mint(load_project(before, ctx.project)->Ok_0, amount);
        let counted = Account::Registry(
            crate::instructions::mint_credits::registry_after_mint(
                load_registry(before, ctx.registry)->Ok_0,
                amount,
            ),
        );
        lemma_project_replaced(before, program_id, ctx.project, minted);
        let first = replaced(before, ctx.project, Account::Project(minted));
        lemma_replaced_distinct(before, ctx.project, Account::Project(minted));
        lemma_replaced_account(before, ctx.project, Account::Project(minted));
        lemma_replaced_distinct(first, ctx.registry, counted);
        lemma_replaced_sound(first, program_id, ctx.registry, counted);
        lemma_totals_replaced(first, ctx.registry, counted);
        if all_within_capacity(before) {
            assert forall|j: int|
                0 <= j < before.len() && (#[trigger] before[j]).account
                    is Registry implies minted.tokens_minted <= crate::capacity::verified_capacity(
                minted.carbon_tons_estimated,
                before[j].account->Registry_0.decimals,
            ) by {
                lemma_the_registry(before, program_id, ctx.registry, j);
            }
            lemma_capacity_replaced_project(before, ctx.project, minted);
            lemma_capacity_replaced_registry(
                first,
                ctx.registry,
                crate::instructions::mint_credits::registry_after_mint(
                    load_registry(before, ctx.registry)->Ok_0,
                    amount,
                ),
            );
        }
    }
}

proof fn step_mint_credits(
    before: Seq<Entry>,
    after: Seq<Entry>,
    program_id: Address,
    ctx: MintCredits,
    amount: u64,
)
    requires
        distinct(before),
        all_sound(before, program_id),
        mint_credits_outcome(before, after, ctx, amount),
    ensures
        kept(before, after, program_id),
{
    if mint_credits_refusal(before, ctx, amount) is None {
        lemma_project_replaced(
            before,
            program_id,
            ctx.project,
            project_after_mint(load_project(before, ctx.project)->Ok_0, amount),
        );
    }
}

proof fn step_submit_monitoring_data(
    before: Seq<Entry>,
    after: Seq<Entry>,
    program_id: Address,
    ctx: SubmitMonitoringData,
    project_id: String,
    timestamp: i64,
    monitoring_data: MonitoringDataInput,
    now: i64,
)
    requires
        distinct(before),
        all_sound(before, program_id),
        submit_monitoring_data_outcome(
            before,
            after,
            program_id,
            ctx,
            project_id,
            timestamp,
            monitoring_data,
            now,
        ),
    ensures
        kept(before, after, program_id),
        kept_balance(before, after),
{
    if submit_monitoring_data_refusal(
        before,
        program_id,
        ctx,
        project_id@,
        timestamp,
        monitoring_len(new_monitoring_data(monitoring_data, now)),
    ) is None {
        let observed = project_observed(
            load_project(before, ctx.project)->Ok_0,
            monitoring_data.ecosystem_health_score,
        );
        let account = Account::Monitoring(new_monitoring_data(monitoring_data, now));
        lemma_project_replaced(before, program_id, ctx.project, observed);
        let first = replaced(before, ctx.project, Account::Project(observed));
        lemma_created_distinct(first, ctx.monitoring_data, account);
        lemma_created_sound(first, program_id, ctx.monitoring_data, account);
        lemma_totals_created(first, ctx.monitoring_data, account);
        if all_within_capacity(before) {
            lemma_capacity_created(first, ctx.monitoring_data, account);
        }
    }
}

proof fn step_create_marketplace_listing(
    before: Seq<Entry>,
    after: Seq<Entry>,
    program_id: Address,
    ctx: CreateMarketplaceListing,
    project_id: String,
    listing_data: MarketplaceListingData,
    now: i64,
)
    requires
        distinct(before),
        all_sound(before, program_id),
        create_marketplace_listing_outcome(
            before,
            after,
            program_id,
            ctx,
            project_id,
            listing_data,
            now,
        ),
    ensures
        kept(before, after, program_id),
        kept_balance(before, after),
{
    if create_marketplace_listing_refusal(before, program_id, ctx, project_id@, listing_data)
        is None {
        let account = after.last().account;
        assert(after =~= created(before, ctx.listing, account));
        lemma_created_distinct(before, ctx.listing, account);
        lemma_created_sound(before, program_id, ctx.listing, account);
        lemma_totals_created(before, ctx.listing, account);
        if all_within_capacity(before) {
            lemma_capacity_created(before, ctx.listing, account);
        }
    }
}

proof fn step_generate_impact_report(
    before: Seq<Entry>,
    after: Seq<Entry>,
    program_id: Address,
    ctx: GenerateImpactReport,
    project_id: String,
    reporting_period_end: i64,
    report_data: ImpactReportData,
)
    requires
        distinct(before),
        all_sound(before, program_id),
        generate_impact_report_outcome(
            before,
            after,
            program_id,
            ctx,
            project_id,
            reporting_period_end,
            report_data,
        ),
    ensures
        kept(before, after, program_id),
        kept_balance(before, after),
{
    if generate_impact_report_refusal(
        before,
        program_id,
        ctx,
        project_id@,
        reporting_period_end,
        report_data,
    ) is None {
        let counted = project_counted(
            load_project(before, ctx.project)->Ok_0,
            report_data.species_count_current,
        );
        let account = Account::ImpactReport(
            new_impact_report(load_project(before, ctx.project)->Ok_0, report_data),
        );
        lemma_project_replaced(before, program_id, ctx.project, counted);
        let first = replaced(before, ctx.project, Account::Project(counted));
        lemma_created_distinct(first, ctx.impact_report, account);
        lemma_created_sound(first, program_id, ctx.impact_report, account);
        lemma_totals_created(first, ctx.impact_report, account);
        if all_within_capacity(before) {
            lemma_capacity_created(first, ctx.impact_report, account);
        }
    }
}

/// One operation keeps each record sound and at an address of its own, it
/// keeps the registry's count of projects equal to the number of projects,
/// and, unless it is the older way to mint, it keeps the registry's total of
/// issued credits equal to the sum over the projects and every project's
/// minted total within its verified capacity.
pub proof fn law_step(before: Seq<Entry>, after: Seq<Entry>, program_id: Address, op: Operation)
    requires
        distinct(before),
        all_sound(before, program_id),
        follows(before, after, program_id, op),
    ensures
        kept(before, after, program_id),
        !(op is MintCredits) ==> kept_balance(before, after),
{
    match op {
        Operation::InitializeRegistry { ctx, decimals } => {
            step_initialize_registry(before, after, program_id, ctx, decimals);
        },
        Operation::RegisterProject { ctx, project_id, ipfs_cid, carbon_tons_estimated } => {
            step_register_project(
                before,
                after,
                program_id,
                ctx,
                project_id,
                ipfs_cid,
                carbon_tons_estimated,
            );
        },
        Operation::RegisterBlueCarbonProject { ctx, project_data, now } => {
            step_register_blue_carbon_project(before, after, program_id, ctx, project_data, now);
        },
        Operation::RegisterVerifier { ctx, verifier_data, now } => {
            step_register_verifier(before, after, program_id, ctx, verifier_data, now);
        },
        Operation::VerifyProject { ctx, verified_carbon_tons } => {
            step_verify_project(before, after, program_id, ctx, verified_carbon_tons);
        },
        Operation::MultiPartyVerifyProject {
            ctx,
            verified_carbon_tons,
            quality_rating,
            verification_report_cid,
        } => {
            step_multi_party_verify_project(
                before,
                after,
                program_id,
                ctx,
                verified_carbon_tons,
                quality_rating,
            );
        },
        Operation::MintVerifiedCredits { ctx, amount } => {
            step_mint_verified_credits(before, after, program_id, ctx, amount);
        },
        Operation::MintCredits { ctx, amount } => {
            step_mint_credits(before, after, program_id, ctx, amount);
        },
        Operation::SubmitMonitoringData { ctx, project_id, timestamp, monitoring_data, now } => {
            step_submit_monitoring_data(
                before,
                after,
                program_id,
                ctx,
                project_id,
                timestamp,
                monitoring_data,
                now,
            );
        },
        Operation::CreateMarketplaceListing { ctx, project_id, listing_data, now } => {
            step_create_marketplace_listing(
                before,
                after,
                program_id,
                ctx,
                project_id,
                listing_data,
                now,
            );
        },
        Operation::GenerateImpactReport { ctx, project_id, reporting_period_end, report_data } => {
            step_generate_impact_report(
                before,
                after,
                program_id,
                ctx,
                project_id,
                reporting_period_end,
                report_data,
            );
        },
    }
}

/// What replacing a project by a changed one keeps.
proof fn lemma_project_replaced(
    before: Seq<Entry>,
    program_id: Address,
    address: Address,
    project: crate::models::Project,
)
    requires
        distinct(before),
        all_sound(before, program_id),
        load_project(before, address) is Ok,
        crate::ledger::sound(Entry { address, account: Account::Project(project) }, program_id),
    ensures
        all_within_capacity(before) && (project.tokens_minted == 0 || (project.tokens_minted
            == load_project(before, address)->Ok_0.tokens_minted && project.carbon_tons_estimated
            == load_project(before, address)->Ok_0.carbon_tons_estimated)) ==> all_within_capacity(
            replaced(before, address, Account::Project(project)),
        ),
        distinct(replaced(before, address, Account::Project(project))),
        all_sound(replaced(before, address, Account::Project(project)), program_id),
        crate::totals::plus(
            crate::totals::totals(replaced(before, address, Account::Project(project))),
            crate::totals::totals_of(Account::Project(load_project(before, address)->Ok_0)),
        ) == crate::totals::plus(
            crate::totals::totals(before),
            crate::totals::totals_of(Account::Project(project)),
        ),
{
    lemma_replaced_distinct(before, address, Account::Project(project));
    lemma_replaced_sound(before, program_id, address, Account::Project(project));
    lemma_totals_replaced(before, address, Account::Project(project));
    if all_within_capacity(before) && (project.tokens_minted == 0 || (project.tokens_minted
        == load_project(before, address)->Ok_0.tokens_minted && project.carbon_tons_estimated
        == load_project(before, address)->Ok_0.carbon_tons_estimated)) {
        let p = crate::ledger::position(before, address);
        assert forall|j: int|
            0 <= j < before.len() && (#[trigger] before[j]).account
                is Registry implies project.tokens_minted <= crate::capacity::verified_capacity(
            project.carbon_tons_estimated,
            before[j].account->Registry_0.decimals,
        ) by {
            assert(before[p].account is Project);
        }
        lemma_capacity_replaced_project(before, address, project);
    }
}

/// What registering a project keeps.
proof fn lemma_registered(
    before: Seq<Entry>,
    program_id: Address,
    registry: Address,
    project: Address,
    account: Account,
)
    requires
        distinct(before),
        all_sound(before, program_id),
        load_registry(before, registry) is Ok,
        load_registry(before, registry)->Ok_0.total_projects < u64::MAX,
        !crate::ledger::holds(before, project),
        account is Project,
        account->Project_0.credits_issued == 0,
        crate::ledger::sound(Entry { address: project, account }, program_id),
    ensures
        all_within_capacity(before) ==> all_within_capacity(
            with_project_registered(before, registry, project, account),
        ),
        distinct(with_project_registered(before, registry, project, account)),
        all_sound(with_project_registered(before, registry, project, account), program_id),
        projects_counted(before) ==> projects_counted(
            with_project_registered(before, registry, project, account),
        ),
        credits_balanced(before) ==> credits_balanced(
            with_project_registered(before, registry, project, account),
        ),
{
    let counted = Account::Registry(registry_with_one_more(load_registry(before, registry)->Ok_0));
    lemma_replaced_distinct(before, registry, counted);
    lemma_replaced_sound(before, program_id, registry, counted);
    lemma_totals_replaced(before, registry, counted);
    let middle = replaced(before, registry, counted);
    lemma_created_distinct(middle, project, account);
    lemma_created_sound(middle, program_id, project, account);
    lemma_totals_created(middle, project, account);
    if all_within_capacity(before) {
        lemma_capacity_replaced_registry(
            before,
            registry,
            registry_with_one_more(load_registry(before, registry)->Ok_0),
        );
        lemma_capacity_created(middle, project, account);
    }
}

/// At every time in the life of a ledger on which the older way to mint is
/// never used, the registry's total of issued credits equals the sum of the
/// credits issued over all projects, every project's minted total lies
/// within its verified capacity, the registry's count of projects equals the
/// number of projects, and every record is sound and lies at an address of
/// its own.
pub proof fn law_totals_at_all_times(
    states: Seq<Seq<Entry>>,
    ops: Seq<Operation>,
    program_id: Address,
    t: int,
)
    requires
        history(states, ops, program_id),
        without_older_mint(ops),
        0 <= t < states.len(),
    ensures
        credits_balanced(states[t]),
        all_within_capacity(states[t]),
        projects_counted(states[t]),
        distinct(states[t]),
        all_sound(states[t], program_id),
    decreases t,
{
    if t > 0 {
        law_totals_at_all_times(states, ops, program_id, t - 1);
        assert(follows(states[t - 1], states[t - 1 + 1], program_id, ops[t - 1]));
        law_step(states[t - 1], states[t], program_id, ops[t - 1]);
    }
}

/// With the older way to mint in use, the registry's count of projects still
/// equals the number of projects at every time, and every record is still
/// sound and lies at an address of its own.
pub proof fn law_counts_at_all_times(
    states: Seq<Seq<Entry>>,
    ops: Seq<Operation>,
    program_id: Address,
    t: int,
)
    requires
        history(states, ops, program_id),
        0 <= t < states.len(),
    ensures
        projects_counted(states[t]),
        distinct(states[t]),
        all_sound(states[t], program_id),
    decreases t,
{
    if t > 0 {
        law_counts_at_all_times(states, ops, program_id, t - 1);
        assert(follows(states[t - 1], states[t - 1 + 1], program_id, ops[t - 1]));
        law_step(states[t - 1], states[t], program_id, ops[t - 1]);
    }
}

} // verus!
