use crate::address::Address;
use crate::instructions::contexts::InitializeRegistry;
use crate::instructions::contexts::MultiPartyVerifyProject;
use crate::instructions::contexts::VerifyProject;
use crate::instructions::errors::ErrorCode;
use crate::instructions::mint_credits::mint_verified_refusal;
use crate::instructions::mint_credits::project_after_mint;
use crate::instructions::verify_project::multi_party_refusal;
use crate::instructions::verify_project::project_rated;
use crate::instructions::verify_project::project_verified;
use crate::instructions::verify_project::verifier_rewarded;
use crate::instructions::verify_project::VERIFICATION_REWARD;
use crate::ledger::all_sound;
use crate::ledger::created;
use crate::ledger::distinct;
use crate::ledger::lemma_created_distinct;
use crate::ledger::lemma_replaced_account;
use crate::ledger::lemma_replaced_distinct;
use crate::ledger::load_project;
use crate::ledger::load_registry;
use crate::ledger::replaced;
use crate::ledger::Account;
use crate::ledger::Entry;
use crate::models::GlobalRegistry;
use crate::models::Project;
use crate::models::VerificationNode;
use crate::models::VerificationStatus;
use crate::program::initialize_registry_refusal;
use crate::program::multi_party_verify_project_refusal;
use crate::instructions::contexts::RegisterVerifier;
use crate::program::register_project_refusal;
use crate::program::register_verifier_refusal;
use crate::program::verify_project_refusal;
use crate::program::with_project_registered;
use vstd::prelude::*;

verus! {

/// Once a project is registered for an owner and an identifier, every further
/// registration for the same owner and identifier is refused: with
/// `AddressAlreadyInUse` at the project's address, and with `ConstraintSeeds`
/// at any other address, whatever registry it names.
pub proof fn law_project_registered_once(
    entries: Seq<Entry>,
    program_id: Address,
    project: Address,
    registry: Address,
    project_owner: Address,
    project_id: Seq<char>,
    len: nat,
    account: Account,
    again_project: Address,
    again_registry: Address,
    again_len: nat,
)
    requires
        distinct(entries),
        register_project_refusal(
            entries,
            program_id,
            project,
            registry,
            project_owner,
            project_id,
            len,
        ) is None,
    ensures
        register_project_refusal(
            with_project_registered(entries, registry, project, account),
            program_id,
            again_project,
            again_registry,
            project_owner,
            project_id,
            again_len,
        ) == Some(
            if again_project == project {
                ErrorCode::AddressAlreadyInUse
            } else {
                ErrorCode::ConstraintSeeds
            },
        ),
{
    let counted = Account::Registry(
        crate::instructions::register_project::registry_with_one_more(
            load_registry(entries, registry)->Ok_0,
        ),
    );
    lemma_replaced_distinct(entries, registry, counted);
    lemma_created_distinct(replaced(entries, registry, counted), project, account);
}

/// Once a verifier is registered for a key, every further registration for
/// the same key is refused.
pub proof fn law_verifier_registered_once(
    entries: Seq<Entry>,
    program_id: Address,
    verifier: Address,
    verifier_authority: Address,
    len: nat,
    account: Account,
    again_verifier: Address,
    again_len: nat,
)
    requires
        distinct(entries),
        register_verifier_refusal(
            entries,
            program_id,
            RegisterVerifier { verifier, verifier_authority },
            len,
        ) is None,
    ensures
        register_verifier_refusal(
            created(entries, verifier, account),
            program_id,
            RegisterVerifier { verifier: again_verifier, verifier_authority },
            again_len,
        ) == Some(
            if again_verifier == verifier {
                ErrorCode::AddressAlreadyInUse
            } else {
                ErrorCode::ConstraintSeeds
            },
        ),
{
    lemma_created_distinct(entries, verifier, account);
}

/// Once the registry is set up, every further attempt to set it up is refused.
pub proof fn law_registry_initialized_once(
    entries: Seq<Entry>,
    program_id: Address,
    ctx: InitializeRegistry,
    account: Account,
    again: InitializeRegistry,
)
    requires
        distinct(entries),
        initialize_registry_refusal(entries, program_id, ctx) is None,
    ensures
        initialize_registry_refusal(created(entries, ctx.registry, account), program_id, again) == Some(
            if again.registry == ctx.registry {
                ErrorCode::AlreadyInitialized
            } else {
                ErrorCode::ConstraintSeeds
            },
        ),
{
    lemma_created_distinct(entries, ctx.registry, account);
}

/// Once the administrator has verified a project, the same verification is
/// refused with `ProjectAlreadyProcessed`, and so is every verification of
/// that project by a verifier whose accounts are in order.
pub proof fn law_verified_once(
    entries: Seq<Entry>,
    program_id: Address,
    ctx: VerifyProject,
    verified_carbon_tons: u64,
    by_verifier: MultiPartyVerifyProject,
    quality_rating: u8,
)
    requires
        distinct(entries),
        verify_project_refusal(entries, ctx) is None,
        by_verifier.project == ctx.project,
    ensures
        ({
            let after = replaced(
                entries,
                ctx.project,
                Account::Project(
                    project_verified(load_project(entries, ctx.project)->Ok_0, verified_carbon_tons),
                ),
            );
            &&& verify_project_refusal(after, ctx) == Some(ErrorCode::ProjectAlreadyProcessed)
            &&& multi_party_verify_project_refusal(after, program_id, by_verifier, quality_rating) is Some
            &&& multi_party_verify_project_refusal(after, program_id, by_verifier, quality_rating) matches Some(
                e,
            ) ==> e == ErrorCode::ProjectAlreadyProcessed || e == ErrorCode::AccountNotInitialized
                || e == ErrorCode::AccountDiscriminatorMismatch || e == ErrorCode::ConstraintSeeds
        }),
{
    let verified = Account::Project(
        project_verified(load_project(entries, ctx.project)->Ok_0, verified_carbon_tons),
    );
    lemma_replaced_distinct(entries, ctx.project, verified);
    lemma_replaced_account(entries, ctx.project, verified);
}

/// Once a verifier has verified a project, every further verification of that
/// project is refused, by the administrator or by a verifier.
pub proof fn law_rated_once(
    entries: Seq<Entry>,
    program_id: Address,
    ctx: MultiPartyVerifyProject,
    verified_carbon_tons: u64,
    quality_rating: u8,
    by_admin: VerifyProject,
    again_rating: u8,
)
    requires
        distinct(entries),
        multi_party_verify_project_refusal(entries, program_id, ctx, quality_rating) is None,
        by_admin.project == ctx.project,
    ensures
        ({
            let after = replaced(
                replaced(
                    entries,
                    ctx.project,
                    Account::Project(
                        project_rated(
                            load_project(entries, ctx.project)->Ok_0,
                            verified_carbon_tons,
                            quality_rating,
                        ),
                    ),
                ),
                ctx.verifier,
                Account::Verifier(
                    verifier_rewarded(crate::ledger::load_verifier(entries, ctx.verifier)->Ok_0),
                ),
            );
            &&& verify_project_refusal(after, by_admin) is Some
            &&& multi_party_verify_project_refusal(after, program_id, ctx, again_rating) == Some(
                ErrorCode::ProjectAlreadyProcessed,
            )
        }),
{
    let rated = Account::Project(
        project_rated(load_project(entries, ctx.project)->Ok_0, verified_carbon_tons, quality_rating),
    );
    let rewarded = Account::Verifier(
        verifier_rewarded(crate::ledger::load_verifier(entries, ctx.verifier)->Ok_0),
    );
    let first = replaced(entries, ctx.project, rated);
    lemma_replaced_distinct(entries, ctx.project, rated);
    lemma_replaced_account(entries, ctx.project, rated);
    lemma_replaced_distinct(first, ctx.verifier, rewarded);
    lemma_replaced_account(first, ctx.verifier, rewarded);
}

/// A verification by a verifier that succeeds adds exactly one to the
/// verifier's count and exactly ten to its reputation, and changes nothing
/// else of the verifier.
pub proof fn law_verifier_reward(project: Project, verifier: VerificationNode, quality_rating: u8)
    requires
        multi_party_refusal(project, verifier, quality_rating) is None,
    ensures
        verifier_rewarded(verifier).verification_count == verifier.verification_count + 1,
        verifier_rewarded(verifier).reputation_score == verifier.reputation_score + 10,
        verifier_rewarded(verifier).reputation_score >= verifier.reputation_score,
        verifier_rewarded(verifier).is_active == verifier.is_active,
        verifier_rewarded(verifier).verifier_pubkey == verifier.verifier_pubkey,
{
}

/// A quality rating outside 1 to 5 is refused with `InvalidQualityRating`
/// for a project that is open to verification and a verifier that is active;
/// a rating within 1 to 5 is refused for them only where a counter of the
/// verifier cannot grow.
pub proof fn law_quality_rating(project: Project, verifier: VerificationNode, quality_rating: u8)
    requires
        project.verification_status == VerificationStatus::Pending || project.verification_status
            == VerificationStatus::UnderReview,
        verifier.is_active,
    ensures
        (quality_rating < 1 || quality_rating > 5) ==> multi_party_refusal(
            project,
            verifier,
            quality_rating,
        ) == Some(ErrorCode::InvalidQualityRating),
        (1 <= quality_rating <= 5 && verifier.verification_count < u64::MAX
            && verifier.reputation_score <= u64::MAX - VERIFICATION_REWARD) ==> multi_party_refusal(
            project,
            verifier,
            quality_rating,
        ) is None,
{
}

/// A mint that is not refused leaves the project's minted total within its
/// verified capacity, and a mint that would pass the capacity is refused with
/// `ExceedsVerifiedCapacity`.
pub proof fn law_mint_within_capacity(project: Project, registry: GlobalRegistry, amount: u64)
    requires
        project.verification_status == VerificationStatus::Verified,
    ensures
        mint_verified_refusal(project, registry, amount) is None ==> project_after_mint(
            project,
            amount,
        ).tokens_minted <= crate::capacity::verified_capacity(
            project.carbon_tons_estimated,
            registry.decimals,
        ),
        project.tokens_minted + amount > crate::capacity::verified_capacity(
            project.carbon_tons_estimated,
            registry.decimals,
        ) ==> mint_verified_refusal(project, registry, amount) == Some(
            ErrorCode::ExceedsVerifiedCapacity,
        ),
{
}

/// In a ledger whose records lie at their derived addresses, each at an
/// address of its own, there is one project at most for an owner and an
/// identifier.
pub proof fn law_one_project_per_owner_and_id(
    entries: Seq<Entry>,
    program_id: Address,
    i: int,
    j: int,
)
    requires
        distinct(entries),
        all_sound(entries, program_id),
        0 <= i < entries.len(),
        0 <= j < entries.len(),
        entries[i].account is Project,
        entries[j].account is Project,
        entries[i].account->Project_0.owner == entries[j].account->Project_0.owner,
        entries[i].account->Project_0.project_id@ == entries[j].account->Project_0.project_id@,
    ensures
        i == j,
{
    assert(crate::ledger::sound(entries[i], program_id));
    assert(crate::ledger::sound(entries[j], program_id));
}

/// In such a ledger there is one registry at most.
pub proof fn law_one_registry(entries: Seq<Entry>, program_id: Address, i: int, j: int)
    requires
        distinct(entries),
        all_sound(entries, program_id),
        0 <= i < entries.len(),
        0 <= j < entries.len(),
        entries[i].account is Registry,
        entries[j].account is Registry,
    ensures
        i == j,
{
    assert(crate::ledger::sound(entries[i], program_id));
    assert(crate::ledger::sound(entries[j], program_id));
}

} // verus!
