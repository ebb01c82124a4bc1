use crate::address::Address;
use crate::capacity::verified_capacity;
use crate::capacity::within_capacity;
use crate::instructions::errors::ErrorCode;
use crate::models::GlobalRegistry;
use crate::models::Project;
use crate::models::VerificationStatus;
use crate::seeds::make_project_seeds;
use crate::seeds::make_registry_seeds;
use crate::seeds::project_seeds;
use crate::seeds::push_bump;
use crate::seeds::registry_seeds;
use crate::seeds::with_bump;
use crate::token::TokenInstruction;
use vstd::prelude::*;

verus! {

/// The registry as it is set up: no project, no credit, `admin` in charge, and
/// the registry's own address as the authority over the token mint.
pub open spec fn initial_registry(
    admin: Address,
    registry_key: Address,
    carbon_token_mint: Address,
    bump: u8,
    decimals: u8,
) -> GlobalRegistry {
    GlobalRegistry {
        total_credits_issued: 0,
        total_projects: 0,
        admin,
        mint_authority: registry_key,
        carbon_token_mint,
        bump,
        mint_authority_bump: bump,
        decimals,
    }
}

/// Sets up the registry record that lies at `registry_key`.
pub fn initialize_registry(
    admin: Address,
    registry_key: Address,
    carbon_token_mint: Address,
    bump: u8,
    decimals: u8,
) -> (registry: GlobalRegistry)
    ensures
        registry == initial_registry(admin, registry_key, carbon_token_mint, bump, decimals),
{
    GlobalRegistry {
        total_credits_issued: 0,
        total_projects: 0,
        admin,
        mint_authority: registry_key,
        carbon_token_mint,
        bump,
        mint_authority_bump: bump,
        decimals,
    }
}

/// Why a mint of `amount` against the registry's supply is refused, if it is.
/// The first rule that is broken decides. A sum that does not fit in 64 bits
/// is beyond every capacity.
pub open spec fn mint_verified_refusal(
    project: Project,
    registry: GlobalRegistry,
    amount: u64,
) -> Option<ErrorCode> {
    if project.verification_status != VerificationStatus::Verified {
        Some(ErrorCode::ProjectNotVerified)
    } else if project.tokens_minted + amount > u64::MAX || project.tokens_minted + amount
        > verified_capacity(project.carbon_tons_estimated, registry.decimals) {
        Some(ErrorCode::ExceedsVerifiedCapacity)
    } else if project.credits_issued + amount > u64::MAX || registry.total_credits_issued + amount
        > u64::MAX {
        Some(ErrorCode::ExceedsVerifiedCapacity)
    } else {
        None
    }
}

/// The project after `amount` was minted for it.
pub open spec fn project_after_mint(project: Project, amount: u64) -> Project {
    Project {
        credits_issued: (project.credits_issued + amount) as u64,
        tokens_minted: (project.tokens_minted + amount) as u64,
        ..project
    }
}

/// The registry after `amount` was minted against its supply.
pub open spec fn registry_after_mint(registry: GlobalRegistry, amount: u64) -> GlobalRegistry {
    GlobalRegistry {
        total_credits_issued: (registry.total_credits_issued + amount) as u64,
        ..registry
    }
}

/// Mints `amount` token units for a verified project against the registry's
/// supply. On success the project's and the registry's counters have grown by
/// `amount`, the project's minted total lies within its verified capacity,
/// and the result is the request to the token service: it mints into
/// `recipient_token_account`, signed for the registry. On refusal nothing
/// changes.
pub fn mint_verified_credits(
    project: &mut Project,
    registry: &mut GlobalRegistry,
    registry_key: Address,
    recipient_token_account: Address,
    amount: u64,
) -> (r: Result<TokenInstruction, ErrorCode>)
    ensures
        match mint_verified_refusal(*old(project), *old(registry), amount) {
            Some(e) => r == Err::<TokenInstruction, ErrorCode>(e) && *final(project) == *old(project) && *final(registry) == *old(registry),
            None => {
                &&& r is Ok
                &&& r->Ok_0.is_mint_to(
                    old(registry).carbon_token_mint,
                    recipient_token_account,
                    registry_key,
                    with_bump(registry_seeds(), old(registry).bump),
                    amount,
                )
                &&& *final(project) == project_after_mint(*old(project), amount)
                &&& *final(registry) == registry_after_mint(*old(registry), amount)
                &&& final(project).tokens_minted <= verified_capacity(
                    final(project).carbon_tons_estimated,
                    final(registry).decimals,
                )
            },
        },
{
    if project.verification_status != VerificationStatus::Verified {
        return Err(ErrorCode::ProjectNotVerified);
    }
    let minted = match project.tokens_minted.checked_add(amount) {
        Some(total) => total,
        None => {
            return Err(ErrorCode::ExceedsVerifiedCapacity);
        },
    };
    if !within_capacity(minted, project.carbon_tons_estimated, registry.decimals) {
        return Err(ErrorCode::ExceedsVerifiedCapacity);
    }
    let issued = match project.credits_issued.checked_add(amount) {
        Some(total) => total,
        None => {
            return Err(ErrorCode::ExceedsVerifiedCapacity);
        },
    };
    let total = match registry.total_credits_issued.checked_add(amount) {
        Some(total) => total,
        None => {
            return Err(ErrorCode::ExceedsVerifiedCapacity);
        },
    };
    let instruction = TokenInstruction::MintTo {
        mint: registry.carbon_token_mint,
        to: recipient_token_account,
        authority: registry_key,
        signer_seeds: push_bump(make_registry_seeds(), registry.bump),
        amount,
    };
    project.credits_issued = issued;
    project.tokens_minted = minted;
    registry.total_credits_issued = total;
    Ok(instruction)
}

/// Why a mint by the older path is refused, if it is.
pub open spec fn mint_legacy_refusal(project: Project, amount: u64) -> Option<ErrorCode> {
    if project.verification_status != VerificationStatus::Verified {
        Some(ErrorCode::ProjectNotVerified)
    } else if project.tokens_minted + amount > u64::MAX || project.credits_issued + amount
        > u64::MAX {
        Some(ErrorCode::ExceedsVerifiedCapacity)
    } else {
        None
    }
}

/// The older way to mint, kept apart from `mint_verified_credits`: the
/// project's own derived address signs, for a mint of its own. It asks only
/// that the project is verified. It compares nothing with the verified
/// capacity and leaves the registry's total as it is, so after it the
/// registry's total no longer equals the sum over the projects.
pub fn mint_credits(
    project: &mut Project,
    mint: Address,
    recipient_token_account: Address,
    mint_authority: Address,
    amount: u64,
) -> (r: Result<TokenInstruction, ErrorCode>)
    ensures
        match mint_legacy_refusal(*old(project), amount) {
            Some(e) => r == Err::<TokenInstruction, ErrorCode>(e) && *final(project) == *old(project),
            None => {
                &&& r is Ok
                &&& r->Ok_0.is_mint_to(
                    mint,
                    recipient_token_account,
                    mint_authority,
                    with_bump(
                        project_seeds(old(project).owner, old(project).project_id@),
                        old(project).bump,
                    ),
                    amount,
                )
                &&& *final(project) == project_after_mint(*old(project), amount)
            },
        },
{
    if project.verification_status != VerificationStatus::Verified {
        return Err(ErrorCode::ProjectNotVerified);
    }
    let minted = match project.tokens_minted.checked_add(amount) {
        Some(total) => total,
        None => {
            return Err(ErrorCode::ExceedsVerifiedCapacity);
        },
    };
    let issued = match project.credits_issued.checked_add(amount) {
        Some(total) => total,
        None => {
            return Err(ErrorCode::ExceedsVerifiedCapacity);
        },
    };
    let seeds = make_project_seeds(&project.owner, project.project_id.as_str());
    let instruction = TokenInstruction::MintTo {
        mint,
        to: recipient_token_account,
        authority: mint_authority,
        signer_seeds: push_bump(seeds, project.bump),
        amount,
    };
    project.credits_issued = issued;
    project.tokens_minted = minted;
    Ok(instruction)
}

} // verus!
