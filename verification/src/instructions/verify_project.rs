use crate::address::Address;
use crate::instructions::errors::ErrorCode;
use crate::layout::verifier_fits;
use crate::layout::verifier_len;
use crate::layout::VERIFIER_SPACE;
use crate::models::Project;
use crate::models::VerificationNode;
use crate::models::VerificationStatus;
use crate::models::VerifierData;
use vstd::prelude::*;

verus! {

/// The reputation that a verifier starts with.
pub const STARTING_REPUTATION: u64 = 100;

/// The reputation that a verifier gains with each verification.
pub const VERIFICATION_REWARD: u64 = 10;

/// The project once the administrator has verified it for `verified_carbon_tons`.
pub open spec fn project_verified(project: Project, verified_carbon_tons: u64) -> Project {
    Project {
        verification_status: VerificationStatus::Verified,
        carbon_tons_estimated: verified_carbon_tons,
        ..project
    }
}

/// The administrator verifies a pending project: it becomes `Verified`, and
/// the verified tons take the place of the estimate. A project in any other
/// state is refused with `ProjectAlreadyProcessed` and left as it is.
pub fn verify_project(project: &mut Project, verified_carbon_tons: u64) -> (r: Result<(), ErrorCode>)
    ensures
        old(project).verification_status == VerificationStatus::Pending ==> r is Ok && *final(project) == project_verified(*old(project), verified_carbon_tons),
        old(project).verification_status != VerificationStatus::Pending ==> r == Err::<
            (),
            ErrorCode,
        >(ErrorCode::ProjectAlreadyProcessed) && *final(project) == *old(project),
{
    if project.verification_status != VerificationStatus::Pending {
        return Err(ErrorCode::ProjectAlreadyProcessed);
    }
    project.verification_status = VerificationStatus::Verified;
    project.carbon_tons_estimated = verified_carbon_tons;
    Ok(())
}

/// Why a verification by a verifier is refused, if it is. The first rule that
/// is broken decides.
pub open spec fn multi_party_refusal(
    project: Project,
    verifier: VerificationNode,
    quality_rating: u8,
) -> Option<ErrorCode> {
    if project.verification_status != VerificationStatus::Pending && project.verification_status
        != VerificationStatus::UnderReview {
        Some(ErrorCode::ProjectAlreadyProcessed)
    } else if !verifier.is_active {
        Some(ErrorCode::VerifierNotActive)
    } else if quality_rating < 1 || quality_rating > 5 {
        Some(ErrorCode::InvalidQualityRating)
    } else if verifier.verification_count + 1 > u64::MAX || verifier.reputation_score
        + VERIFICATION_REWARD > u64::MAX {
        Some(ErrorCode::ArithmeticOverflow)
    } else {
        None
    }
}

/// The project once a verifier has verified it.
pub open spec fn project_rated(project: Project, verified_carbon_tons: u64, quality_rating: u8) -> Project {
    Project {
        verification_status: VerificationStatus::Verified,
        carbon_tons_estimated: verified_carbon_tons,
        quality_rating,
        available_quantity: verified_carbon_tons,
        ..project
    }
}

/// The verifier once it has verified one more project.
pub open spec fn verifier_rewarded(verifier: VerificationNode) -> VerificationNode {
    VerificationNode {
        verification_count: (verifier.verification_count + 1) as u64,
        reputation_score: (verifier.reputation_score + VERIFICATION_REWARD) as u64,
        ..verifier
    }
}

/// An active verifier verifies a project that is pending or under review, with
/// a quality rating from 1 to 5. The project becomes `Verified` with the
/// verified tons, the rating, and all its tons available; the verifier has one
/// more verification and ten more points of reputation. On refusal neither
/// changes.
pub fn multi_party_verify_project(
    project: &mut Project,
    verifier: &mut VerificationNode,
    verified_carbon_tons: u64,
    quality_rating: u8,
    verification_report_cid: String,
) -> (r: Result<(), ErrorCode>)
    ensures
        match multi_party_refusal(*old(project), *old(verifier), quality_rating) {
            Some(e) => r == Err::<(), ErrorCode>(e) && *final(project) == *old(project) && *final(verifier) == *old(verifier),
            None => r is Ok && *final(project) == project_rated(
                *old(project),
                verified_carbon_tons,
                quality_rating,
            ) && *final(verifier) == verifier_rewarded(*old(verifier)),
        },
{
    if project.verification_status != VerificationStatus::Pending && project.verification_status
        != VerificationStatus::UnderReview {
        return Err(ErrorCode::ProjectAlreadyProcessed);
    }
    if !verifier.is_active {
        return Err(ErrorCode::VerifierNotActive);
    }
    if quality_rating < 1 || quality_rating > 5 {
        return Err(ErrorCode::InvalidQualityRating);
    }
    let count = match verifier.verification_count.checked_add(1) {
        Some(count) => count,
        None => {
            return Err(ErrorCode::ArithmeticOverflow);
        },
    };
    let score = match verifier.reputation_score.checked_add(VERIFICATION_REWARD) {
        Some(score) => score,
        None => {
            return Err(ErrorCode::ArithmeticOverflow);
        },
    };
    project.verification_status = VerificationStatus::Verified;
    project.carbon_tons_estimated = verified_carbon_tons;
    project.quality_rating = quality_rating;
    project.available_quantity = verified_carbon_tons;
    verifier.verification_count = count;
    verifier.reputation_score = score;
    Ok(())
}

/// The record of a verifier that has just registered.
pub open spec fn new_verifier(
    verifier_authority: Address,
    verifier_data: VerifierData,
    now: i64,
) -> VerificationNode {
    VerificationNode {
        verifier_pubkey: verifier_authority,
        verifier_type: verifier_data.verifier_type,
        credentials: verifier_data.credentials,
        reputation_score: STARTING_REPUTATION,
        verification_count: 0,
        is_active: true,
        registration_date: now,
        specializations: verifier_data.specializations,
    }
}

/// Makes the record of the verifier with the key `verifier_authority`, who
/// registers at the time `now`: active, with no verification yet and the
/// starting reputation. It is refused with `AccountDidNotSerialize` where
/// the record does not fit in the room kept for a verifier.
pub fn register_verifier(verifier_authority: Address, verifier_data: VerifierData, now: i64) -> (r: Result<
    VerificationNode,
    ErrorCode,
>)
    ensures
        verifier_len(new_verifier(verifier_authority, verifier_data, now)) <= VERIFIER_SPACE ==> r
            is Ok && r->Ok_0 == new_verifier(verifier_authority, verifier_data, now),
        verifier_len(new_verifier(verifier_authority, verifier_data, now)) > VERIFIER_SPACE ==> r
            is Err && r->Err_0 == ErrorCode::AccountDidNotSerialize,
{
    let verifier = VerificationNode {
        verifier_pubkey: verifier_authority,
        verifier_type: verifier_data.verifier_type,
        credentials: verifier_data.credentials,
        reputation_score: STARTING_REPUTATION,
        verification_count: 0,
        is_active: true,
        registration_date: now,
        specializations: verifier_data.specializations,
    };
    if !verifier_fits(&verifier) {
        return Err(ErrorCode::AccountDidNotSerialize);
    }
    Ok(verifier)
}

} // verus!
