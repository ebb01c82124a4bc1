use crate::address::Address;
use crate::instructions::errors::ErrorCode;
use crate::layout::listing_fits;
use crate::layout::text_len;
use crate::layout::texts_len;
use crate::layout::LISTING_SPACE;
use crate::models::CarbonCreditListing;
use crate::models::CoBenefit;
use crate::models::MarketplaceListingData;
use crate::models::Project;
use crate::models::VerificationStatus;
use vstd::prelude::*;

verus! {

/// The bytes that the offer takes which is made of `project` with
/// `listing_data`.
pub open spec fn offer_len(project: Project, listing_data: MarketplaceListingData) -> nat {
    76 + text_len(listing_data.project_id@) + project.co_benefits@.len() + texts_len(
        listing_data.certification_standards@,
    )
}

/// Why an offer is refused, if it is. The first rule that is broken decides.
pub open spec fn listing_refusal(project: Project, listing_data: MarketplaceListingData) -> Option<
    ErrorCode,
> {
    if project.verification_status != VerificationStatus::Verified {
        Some(ErrorCode::ProjectNotVerified)
    } else if listing_data.quantity_available > project.available_quantity {
        Some(ErrorCode::ExceedsAvailableQuantity)
    } else if offer_len(project, listing_data) > LISTING_SPACE {
        Some(ErrorCode::AccountDidNotSerialize)
    } else {
        None
    }
}

/// Whether `listing` is the offer that `seller` makes of credits of
/// `project` at the time `now`: active, with what the seller stated, and with
/// the project's own rating and co-benefits.
pub open spec fn is_listing_of(
    listing: CarbonCreditListing,
    project: Project,
    seller: Address,
    listing_data: MarketplaceListingData,
    now: i64,
) -> bool {
    &&& listing.project_id == listing_data.project_id
    &&& listing.seller == seller
    &&& listing.vintage_year == listing_data.vintage_year
    &&& listing.quantity_available == listing_data.quantity_available
    &&& listing.price_per_ton == listing_data.price_per_ton
    &&& listing.quality_rating == project.quality_rating
    &&& listing.co_benefits@ == project.co_benefits@
    &&& listing.certification_standards == listing_data.certification_standards
    &&& listing.listing_date == now
    &&& listing.expiry_date == listing_data.expiry_date
    &&& listing.is_active
}

/// A copy of a list of co-benefits.
pub fn copy_co_benefits(co_benefits: &Vec<CoBenefit>) -> (r: Vec<CoBenefit>)
    ensures
        r@ == co_benefits@,
{
    let mut copy: Vec<CoBenefit> = Vec::new();
    let mut i: usize = 0;
    while i < co_benefits.len()
        invariant
            i <= co_benefits.len(),
            copy@ == co_benefits@.subrange(0, i as int),
        decreases co_benefits.len() - i,
    {
        copy.push(co_benefits[i]);
        assert(copy@ =~= co_benefits@.subrange(0, i + 1));
        i += 1;
    }
    assert(co_benefits@.subrange(0, co_benefits.len() as int) =~= co_benefits@);
    copy
}

/// Makes an offer of credits of a verified project, for no more than the
/// project has available. The offer takes its rating and its co-benefits from
/// the project, so it cannot claim better than the project holds. An offer
/// that does not fit in the room kept for one is refused.
pub fn create_marketplace_listing(
    project: &Project,
    seller: Address,
    listing_data: MarketplaceListingData,
    now: i64,
) -> (r: Result<CarbonCreditListing, ErrorCode>)
    ensures
        match listing_refusal(*project, listing_data) {
            Some(e) => r == Err::<CarbonCreditListing, ErrorCode>(e),
            None => r is Ok && is_listing_of(r->Ok_0, *project, seller, listing_data, now),
        },
{
    if project.verification_status != VerificationStatus::Verified {
        return Err(ErrorCode::ProjectNotVerified);
    }
    if listing_data.quantity_available > project.available_quantity {
        return Err(ErrorCode::ExceedsAvailableQuantity);
    }
    let listing = CarbonCreditListing {
        project_id: listing_data.project_id,
        seller,
        vintage_year: listing_data.vintage_year,
        quantity_available: listing_data.quantity_available,
        price_per_ton: listing_data.price_per_ton,
        quality_rating: project.quality_rating,
        co_benefits: copy_co_benefits(&project.co_benefits),
        certification_standards: listing_data.certification_standards,
        listing_date: now,
        expiry_date: listing_data.expiry_date,
        is_active: true,
    };
    if !listing_fits(&listing) {
        return Err(ErrorCode::AccountDidNotSerialize);
    }
    Ok(listing)
}

} // verus!
