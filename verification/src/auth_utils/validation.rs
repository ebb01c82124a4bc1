use crate::address::Address;
use crate::instructions::errors::ErrorCode;
use vstd::prelude::*;

verus! {

/// Accepts `authority`. Every authority is accepted.
pub fn validate_authority(authority: &Address) -> (r: Result<(), ErrorCode>)
    ensures
        r is Ok,
{
    Ok(())
}

} // verus!
