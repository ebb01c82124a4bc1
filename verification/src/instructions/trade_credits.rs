use crate::address::Address;
use crate::instructions::errors::ErrorCode;
use crate::token::TokenInstruction;
use vstd::prelude::*;

verus! {

/// Takes note of a trade. It moves nothing and always succeeds.
pub fn trade_credits(authority: Address, amount: u64) -> (r: Result<(), ErrorCode>)
    ensures
        r is Ok,
{
    Ok(())
}

/// The request to the token service that moves `amount` credits from
/// `from_account` to `to_account`, on the word of `from_authority`.
pub fn transfer_credits(
    from_account: Address,
    to_account: Address,
    from_authority: Address,
    amount: u64,
) -> (r: Result<TokenInstruction, ErrorCode>)
    ensures
        r is Ok,
        r->Ok_0.is_transfer(from_account, to_account, from_authority, amount),
{
    Ok(
        TokenInstruction::Transfer {
            from: from_account,
            to: to_account,
            authority: from_authority,
            amount,
        },
    )
}

/// The request to the token service that retires `amount` credits: it moves
/// them from `from_account` to `retirement_account`, on the word of
/// `from_authority`.
pub fn retire_credits(
    from_account: Address,
    retirement_account: Address,
    from_authority: Address,
    amount: u64,
) -> (r: Result<TokenInstruction, ErrorCode>)
    ensures
        r is Ok,
        r->Ok_0.is_transfer(from_account, retirement_account, from_authority, amount),
{
    Ok(
        TokenInstruction::Transfer {
            from: from_account,
            to: retirement_account,
            authority: from_authority,
            amount,
        },
    )
}

} // verus!
