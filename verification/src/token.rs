use crate::address::seeds_view;
use crate::address::Address;
use vstd::prelude::*;

verus! {

/// What is asked of the token service. The registry decides; the host carries
/// the request out, and keeps the registry's changes only if it succeeds.
#[derive(Clone, Debug)]
pub enum TokenInstruction {
    /// Create `amount` new units in the account `to`, signed for `authority`
    /// with the seeds from which its address is derived.
    MintTo { mint: Address, to: Address, authority: Address, signer_seeds: Vec<Vec<u8>>, amount: u64 },
    /// Move `amount` units from one account to another.
    Transfer { from: Address, to: Address, authority: Address, amount: u64 },
}

impl TokenInstruction {
    /// Whether this is the request to mint that the arguments describe.
    pub open spec fn is_mint_to(
        self,
        mint: Address,
        to: Address,
        authority: Address,
        signer_seeds: Seq<Seq<u8>>,
        amount: u64,
    ) -> bool {
        match self {
            TokenInstruction::MintTo { mint: m, to: t, authority: a, signer_seeds: s, amount: n } => {
                m == mint && t == to && a == authority && seeds_view(s) == signer_seeds && n
                    == amount
            },
            _ => false,
        }
    }

    /// Whether this is the request to transfer that the arguments describe.
    pub open spec fn is_transfer(self, from: Address, to: Address, authority: Address, amount: u64) -> bool {
        match self {
            TokenInstruction::Transfer { from: f, to: t, authority: a, amount: n } => {
                f == from && t == to && a == authority && n == amount
            },
            _ => false,
        }
    }
}

} // verus!
