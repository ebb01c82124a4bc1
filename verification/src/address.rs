use anchor_lang::prelude::Pubkey;
use vstd::prelude::*;

verus! {

/// A 32-byte identity: the location of a record, or the key of the party that acts.
#[derive(Clone, Copy, Debug, Eq)]
pub struct Address {
    pub bytes: [u8; 32],
}

impl PartialEq for Address {
    fn eq(&self, other: &Self) -> (r: bool) {
        let mut i: usize = 0;
        while i < 32
            invariant
                i <= 32,
                forall|j: int| 0 <= j < i ==> self.bytes[j] == other.bytes[j],
            decreases 32 - i,
        {
            if self.bytes[i] != other.bytes[i] {
                return false;
            }
            i += 1;
        }
        assert(self.bytes =~= other.bytes);
        true
    }
}

impl vstd::std_specs::cmp::PartialEqSpecImpl for Address {
    open spec fn obeys_eq_spec() -> bool {
        true
    }

    open spec fn eq_spec(&self, other: &Self) -> bool {
        *self == *other
    }
}

/// What `Pubkey::try_find_program_address` returns for a list of seeds and a
/// program id: the derived address with its bump seed, or nothing where no
/// address can be derived from them.
pub uninterp spec fn program_address(seeds: Seq<Seq<u8>>, program_id: Seq<u8>) -> Option<
    (Seq<u8>, u8),
>;

/// Whether the seeds are more, or longer, than a derivation takes: sixteen
/// seeds or more, or a seed of more than 32 bytes.
pub open spec fn unusable(seeds: Seq<Seq<u8>>) -> bool {
    seeds.len() >= 16 || exists|i: int| 0 <= i < seeds.len() && (#[trigger] seeds[i]).len() > 32
}

/// A list of seeds as plain bytes.
pub open spec fn seeds_view(seeds: Vec<Vec<u8>>) -> Seq<Seq<u8>> {
    Seq::new(seeds@.len(), |i: int| seeds@[i]@)
}

/// The address and the bump seed that are derived from `seeds` under
/// `program_id`; nothing where the seeds are unusable or yield no address.
pub open spec fn derived(seeds: Seq<Seq<u8>>, program_id: Address) -> Option<(Address, u8)> {
    if unusable(seeds) {
        None
    } else {
        match program_address(seeds, program_id.bytes@) {
            Some((bytes, bump)) => if bytes.len() == 32 {
                Some((address_of(bytes), bump))
            } else {
                None
            },
            None => None,
        }
    }
}

/// The bump seed with which `seeds` derive `address`; nothing where they
/// derive another address or none.
pub open spec fn derives_to(seeds: Seq<Seq<u8>>, program_id: Address, address: Address) -> Option<u8> {
    match derived(seeds, program_id) {
        Some((found, bump)) => if found == address {
            Some(bump)
        } else {
            None
        },
        None => None,
    }
}

/// The address whose bytes are `bytes`.
pub open spec fn address_of(bytes: Seq<u8>) -> Address
    recommends
        bytes.len() == 32,
{
    Address { bytes: choose|a: [u8; 32]| #[trigger] a.view() == bytes }
}

/// Calls `Pubkey::try_find_program_address`. Trusted: the result is the one
/// that the function computes from the seeds and the program id, which
/// depends on nothing else; and it is nothing where there are sixteen seeds
/// or more, or a seed of more than 32 bytes. No address is promised for any
/// input.
#[verifier::external_body]
pub(crate) fn try_find_program_address(seeds: &Vec<Vec<u8>>, program_id: &Address) -> (r: Option<
    (Address, u8),
>)
    ensures
        match r {
            Some((address, bump)) => !unusable(seeds_view(*seeds)) && program_address(
                seeds_view(*seeds),
                program_id.bytes@,
            ) == Some((address.bytes@, bump)),
            None => unusable(seeds_view(*seeds)) || program_address(
                seeds_view(*seeds),
                program_id.bytes@,
            ) is None,
        },
{
    let parts: Vec<&[u8]> = seeds.iter().map(|seed| seed.as_slice()).collect();
    let id = Pubkey::new_from_array(program_id.bytes);
    match Pubkey::try_find_program_address(&parts, &id) {
        Some((key, bump)) => Some((Address { bytes: key.to_bytes() }, bump)),
        None => None,
    }
}

/// Derives the address and bump seed that belong to `seeds` under `program_id`.
pub fn derive_address(seeds: &Vec<Vec<u8>>, program_id: &Address) -> (r: Option<(Address, u8)>)
    ensures
        r == derived(seeds_view(*seeds), *program_id),
{
    let r = try_find_program_address(seeds, program_id);
    proof {
        match r {
            Some((address, bump)) => {
                let picked = choose|a: [u8; 32]| #[trigger] a.view() == address.bytes@;
                assert(picked@ == address.bytes@);
                assert(picked =~= address.bytes);
            },
            None => {},
        }
    }
    r
}

/// Tests that `address` is the one derived from `seeds`, and gives the bump
/// seed of the derivation.
pub fn bump_for(seeds: &Vec<Vec<u8>>, program_id: &Address, address: &Address) -> (r: Option<u8>)
    ensures
        r == derives_to(seeds_view(*seeds), *program_id, *address),
{
    match derive_address(seeds, program_id) {
        Some((found, bump)) => if found == *address {
            Some(bump)
        } else {
            None
        },
        None => None,
    }
}

} // verus!
