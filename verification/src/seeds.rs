use crate::address::seeds_view;
use crate::address::Address;
use vstd::bytes::spec_u64_to_le_bytes;
use vstd::bytes::u64_to_le_bytes;
use vstd::prelude::*;
use vstd::string::StrSliceExecFns;
use vstd::string::StringSliceAdditionalSpecFns;
use vstd::utf8::encode_utf8;

verus! {

/// The eight bytes of a timestamp, lowest first.
pub open spec fn timestamp_bytes(timestamp: i64) -> Seq<u8> {
    spec_u64_to_le_bytes(timestamp as u64)
}

/// The seeds of the one registry record.
pub open spec fn registry_seeds() -> Seq<Seq<u8>> {
    seq!["registry_v3".spec_bytes()]
}

/// The seeds of the credit token's mint.
pub open spec fn mint_seeds() -> Seq<Seq<u8>> {
    seq!["carbon_token_mint_v3".spec_bytes()]
}

/// The seeds of the project that `owner` registers under `project_id`.
pub open spec fn project_seeds(owner: Address, project_id: Seq<char>) -> Seq<Seq<u8>> {
    seq!["project".spec_bytes(), owner.bytes@, encode_utf8(project_id)]
}

/// The seeds of the record of the verifier with the key `authority`.
pub open spec fn verifier_seeds(authority: Address) -> Seq<Seq<u8>> {
    seq!["verifier".spec_bytes(), authority.bytes@]
}

/// The seeds of the observation of `project_id` at `timestamp`.
pub open spec fn monitoring_seeds(project_id: Seq<char>, timestamp: i64) -> Seq<Seq<u8>> {
    seq!["monitoring".spec_bytes(), encode_utf8(project_id), timestamp_bytes(timestamp)]
}

/// The seeds of the offer that `seller` makes of credits of `project_id`.
pub open spec fn listing_seeds(project_id: Seq<char>, seller: Address) -> Seq<Seq<u8>> {
    seq!["listing".spec_bytes(), encode_utf8(project_id), seller.bytes@]
}

/// The seeds of the report on `project_id` for the period that ends at `period_end`.
pub open spec fn impact_report_seeds(project_id: Seq<char>, period_end: i64) -> Seq<Seq<u8>> {
    seq!["impact_report".spec_bytes(), encode_utf8(project_id), timestamp_bytes(period_end)]
}

/// `seeds` followed by the one byte `bump`, as a signer states them.
pub open spec fn with_bump(seeds: Seq<Seq<u8>>, bump: u8) -> Seq<Seq<u8>> {
    seeds.push(seq![bump])
}

/// The bytes of an address, as a seed.
pub fn address_seed(address: &Address) -> (r: Vec<u8>)
    ensures
        r@ == address.bytes@,
{
    let mut seed: Vec<u8> = Vec::new();
    let mut i: usize = 0;
    while i < 32
        invariant
            i <= 32,
            seed@ == address.bytes@.subrange(0, i as int),
        decreases 32 - i,
    {
        seed.push(address.bytes[i]);
        assert(seed@ =~= address.bytes@.subrange(0, i + 1));
        i += 1;
    }
    assert(address.bytes@.subrange(0, 32) =~= address.bytes@);
    seed
}

/// The bytes of a name or an identifier, as a seed.
pub fn text_seed(text: &str) -> (r: Vec<u8>)
    ensures
        r@ == encode_utf8(text@),
{
    text.as_bytes_vec()
}

/// The bytes of a timestamp, as a seed.
pub fn timestamp_seed(timestamp: i64) -> (r: Vec<u8>)
    ensures
        r@ == timestamp_bytes(timestamp),
{
    u64_to_le_bytes(timestamp as u64)
}

/// A list of seeds from its parts: a namespace and up to two keys.
fn seed_list(namespace: &str, first: Option<Vec<u8>>, second: Option<Vec<u8>>) -> (r: Vec<Vec<u8>>)
    ensures
        seeds_view(r) == {
            let head = seq![namespace.spec_bytes()];
            let mid = match first {
                Some(seed) => head.push(seed@),
                None => head,
            };
            match second {
                Some(seed) => mid.push(seed@),
                None => mid,
            }
        },
{
    let mut seeds: Vec<Vec<u8>> = Vec::new();
    seeds.push(text_seed(namespace));
    assert(seeds_view(seeds) =~= seq![namespace.spec_bytes()]);
        if let Some(seed) = first {
        let ghost before = seeds_view(seeds);
        seeds.push(seed);
        assert(seeds_view(seeds) =~= before.push(seed@));
    }
    let ghost mid = seeds_view(seeds);
    if let Some(seed) = second {
        seeds.push(seed);
        assert(seeds_view(seeds) =~= mid.push(seed@));
    }
    seeds
}

/// Makes the seeds of the one registry record.
pub fn make_registry_seeds() -> (r: Vec<Vec<u8>>)
    ensures
        seeds_view(r) == registry_seeds(),
{
    seed_list("registry_v3", None, None)
}

/// Makes the seeds of the credit token's mint.
pub fn make_mint_seeds() -> (r: Vec<Vec<u8>>)
    ensures
        seeds_view(r) == mint_seeds(),
{
    seed_list("carbon_token_mint_v3", None, None)
}

/// Makes the seeds of the project that `owner` registers under `project_id`.
pub fn make_project_seeds(owner: &Address, project_id: &str) -> (r: Vec<Vec<u8>>)
    ensures
        seeds_view(r) == project_seeds(*owner, project_id@),
{
    seed_list("project", Some(address_seed(owner)), Some(text_seed(project_id)))
}

/// Makes the seeds of the record of the verifier with the key `authority`.
pub fn make_verifier_seeds(authority: &Address) -> (r: Vec<Vec<u8>>)
    ensures
        seeds_view(r) == verifier_seeds(*authority),
{
    seed_list("verifier", Some(address_seed(authority)), None)
}

/// Makes the seeds of the observation of `project_id` at `timestamp`.
pub fn make_monitoring_seeds(project_id: &str, timestamp: i64) -> (r: Vec<Vec<u8>>)
    ensures
        seeds_view(r) == monitoring_seeds(project_id@, timestamp),
{
    seed_list("monitoring", Some(text_seed(project_id)), Some(timestamp_seed(timestamp)))
}

/// Makes the seeds of the offer that `seller` makes of credits of `project_id`.
pub fn make_listing_seeds(project_id: &str, seller: &Address) -> (r: Vec<Vec<u8>>)
    ensures
        seeds_view(r) == listing_seeds(project_id@, *seller),
{
    seed_list("listing", Some(text_seed(project_id)), Some(address_seed(seller)))
}

/// Makes the seeds of the report on `project_id` for the period that ends at
/// `period_end`.
pub fn make_impact_report_seeds(project_id: &str, period_end: i64) -> (r: Vec<Vec<u8>>)
    ensures
        seeds_view(r) == impact_report_seeds(project_id@, period_end),
{
    seed_list("impact_report", Some(text_seed(project_id)), Some(timestamp_seed(period_end)))
}

/// Appends the bump seed to a list of seeds.
pub fn push_bump(seeds: Vec<Vec<u8>>, bump: u8) -> (r: Vec<Vec<u8>>)
    ensures
        seeds_view(r) == with_bump(seeds_view(seeds), bump),
{
    let mut seeds = seeds;
    let ghost before = seeds_view(seeds);
    let mut last: Vec<u8> = Vec::new();
    last.push(bump);
    assert(last@ =~= seq![bump]);
    seeds.push(last);
    assert(seeds_view(seeds) =~= before.push(seq![bump]));
    seeds
}

} // verus!
