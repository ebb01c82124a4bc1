use crate::address::bump_for;
use crate::address::derived;
use crate::address::derives_to;
use crate::address::seeds_view;
use crate::address::Address;
use crate::instructions::errors::ErrorCode;
use crate::models::CarbonCreditListing;
use crate::models::GlobalRegistry;
use crate::models::ImpactReport;
use crate::models::MonitoringData;
use crate::models::Project;
use crate::models::VerificationNode;
use crate::models::VerificationStatus;
use crate::seeds::mint_seeds;
use crate::seeds::project_seeds;
use crate::seeds::registry_seeds;
use crate::seeds::verifier_seeds;
use vstd::prelude::*;

verus! {

/// A record of one of the kinds that share the address space.
#[derive(Clone, Debug)]
pub enum Account {
    Registry(GlobalRegistry),
    Project(Project),
    Verifier(VerificationNode),
    Monitoring(MonitoringData),
    Listing(CarbonCreditListing),
    ImpactReport(ImpactReport),
}

/// A record with the address at which it lies.
#[derive(Clone, Debug)]
pub struct Entry {
    pub address: Address,
    pub account: Account,
}

/// All the records of one deployment, in the order in which they were
/// created, each at an address of its own.
pub struct Ledger {
    program_id: Address,
    entries: Vec<Entry>,
}

/// Whether a record lies at `address`.
pub open spec fn holds(entries: Seq<Entry>, address: Address) -> bool {
    exists|i: int| 0 <= i < entries.len() && (#[trigger] entries[i]).address == address
}

/// The place of the record at `address` among the records.
pub open spec fn position(entries: Seq<Entry>, address: Address) -> int {
    choose|i: int| 0 <= i < entries.len() && (#[trigger] entries[i]).address == address
}

/// The record at `address`.
pub open spec fn account_at(entries: Seq<Entry>, address: Address) -> Account {
    entries[position(entries, address)].account
}

/// No two records share an address.
pub open spec fn distinct(entries: Seq<Entry>) -> bool {
    forall|i: int, j: int|
        0 <= i < entries.len() && 0 <= j < entries.len() && i != j ==> (#[trigger] entries[i]).address
            != (#[trigger] entries[j]).address
}

/// Whether a record is sound. It lies at the address that is derived from
/// its own keys: the registry at the one registry address, holding the
/// derived address of the token mint; a project at the address of its owner
/// and identifier, with its bump seed; a verifier at the address of its key.
/// Records of the other kinds lie where their creator's arguments put them.
/// Of a project, besides: its quality rating is 0 while it has none, and else
/// from 1 to 5; as many tokens are minted for it as credits are issued; and
/// none are while it is not verified.
pub open spec fn sound(entry: Entry, program_id: Address) -> bool {
    match entry.account {
        Account::Registry(registry) => {
            &&& derived(registry_seeds(), program_id) == Some((entry.address, registry.bump))
            &&& registry.mint_authority == entry.address
            &&& registry.mint_authority_bump == registry.bump
            &&& derived(mint_seeds(), program_id) matches Some((mint, _))
            &&& registry.carbon_token_mint == mint
        },
        Account::Project(project) => {
            &&& derived(project_seeds(project.owner, project.project_id@), program_id) == Some(
                (entry.address, project.bump),
            )
            &&& project.quality_rating <= 5
            &&& project.tokens_minted == project.credits_issued
            &&& project.verification_status != VerificationStatus::Verified ==> project.tokens_minted
                == 0
        },
        Account::Verifier(verifier) => {
            &&& derived(verifier_seeds(verifier.verifier_pubkey), program_id) matches Some(
                (address, _),
            )
            &&& address == entry.address
        },
        _ => true,
    }
}

/// Every record is sound.
pub open spec fn all_sound(entries: Seq<Entry>, program_id: Address) -> bool {
    forall|i: int| 0 <= i < entries.len() ==> sound(#[trigger] entries[i], program_id)
}

/// Why no record can be created at `address` for `seeds`, if none can: the
/// address is not the one derived from the seeds, or a record lies there.
pub open spec fn claim_refusal(
    entries: Seq<Entry>,
    program_id: Address,
    seeds: Seq<Seq<u8>>,
    address: Address,
) -> Option<ErrorCode> {
    if derives_to(seeds, program_id, address) is None {
        Some(ErrorCode::ConstraintSeeds)
    } else if holds(entries, address) {
        Some(ErrorCode::AddressAlreadyInUse)
    } else {
        None
    }
}

/// The records with the one at `address` replaced by `account`.
pub open spec fn replaced(entries: Seq<Entry>, address: Address, account: Account) -> Seq<Entry> {
    entries.update(position(entries, address), Entry { address, account })
}

/// The records with `account` created at `address`.
pub open spec fn created(entries: Seq<Entry>, address: Address, account: Account) -> Seq<Entry> {
    entries.push(Entry { address, account })
}

/// The project at `address`, or why there is none.
pub open spec fn load_project(entries: Seq<Entry>, address: Address) -> Result<Project, ErrorCode> {
    if !holds(entries, address) {
        Err(ErrorCode::AccountNotInitialized)
    } else {
        match account_at(entries, address) {
            Account::Project(project) => Ok(project),
            _ => Err(ErrorCode::AccountDiscriminatorMismatch),
        }
    }
}

/// The registry at `address`, or why there is none.
pub open spec fn load_registry(entries: Seq<Entry>, address: Address) -> Result<
    GlobalRegistry,
    ErrorCode,
> {
    if !holds(entries, address) {
        Err(ErrorCode::AccountNotInitialized)
    } else {
        match account_at(entries, address) {
            Account::Registry(registry) => Ok(registry),
            _ => Err(ErrorCode::AccountDiscriminatorMismatch),
        }
    }
}

/// The verifier at `address`, or why there is none.
pub open spec fn load_verifier(entries: Seq<Entry>, address: Address) -> Result<
    VerificationNode,
    ErrorCode,
> {
    if !holds(entries, address) {
        Err(ErrorCode::AccountNotInitialized)
    } else {
        match account_at(entries, address) {
            Account::Verifier(verifier) => Ok(verifier),
            _ => Err(ErrorCode::AccountDiscriminatorMismatch),
        }
    }
}

/// Where addresses are distinct, the record found at an address is the one
/// that `position` names.
pub proof fn lemma_position(entries: Seq<Entry>, i: int)
    requires
        distinct(entries),
        0 <= i < entries.len(),
    ensures
        holds(entries, entries[i].address),
        position(entries, entries[i].address) == i,
{
    let address = entries[i].address;
    assert(holds(entries, address));
    let p = position(entries, address);
    assert(0 <= p < entries.len() && entries[p].address == address);
}

/// Replacing a record where it lies keeps the addresses distinct.
pub proof fn lemma_replaced_distinct(entries: Seq<Entry>, address: Address, account: Account)
    requires
        distinct(entries),
        holds(entries, address),
    ensures
        distinct(replaced(entries, address, account)),
        replaced(entries, address, account).len() == entries.len(),
        forall|other: Address| holds(replaced(entries, address, account), other) == holds(entries, other),
        forall|other: Address|
            holds(entries, other) ==> position(replaced(entries, address, account), other)
                == position(entries, other),
{
    let p = position(entries, address);
    let after = replaced(entries, address, account);
    assert forall|i: int| 0 <= i < entries.len() implies (#[trigger] after[i]).address
        == entries[i].address by {}
    assert forall|other: Address| holds(after, other) == holds(entries, other) by {
        if holds(entries, other) {
            let i = position(entries, other);
            assert(after[i].address == other);
        }
        if holds(after, other) {
            let i = position(after, other);
            assert(entries[i].address == other);
        }
    }
    assert forall|other: Address| holds(entries, other) implies position(after, other) == position(
        entries,
        other,
    ) by {
        let i = position(entries, other);
        assert(after[i].address == other);
        lemma_position(after, i);
    }
}

/// Creating a record at a free address keeps the addresses distinct.
pub proof fn lemma_created_distinct(entries: Seq<Entry>, address: Address, account: Account)
    requires
        distinct(entries),
        !holds(entries, address),
    ensures
        distinct(created(entries, address, account)),
        holds(created(entries, address, account), address),
        account_at(created(entries, address, account), address) == account,
        forall|other: Address|
            holds(entries, other) ==> holds(created(entries, address, account), other) && account_at(
                created(entries, address, account),
                other,
            ) == account_at(entries, other),
{
    let after = created(entries, address, account);
    assert forall|i: int, j: int|
        0 <= i < after.len() && 0 <= j < after.len() && i != j implies (#[trigger] after[i]).address
        != (#[trigger] after[j]).address by {
        if i < entries.len() {
            assert(after[i] == entries[i]);
        }
        if j < entries.len() {
            assert(after[j] == entries[j]);
        }
    }
    let last = entries.len() as int;
    assert(after[last].address == address);
    lemma_position(after, last);
    assert forall|other: Address| holds(entries, other) implies holds(after, other) && account_at(
        after,
        other,
    ) == account_at(entries, other) by {
        let i = position(entries, other);
        assert(after[i] == entries[i]);
        lemma_position(after, i);
    }
}

/// Replacing a record by a sound one keeps every record sound.
pub proof fn lemma_replaced_sound(
    entries: Seq<Entry>,
    program_id: Address,
    address: Address,
    account: Account,
)
    requires
        all_sound(entries, program_id),
        holds(entries, address),
        sound(Entry { address, account }, program_id),
    ensures
        all_sound(replaced(entries, address, account), program_id),
{
    let after = replaced(entries, address, account);
    let p = position(entries, address);
    assert forall|i: int| 0 <= i < after.len() implies sound(#[trigger] after[i], program_id) by {
        if i != p {
            assert(after[i] == entries[i]);
        }
    }
}

/// Creating a sound record keeps every record sound.
pub proof fn lemma_created_sound(
    entries: Seq<Entry>,
    program_id: Address,
    address: Address,
    account: Account,
)
    requires
        all_sound(entries, program_id),
        sound(Entry { address, account }, program_id),
    ensures
        all_sound(created(entries, address, account), program_id),
{
    let after = created(entries, address, account);
    assert forall|i: int| 0 <= i < after.len() implies sound(#[trigger] after[i], program_id) by {
        if i < entries.len() {
            assert(after[i] == entries[i]);
        }
    }
}

/// Taking two records out and putting changed ones back in their places
/// gives the records with the two replaced.
pub proof fn lemma_two_replaced(entries: Seq<Entry>, i: int, k: int, first: Entry, second: Entry)
    requires
        0 <= i < entries.len(),
        0 <= k < entries.len(),
        i != k,
    ensures
        ({
            let shifted = if k > i {
                k - 1
            } else {
                k
            };
            entries.remove(i).remove(shifted).insert(shifted, second).insert(i, first)
        }) == entries.update(i, first).update(k, second),
{
    let shifted = if k > i {
        k - 1
    } else {
        k
    };
    let once = entries.remove(i);
    assert(once.remove(shifted).insert(shifted, second) =~= once.update(shifted, second));
    assert(once.update(shifted, second).insert(i, first) =~= entries.update(i, first).update(
        k,
        second,
    ));
}

/// After a record was replaced, the record at its address is the new one,
/// and the record at every other address is as before.
pub proof fn lemma_replaced_account(entries: Seq<Entry>, address: Address, account: Account)
    requires
        distinct(entries),
        holds(entries, address),
    ensures
        account_at(replaced(entries, address, account), address) == account,
        forall|other: Address|
            holds(entries, other) && other != address ==> account_at(
                replaced(entries, address, account),
                other,
            ) == account_at(entries, other),
{
    lemma_replaced_distinct(entries, address, account);
    let after = replaced(entries, address, account);
    assert forall|other: Address| holds(entries, other) && other != address implies account_at(
        after,
        other,
    ) == account_at(entries, other) by {
        let i = position(entries, other);
        assert(entries[i].address == other);
    }
}

impl View for Ledger {
    type V = Seq<Entry>;

    closed spec fn view(&self) -> Seq<Entry> {
        self.entries@
    }
}

impl Ledger {
    /// The program under whose id every address is derived.
    pub closed spec fn spec_program_id(&self) -> Address {
        self.program_id
    }

    /// What holds of every ledger that this library hands out: no two records
    /// share an address, and every record is sound.
    pub open spec fn wf(&self) -> bool {
        &&& distinct(self@)
        &&& all_sound(self@, self.spec_program_id())
    }

    /// A ledger without records.
    pub fn new(program_id: Address) -> (ledger: Ledger)
        ensures
            ledger.wf(),
            ledger@ == Seq::<Entry>::empty(),
            crate::totals::credits_balanced(ledger@),
            crate::totals::projects_counted(ledger@),
            ledger.spec_program_id() == program_id,
    {
        Ledger { program_id, entries: Vec::new() }
    }

    /// The program under whose id every address is derived.
    pub fn program_id(&self) -> (r: Address)
        ensures
            r == self.spec_program_id(),
    {
        self.program_id
    }

    /// The number of records.
    pub fn len(&self) -> (r: usize)
        ensures
            r == self@.len(),
    {
        self.entries.len()
    }

    /// The place of the record at `address`, if there is one.
    pub fn find(&self, address: &Address) -> (r: Option<usize>)
        requires
            distinct(self@),
        ensures
            r is Some == holds(self@, *address),
            r matches Some(i) ==> i == position(self@, *address) && i < self@.len() && self@[i as int].address
                == *address,
    {
        let mut i: usize = 0;
        while i < self.entries.len()
            invariant
                i <= self.entries.len(),
                distinct(self@),
                forall|j: int| 0 <= j < i ==> (#[trigger] self.entries@[j]).address != *address,
            decreases self.entries.len() - i,
        {
            if self.entries[i].address == *address {
                proof {
                    lemma_position(self@, i as int);
                }
                return Some(i);
            }
            i += 1;
        }
        None
    }

    /// The record at `address`, if there is one.
    pub fn get(&self, address: &Address) -> (r: Option<&Account>)
        requires
            distinct(self@),
        ensures
            r is Some == holds(self@, *address),
            r matches Some(account) ==> *account == account_at(self@, *address),
    {
        match self.find(address) {
            Some(i) => Some(&self.entries[i].account),
            None => None,
        }
    }

    /// The registry at `address`, if a registry lies there.
    pub fn registry(&self, address: &Address) -> (r: Option<&GlobalRegistry>)
        requires
            distinct(self@),
        ensures
            r is Some == (holds(self@, *address) && account_at(self@, *address) is Registry),
            r matches Some(registry) ==> account_at(self@, *address) == Account::Registry(*registry),
    {
        match self.get(address) {
            Some(Account::Registry(registry)) => Some(registry),
            _ => None,
        }
    }

    /// The project at `address`, if a project lies there.
    pub fn project(&self, address: &Address) -> (r: Option<&Project>)
        requires
            distinct(self@),
        ensures
            r is Some == (holds(self@, *address) && account_at(self@, *address) is Project),
            r matches Some(project) ==> account_at(self@, *address) == Account::Project(*project),
    {
        match self.get(address) {
            Some(Account::Project(project)) => Some(project),
            _ => None,
        }
    }

    /// The verifier at `address`, if a verifier lies there.
    pub fn verification_node(&self, address: &Address) -> (r: Option<&VerificationNode>)
        requires
            distinct(self@),
        ensures
            r is Some == (holds(self@, *address) && account_at(self@, *address) is Verifier),
            r matches Some(verifier) ==> account_at(self@, *address) == Account::Verifier(*verifier),
    {
        match self.get(address) {
            Some(Account::Verifier(verifier)) => Some(verifier),
            _ => None,
        }
    }

    /// The observation at `address`, if an observation lies there.
    pub fn monitoring_data(&self, address: &Address) -> (r: Option<&MonitoringData>)
        requires
            distinct(self@),
        ensures
            r is Some == (holds(self@, *address) && account_at(self@, *address) is Monitoring),
            r matches Some(monitoring) ==> account_at(self@, *address) == Account::Monitoring(
                *monitoring,
            ),
    {
        match self.get(address) {
            Some(Account::Monitoring(monitoring)) => Some(monitoring),
            _ => None,
        }
    }

    /// The offer at `address`, if an offer lies there.
    pub fn listing(&self, address: &Address) -> (r: Option<&CarbonCreditListing>)
        requires
            distinct(self@),
        ensures
            r is Some == (holds(self@, *address) && account_at(self@, *address) is Listing),
            r matches Some(listing) ==> account_at(self@, *address) == Account::Listing(*listing),
    {
        match self.get(address) {
            Some(Account::Listing(listing)) => Some(listing),
            _ => None,
        }
    }

    /// The report at `address`, if a report lies there.
    pub fn impact_report(&self, address: &Address) -> (r: Option<&ImpactReport>)
        requires
            distinct(self@),
        ensures
            r is Some == (holds(self@, *address) && account_at(self@, *address) is ImpactReport),
            r matches Some(report) ==> account_at(self@, *address) == Account::ImpactReport(*report),
    {
        match self.get(address) {
            Some(Account::ImpactReport(report)) => Some(report),
            _ => None,
        }
    }

    /// The place of the project at `address`, or why there is none.
    pub(crate) fn peek_project(&self, address: &Address) -> (r: Result<usize, ErrorCode>)
        requires
            distinct(self@),
        ensures
            match r {
                Ok(i) => load_project(self@, *address) is Ok && i == position(self@, *address) && i
                    < self@.len() && self@[i as int].address == *address && self@[i as int].account
                    == Account::Project(load_project(self@, *address)->Ok_0),
                Err(e) => load_project(self@, *address) == Err::<Project, ErrorCode>(e),
            },
    {
        match self.find(address) {
            None => Err(ErrorCode::AccountNotInitialized),
            Some(i) => match &self.entries[i].account {
                Account::Project(_) => Ok(i),
                _ => Err(ErrorCode::AccountDiscriminatorMismatch),
            },
        }
    }

    /// The place of the verifier at `address`, or why there is none.
    pub(crate) fn peek_verifier(&self, address: &Address) -> (r: Result<usize, ErrorCode>)
        requires
            distinct(self@),
        ensures
            match r {
                Ok(i) => load_verifier(self@, *address) is Ok && i == position(self@, *address) && i
                    < self@.len() && self@[i as int].address == *address && self@[i as int].account
                    == Account::Verifier(load_verifier(self@, *address)->Ok_0),
                Err(e) => load_verifier(self@, *address) == Err::<VerificationNode, ErrorCode>(e),
            },
    {
        match self.find(address) {
            None => Err(ErrorCode::AccountNotInitialized),
            Some(i) => match &self.entries[i].account {
                Account::Verifier(_) => Ok(i),
                _ => Err(ErrorCode::AccountDiscriminatorMismatch),
            },
        }
    }

    /// The registry at `address` with its place, or why there is none.
    pub(crate) fn peek_registry(&self, address: &Address) -> (r: Result<
        (usize, GlobalRegistry),
        ErrorCode,
    >)
        requires
            distinct(self@),
        ensures
            match r {
                Ok((i, registry)) => load_registry(self@, *address) == Ok::<GlobalRegistry, ErrorCode>(
                    registry,
                ) && i == position(self@, *address) && i < self@.len() && self@[i as int].address
                    == *address && self@[i as int].account == Account::Registry(registry),
                Err(e) => load_registry(self@, *address) == Err::<GlobalRegistry, ErrorCode>(e),
            },
    {
        match self.find(address) {
            None => Err(ErrorCode::AccountNotInitialized),
            Some(i) => match &self.entries[i].account {
                Account::Registry(registry) => Ok((i, *registry)),
                _ => Err(ErrorCode::AccountDiscriminatorMismatch),
            },
        }
    }

    /// The project at the place `i`.
    pub(crate) fn project_ref(&self, i: usize) -> (project: &Project)
        requires
            i < self@.len(),
            self@[i as int].account is Project,
        ensures
            Account::Project(*project) == self@[i as int].account,
    {
        match &self.entries[i].account {
            Account::Project(project) => project,
            _ => unreached(),
        }
    }

    /// Takes the project at the place `i` out of the ledger.
    pub(crate) fn take_project(&mut self, i: usize) -> (project: Project)
        requires
            i < old(self)@.len(),
            old(self)@[i as int].account is Project,
        ensures
            Account::Project(project) == old(self)@[i as int].account,
            final(self)@ == old(self)@.remove(i as int),
            final(self).spec_program_id() == old(self).spec_program_id(),
    {
        match self.entries.remove(i).account {
            Account::Project(project) => project,
            _ => unreached(),
        }
    }

    /// Takes the verifier at the place `i` out of the ledger.
    pub(crate) fn take_verifier(&mut self, i: usize) -> (verifier: VerificationNode)
        requires
            i < old(self)@.len(),
            old(self)@[i as int].account is Verifier,
        ensures
            Account::Verifier(verifier) == old(self)@[i as int].account,
            final(self)@ == old(self)@.remove(i as int),
            final(self).spec_program_id() == old(self).spec_program_id(),
    {
        match self.entries.remove(i).account {
            Account::Verifier(verifier) => verifier,
            _ => unreached(),
        }
    }

    /// Puts a record into the ledger at the place `i`.
    pub(crate) fn put(&mut self, i: usize, address: Address, account: Account)
        requires
            i <= old(self)@.len(),
        ensures
            final(self)@ == old(self)@.insert(i as int, Entry { address, account }),
            final(self).spec_program_id() == old(self).spec_program_id(),
    {
        self.entries.insert(i, Entry { address, account });
    }

    /// Puts `account` in the place of the record at the place `i`.
    pub(crate) fn set(&mut self, i: usize, address: Address, account: Account)
        requires
            i < old(self)@.len(),
        ensures
            final(self)@ == old(self)@.update(i as int, Entry { address, account }),
            final(self).spec_program_id() == old(self).spec_program_id(),
    {
        let _ = self.entries.remove(i);
        self.entries.insert(i, Entry { address, account });
        assert(self.entries@ =~= old(self).entries@.update(i as int, Entry { address, account }));
    }

    /// Tests that a record can be created at `address` for `seeds`, and gives
    /// the bump seed of the address.
    pub fn claim(&self, seeds: &Vec<Vec<u8>>, address: &Address) -> (r: Result<u8, ErrorCode>)
        requires
            distinct(self@),
        ensures
            match claim_refusal(self@, self.spec_program_id(), seeds_view(*seeds), *address) {
                Some(e) => r == Err::<u8, ErrorCode>(e),
                None => r == Ok::<u8, ErrorCode>(
                    derives_to(seeds_view(*seeds), self.spec_program_id(), *address)->Some_0,
                ),
            },
    {
        let bump = match bump_for(seeds, &self.program_id, address) {
            Some(bump) => bump,
            None => {
                return Err(ErrorCode::ConstraintSeeds);
            },
        };
        if self.find(address).is_some() {
            return Err(ErrorCode::AddressAlreadyInUse);
        }
        Ok(bump)
    }

    /// Creates a record at `address` if none lies there, and refuses with
    /// `AddressAlreadyInUse` if one does.
    pub(crate) fn create(&mut self, address: Address, account: Account) -> (r: Result<(), ErrorCode>)
        requires
            distinct(old(self)@),
        ensures
            final(self).spec_program_id() == old(self).spec_program_id(),
            holds(old(self)@, address) ==> r == Err::<(), ErrorCode>(ErrorCode::AddressAlreadyInUse)
                && final(self)@ == old(self)@,
            !holds(old(self)@, address) ==> r is Ok && final(self)@ == created(
                old(self)@,
                address,
                account,
            ),
    {
        match self.find(&address) {
            Some(_) => Err(ErrorCode::AddressAlreadyInUse),
            None => {
                self.entries.push(Entry { address, account });
                Ok(())
            },
        }
    }
}

} // verus!
