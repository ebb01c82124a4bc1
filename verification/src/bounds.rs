use crate::address::Address;
use crate::capacity::verified_capacity;
use crate::ledger::created;
use crate::ledger::distinct;
use crate::ledger::holds;
use crate::ledger::position;
use crate::ledger::replaced;
use crate::ledger::Account;
use crate::ledger::Entry;
use crate::models::GlobalRegistry;
use crate::models::Project;
use crate::totals::projects_counted;
use crate::totals::totals;
use vstd::prelude::*;

verus! {

/// Every project's minted total lies within its verified capacity at the
/// precision of the registry.
pub open spec fn all_within_capacity(entries: Seq<Entry>) -> bool {
    forall|i: int, j: int|
        0 <= i < entries.len() && 0 <= j < entries.len() && (#[trigger] entries[i]).account is Project
            && (#[trigger] entries[j]).account is Registry ==> entries[i].account->Project_0.tokens_minted
            <= verified_capacity(
            entries[i].account->Project_0.carbon_tons_estimated,
            entries[j].account->Registry_0.decimals,
        )
}

/// Replacing a project by one that lies within its capacity at the precision
/// of every registry keeps every project within its capacity.
pub proof fn lemma_capacity_replaced_project(entries: Seq<Entry>, address: Address, project: Project)
    requires
        distinct(entries),
        all_within_capacity(entries),
        holds(entries, address),
        entries[position(entries, address)].account is Project,
        forall|j: int|
            0 <= j < entries.len() && (#[trigger] entries[j]).account is Registry
                ==> project.tokens_minted <= verified_capacity(
                project.carbon_tons_estimated,
                entries[j].account->Registry_0.decimals,
            ),
    ensures
        all_within_capacity(replaced(entries, address, Account::Project(project))),
{
    let after = replaced(entries, address, Account::Project(project));
    let p = position(entries, address);
    assert forall|i: int, j: int|
        0 <= i < after.len() && 0 <= j < after.len() && (#[trigger] after[i]).account is Project && (
        #[trigger] after[j]).account is Registry implies after[i].account->Project_0.tokens_minted
        <= verified_capacity(
        after[i].account->Project_0.carbon_tons_estimated,
        after[j].account->Registry_0.decimals,
    ) by {
        assert(j != p);
        assert(after[j] == entries[j]);
        if i != p {
            assert(after[i] == entries[i]);
        }
    }
}

/// Replacing the registry by one of the same precision keeps every project
/// within its capacity.
pub proof fn lemma_capacity_replaced_registry(
    entries: Seq<Entry>,
    address: Address,
    registry: GlobalRegistry,
)
    requires
        distinct(entries),
        all_within_capacity(entries),
        holds(entries, address),
        entries[position(entries, address)].account is Registry,
        entries[position(entries, address)].account->Registry_0.decimals == registry.decimals,
    ensures
        all_within_capacity(replaced(entries, address, Account::Registry(registry))),
{
    let after = replaced(entries, address, Account::Registry(registry));
    let p = position(entries, address);
    assert forall|i: int, j: int|
        0 <= i < after.len() && 0 <= j < after.len() && (#[trigger] after[i]).account is Project && (
        #[trigger] after[j]).account is Registry implies after[i].account->Project_0.tokens_minted
        <= verified_capacity(
        after[i].account->Project_0.carbon_tons_estimated,
        after[j].account->Registry_0.decimals,
    ) by {
        assert(i != p);
        assert(after[i] == entries[i]);
        if j != p {
            assert(after[j] == entries[j]);
        }
    }
}

/// Replacing a record that is neither a project nor the registry by another
/// such record keeps every project within its capacity.
pub proof fn lemma_capacity_replaced_other(entries: Seq<Entry>, address: Address, account: Account)
    requires
        all_within_capacity(entries),
        holds(entries, address),
        !(entries[position(entries, address)].account is Project),
        !(entries[position(entries, address)].account is Registry),
        !(account is Project),
        !(account is Registry),
    ensures
        all_within_capacity(replaced(entries, address, account)),
{
    let after = replaced(entries, address, account);
    let p = position(entries, address);
    assert forall|i: int, j: int|
        0 <= i < after.len() && 0 <= j < after.len() && (#[trigger] after[i]).account is Project && (
        #[trigger] after[j]).account is Registry implies after[i].account->Project_0.tokens_minted
        <= verified_capacity(
        after[i].account->Project_0.carbon_tons_estimated,
        after[j].account->Registry_0.decimals,
    ) by {
        assert(after[i] == entries[i]);
        assert(after[j] == entries[j]);
    }
}

/// Creating a record keeps every project within its capacity, where the
/// record is a project for which nothing is minted, or a registry while
/// there is no project, or of another kind.
pub proof fn lemma_capacity_created(entries: Seq<Entry>, address: Address, account: Account)
    requires
        all_within_capacity(entries),
        account is Project ==> account->Project_0.tokens_minted == 0,
        account is Registry ==> forall|i: int|
            0 <= i < entries.len() ==> !((#[trigger] entries[i]).account is Project),
    ensures
        all_within_capacity(created(entries, address, account)),
{
    let after = created(entries, address, account);
    assert forall|i: int, j: int|
        0 <= i < after.len() && 0 <= j < after.len() && (#[trigger] after[i]).account is Project && (
        #[trigger] after[j]).account is Registry implies after[i].account->Project_0.tokens_minted
        <= verified_capacity(
        after[i].account->Project_0.carbon_tons_estimated,
        after[j].account->Registry_0.decimals,
    ) by {
        if i < entries.len() {
            assert(after[i] == entries[i]);
        }
        if j < entries.len() {
            assert(after[j] == entries[j]);
        }
    }
}

/// Where the registry's count of projects is right and no registry is among
/// the records, no project is among them either.
pub proof fn lemma_no_registry_no_project(entries: Seq<Entry>, i: int)
    requires
        projects_counted(entries),
        forall|j: int| 0 <= j < entries.len() ==> !((#[trigger] entries[j]).account is Registry),
        0 <= i < entries.len(),
    ensures
        !(entries[i].account is Project),
{
    if entries[i].account is Project {
        lemma_recorded_without_registry(entries);
        lemma_project_counts(entries, i);
    }
}

/// Without a registry among the records, no project is on record.
proof fn lemma_recorded_without_registry(entries: Seq<Entry>)
    requires
        forall|j: int| 0 <= j < entries.len() ==> !((#[trigger] entries[j]).account is Registry),
    ensures
        totals(entries).projects_recorded == 0,
    decreases entries.len(),
{
    if entries.len() > 0 {
        let rest = entries.drop_last();
        assert forall|j: int| 0 <= j < rest.len() implies !((#[trigger] rest[j]).account
            is Registry) by {
            assert(rest[j] == entries[j]);
        }
        lemma_recorded_without_registry(rest);
        assert(!(entries[entries.len() - 1].account is Registry));
    }
}

/// A project among the records is counted.
proof fn lemma_project_counts(entries: Seq<Entry>, i: int)
    requires
        0 <= i < entries.len(),
        entries[i].account is Project,
    ensures
        totals(entries).projects >= 1,
    decreases entries.len(),
{
    if i < entries.len() - 1 {
        let rest = entries.drop_last();
        assert(rest[i] == entries[i]);
        lemma_project_counts(rest, i);
    }
}

} // verus!
