use crate::address::Address;
use crate::ledger::account_at;
use crate::ledger::created;
use crate::ledger::holds;
use crate::ledger::position;
use crate::ledger::replaced;
use crate::ledger::Account;
use crate::ledger::Entry;
use vstd::prelude::*;

verus! {

/// What the records add up to: the credits issued for the projects and the
/// number of projects, each beside what the registry has on record.
pub struct Totals {
    pub credits_issued: nat,
    pub credits_recorded: nat,
    pub projects: nat,
    pub projects_recorded: nat,
}

/// What one record adds to the totals.
pub open spec fn totals_of(account: Account) -> Totals {
    match account {
        Account::Project(project) => Totals {
            credits_issued: project.credits_issued as nat,
            credits_recorded: 0,
            projects: 1,
            projects_recorded: 0,
        },
        Account::Registry(registry) => Totals {
            credits_issued: 0,
            credits_recorded: registry.total_credits_issued as nat,
            projects: 0,
            projects_recorded: registry.total_projects as nat,
        },
        _ => Totals { credits_issued: 0, credits_recorded: 0, projects: 0, projects_recorded: 0 },
    }
}

/// Two totals added up.
pub open spec fn plus(a: Totals, b: Totals) -> Totals {
    Totals {
        credits_issued: a.credits_issued + b.credits_issued,
        credits_recorded: a.credits_recorded + b.credits_recorded,
        projects: a.projects + b.projects,
        projects_recorded: a.projects_recorded + b.projects_recorded,
    }
}

/// What all the records add up to.
pub open spec fn totals(entries: Seq<Entry>) -> Totals
    decreases entries.len(),
{
    if entries.len() == 0 {
        Totals { credits_issued: 0, credits_recorded: 0, projects: 0, projects_recorded: 0 }
    } else {
        plus(totals(entries.drop_last()), totals_of(entries.last().account))
    }
}

/// The registry's total of issued credits equals the sum of the credits
/// issued over all projects.
pub open spec fn credits_balanced(entries: Seq<Entry>) -> bool {
    totals(entries).credits_recorded == totals(entries).credits_issued
}

/// The registry's count of projects equals the number of project records.
pub open spec fn projects_counted(entries: Seq<Entry>) -> bool {
    totals(entries).projects_recorded == totals(entries).projects
}

/// A new record adds what it holds to the totals.
pub proof fn lemma_totals_created(entries: Seq<Entry>, address: Address, account: Account)
    ensures
        totals(created(entries, address, account)) == plus(totals(entries), totals_of(account)),
{
    assert(created(entries, address, account).drop_last() =~= entries);
}

/// A record put in the place of another adds what it holds in place of what
/// the other held.
pub proof fn lemma_totals_updated(entries: Seq<Entry>, i: int, entry: Entry)
    requires
        0 <= i < entries.len(),
    ensures
        plus(totals(entries.update(i, entry)), totals_of(entries[i].account)) == plus(
            totals(entries),
            totals_of(entry.account),
        ),
    decreases entries.len(),
{
    let after = entries.update(i, entry);
    if i == entries.len() - 1 {
        assert(after.drop_last() =~= entries.drop_last());
    } else {
        lemma_totals_updated(entries.drop_last(), i, entry);
        assert(after.drop_last() =~= entries.drop_last().update(i, entry));
    }
}

/// Replacing the record at an address changes the totals by what the new
/// record holds more or less than the old one.
pub proof fn lemma_totals_replaced(entries: Seq<Entry>, address: Address, account: Account)
    requires
        holds(entries, address),
    ensures
        plus(totals(replaced(entries, address, account)), totals_of(account_at(entries, address)))
            == plus(totals(entries), totals_of(account)),
{
    lemma_totals_updated(entries, position(entries, address), Entry { address, account });
}

} // verus!
