use crate::address::Address;
use crate::instructions::errors::ErrorCode;
use crate::layout::impact_report_fits;
use crate::layout::impact_report_len;
use crate::layout::IMPACT_REPORT_SPACE;
use crate::models::Decimal;
use crate::models::ImpactReport;
use crate::models::ImpactReportData;
use crate::models::PercentChange;
use crate::models::Project;
use vstd::prelude::*;

verus! {

/// Impact figures in the older form.
#[derive(Clone, Copy, Debug)]
pub struct ImpactData {
    pub co2_absorbed: Decimal,
    pub biodiversity_index: Decimal,
}

/// The party that hands in impact figures in the older form.
#[derive(Clone, Copy, Debug)]
pub struct TrackImpact {
    pub authority: Address,
}

/// Takes note of impact figures in the older form. It keeps nothing and
/// always succeeds.
pub fn track_impact(ctx: &TrackImpact, data: ImpactData) -> (r: Result<(), ErrorCode>)
    ensures
        r is Ok,
{
    Ok(())
}

/// By how much the current health score lies above the baseline; nothing
/// where the difference does not fit in 64 bits.
pub open spec fn health_improvement(baseline: Decimal, current: Decimal) -> Option<Decimal> {
    if i64::MIN <= current.micros - baseline.micros <= i64::MAX {
        Some(Decimal { micros: (current.micros - baseline.micros) as i64 })
    } else {
        None
    }
}

/// The growth of the species count over its baseline in percent, as the
/// fraction `(current - baseline) * 100 / baseline`; nothing where the
/// baseline is zero, for which no percentage is defined.
pub open spec fn biodiversity_increase(baseline: u32, current: u32) -> Option<PercentChange> {
    if baseline == 0 {
        None
    } else {
        Some(PercentChange { numerator: ((current - baseline) * 100) as i64, denominator: baseline })
    }
}

/// The report on `project` with the figures of `report_data`.
pub open spec fn new_impact_report(project: Project, report_data: ImpactReportData) -> ImpactReport {
    ImpactReport {
        project_id: report_data.project_id,
        reporting_period_start: report_data.reporting_period_start,
        reporting_period_end: report_data.reporting_period_end,
        carbon_sequestered: report_data.carbon_sequestered,
        ecosystem_health_improvement: health_improvement(
            project.baseline_ecosystem_health,
            project.current_ecosystem_health,
        ),
        biodiversity_increase: biodiversity_increase(
            project.species_count_baseline,
            project.species_count_current,
        ),
        community_benefits: report_data.community_benefits,
        economic_impact: report_data.economic_impact,
        sdg_contributions: report_data.sdg_contributions,
        verification_report_cid: report_data.verification_report_cid,
    }
}

/// The project once `species_count_current` species were counted.
pub open spec fn project_counted(project: Project, species_count_current: u32) -> Project {
    Project { species_count_current, ..project }
}

/// Computes the growth of a species count over its baseline.
pub fn compute_biodiversity_increase(baseline: u32, current: u32) -> (r: Option<PercentChange>)
    ensures
        r == biodiversity_increase(baseline, current),
        r is Some <==> baseline != 0,
{
    if baseline == 0 {
        return None;
    }
    let change: i64 = current as i64 - baseline as i64;
    Some(PercentChange { numerator: change * 100, denominator: baseline })
}

/// Computes by how much a health score lies above its baseline.
pub fn compute_health_improvement(baseline: Decimal, current: Decimal) -> (r: Option<Decimal>)
    ensures
        r == health_improvement(baseline, current),
{
    match current.micros.checked_sub(baseline.micros) {
        Some(micros) => Some(Decimal { micros }),
        None => None,
    }
}

/// Makes the report on a project for a period. The two derived figures come
/// from the project as it stands before the call: the health improvement is
/// current minus baseline, and the biodiversity increase is the growth of the
/// species count in percent, which is left out where the baseline count is
/// zero. After that the project's current species count is the one that the
/// report states. It is refused with `AccountDidNotSerialize`, and the
/// project left as it is, where the report does not fit in the room kept for
/// one.
pub fn generate_impact_report(project: &mut Project, report_data: ImpactReportData) -> (r: Result<
    ImpactReport,
    ErrorCode,
>)
    ensures
        impact_report_len(new_impact_report(*old(project), report_data)) <= IMPACT_REPORT_SPACE
            ==> r is Ok && r->Ok_0 == new_impact_report(*old(project), report_data) && *final(project) == project_counted(*old(project), report_data.species_count_current),
        impact_report_len(new_impact_report(*old(project), report_data)) > IMPACT_REPORT_SPACE
            ==> r is Err && r->Err_0 == ErrorCode::AccountDidNotSerialize && *final(project)
            == *old(project),
{
    let improvement = compute_health_improvement(
        project.baseline_ecosystem_health,
        project.current_ecosystem_health,
    );
    let increase = compute_biodiversity_increase(
        project.species_count_baseline,
        project.species_count_current,
    );
    let species_count_current = report_data.species_count_current;
    let report = ImpactReport {
        project_id: report_data.project_id,
        reporting_period_start: report_data.reporting_period_start,
        reporting_period_end: report_data.reporting_period_end,
        carbon_sequestered: report_data.carbon_sequestered,
        ecosystem_health_improvement: improvement,
        biodiversity_increase: increase,
        community_benefits: report_data.community_benefits,
        economic_impact: report_data.economic_impact,
        sdg_contributions: report_data.sdg_contributions,
        verification_report_cid: report_data.verification_report_cid,
    };
    if !impact_report_fits(&report) {
        return Err(ErrorCode::AccountDidNotSerialize);
    }
    project.species_count_current = species_count_current;
    Ok(report)
}

} // verus!
