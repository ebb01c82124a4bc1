use crate::instructions::errors::ErrorCode;
use crate::layout::monitoring_fits;
use crate::layout::monitoring_len;
use crate::layout::MONITORING_SPACE;
use crate::models::Decimal;
use crate::models::MonitoringData;
use crate::models::MonitoringDataInput;
use crate::models::Project;
use vstd::prelude::*;

verus! {

/// The record of an observation that is handed in at the time `now`.
pub open spec fn new_monitoring_data(monitoring_data: MonitoringDataInput, now: i64) -> MonitoringData {
    MonitoringData {
        project_id: monitoring_data.project_id,
        timestamp: now,
        satellite_imagery_cid: monitoring_data.satellite_imagery_cid,
        ndvi_index: monitoring_data.ndvi_index,
        water_quality: monitoring_data.water_quality,
        temperature_data: monitoring_data.temperature_data,
        tide_data: monitoring_data.tide_data,
        iot_sensor_data: monitoring_data.iot_sensor_data,
        ecosystem_health_score: monitoring_data.ecosystem_health_score,
    }
}

/// The project once its health was observed to be `score`.
pub open spec fn project_observed(project: Project, score: Decimal) -> Project {
    Project { current_ecosystem_health: score, ..project }
}

/// Records an observation of a project's site, and sets the project's current
/// ecosystem health to the observed score. It is refused with
/// `AccountDidNotSerialize`, and the project left as it is, where the record
/// does not fit in the room kept for an observation.
pub fn submit_monitoring_data(
    project: &mut Project,
    monitoring_data: MonitoringDataInput,
    now: i64,
) -> (r: Result<MonitoringData, ErrorCode>)
    ensures
        monitoring_len(new_monitoring_data(monitoring_data, now)) <= MONITORING_SPACE ==> r is Ok
            && r->Ok_0 == new_monitoring_data(monitoring_data, now) && *final(project)
            == project_observed(*old(project), monitoring_data.ecosystem_health_score),
        monitoring_len(new_monitoring_data(monitoring_data, now)) > MONITORING_SPACE ==> r is Err
            && r->Err_0 == ErrorCode::AccountDidNotSerialize && *final(project) == *old(project),
{
    let monitoring = MonitoringData {
        project_id: monitoring_data.project_id,
        timestamp: now,
        satellite_imagery_cid: monitoring_data.satellite_imagery_cid,
        ndvi_index: monitoring_data.ndvi_index,
        water_quality: monitoring_data.water_quality,
        temperature_data: monitoring_data.temperature_data,
        tide_data: monitoring_data.tide_data,
        iot_sensor_data: monitoring_data.iot_sensor_data,
        ecosystem_health_score: monitoring_data.ecosystem_health_score,
    };
    if !monitoring_fits(&monitoring) {
        return Err(ErrorCode::AccountDidNotSerialize);
    }
    project.current_ecosystem_health = monitoring.ecosystem_health_score;
    Ok(monitoring)
}

} // verus!
