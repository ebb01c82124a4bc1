use crate::models::CarbonCreditListing;
use crate::models::CommunityBenefit;
use crate::models::GeoLocation;
use crate::models::ImpactReport;
use crate::models::MonitoringData;
use crate::models::Project;
use crate::models::SensorReading;
use crate::models::TideReading;
use crate::models::VerificationNode;
use vstd::prelude::*;
use vstd::utf8::encode_utf8;

verus! {

/// The room kept for a project record, in bytes.
pub const PROJECT_SPACE: usize = Project::LEN;

/// The room kept for a verifier record, in bytes.
pub const VERIFIER_SPACE: usize = 1000;

/// The room kept for an observation, in bytes.
pub const MONITORING_SPACE: usize = 2000;

/// The room kept for an offer, in bytes.
pub const LISTING_SPACE: usize = 1000;

/// The room kept for a report, in bytes.
pub const IMPACT_REPORT_SPACE: usize = 1500;

/// The bytes that a text takes in a record: four for its length, then its
/// bytes.
pub open spec fn text_len(text: Seq<char>) -> nat {
    4 + encode_utf8(text).len()
}

/// The bytes that the texts of a list take together.
pub open spec fn texts_len(texts: Seq<String>) -> nat
    decreases texts.len(),
{
    if texts.len() == 0 {
        0
    } else {
        texts_len(texts.drop_last()) + text_len(texts.last()@)
    }
}

/// The bytes that one tide reading takes.
pub open spec fn tide_len(tide: TideReading) -> nat {
    16 + text_len(tide.tide_type@)
}

/// The bytes that the tide readings of a list take together.
pub open spec fn tides_len(tides: Seq<TideReading>) -> nat
    decreases tides.len(),
{
    if tides.len() == 0 {
        0
    } else {
        tides_len(tides.drop_last()) + tide_len(tides.last())
    }
}

/// The bytes that one sensor reading takes.
pub open spec fn sensor_len(sensor: SensorReading) -> nat {
    48 + text_len(sensor.sensor_id@)
}

/// The bytes that the sensor readings of a list take together.
pub open spec fn sensors_len(sensors: Seq<SensorReading>) -> nat
    decreases sensors.len(),
{
    if sensors.len() == 0 {
        0
    } else {
        sensors_len(sensors.drop_last()) + sensor_len(sensors.last())
    }
}

/// The bytes that one community benefit takes.
pub open spec fn benefit_len(benefit: CommunityBenefit) -> nat {
    20 + text_len(benefit.benefit_type@)
}

/// The bytes that the community benefits of a list take together.
pub open spec fn benefits_len(benefits: Seq<CommunityBenefit>) -> nat
    decreases benefits.len(),
{
    if benefits.len() == 0 {
        0
    } else {
        benefits_len(benefits.drop_last()) + benefit_len(benefits.last())
    }
}

/// The bytes that a location takes.
pub open spec fn location_len(location: GeoLocation) -> nat {
    20 + 16 * location.polygon_coordinates@.len() + text_len(location.country_code@) + text_len(
        location.region_name@,
    )
}

/// The bytes that a project record takes: 192 for its fields of fixed size
/// and the lengths of its lists, and what its texts and lists hold.
pub open spec fn project_len(project: Project) -> nat {
    192 + text_len(project.project_id@) + text_len(project.ipfs_cid@) + location_len(
        project.location,
    ) + texts_len(project.species_composition@) + text_len(project.measurement_methodology@)
        + text_len(project.vcs_methodology@) + text_len(project.additionality_proof_cid@)
        + text_len(project.monitoring_plan_cid@) + project.co_benefits@.len()
}

/// The bytes that a verifier record takes.
pub open spec fn verifier_len(verifier: VerificationNode) -> nat {
    66 + texts_len(verifier.credentials@) + verifier.specializations@.len()
}

/// The bytes that an observation takes.
pub open spec fn monitoring_len(monitoring: MonitoringData) -> nat {
    92 + text_len(monitoring.project_id@) + text_len(monitoring.satellite_imagery_cid@) + 8
        * monitoring.temperature_data@.len() + tides_len(monitoring.tide_data@) + sensors_len(
        monitoring.iot_sensor_data@,
    )
}

/// The bytes that an offer takes.
pub open spec fn listing_len(listing: CarbonCreditListing) -> nat {
    76 + text_len(listing.project_id@) + listing.co_benefits@.len() + texts_len(
        listing.certification_standards@,
    )
}

/// The bytes that a report takes.
pub open spec fn impact_report_len(report: ImpactReport) -> nat {
    88 + text_len(report.project_id@) + benefits_len(report.community_benefits@)
        + report.sdg_contributions@.len() + text_len(report.verification_report_cid@)
}

/// A count of the bytes that a record takes, against the room kept for it.
pub struct Meter {
    left: Option<usize>,
    space: Ghost<nat>,
    spent: Ghost<nat>,
}

impl Meter {
    /// The room that the meter started with.
    pub closed spec fn space(&self) -> nat {
        self.space@
    }

    /// The bytes counted so far.
    pub closed spec fn spent(&self) -> nat {
        self.spent@
    }

    /// The meter knows what is left while the count is within the room.
    pub closed spec fn wf(&self) -> bool {
        match self.left {
            Some(left) => self.spent@ + left == self.space@,
            None => self.spent@ > self.space@,
        }
    }

    /// A meter for a room of `space` bytes, with nothing counted.
    pub fn new(space: usize) -> (meter: Meter)
        ensures
            meter.wf(),
            meter.space() == space,
            meter.spent() == 0,
    {
        Meter { left: Some(space), space: Ghost(space as nat), spent: Ghost(0) }
    }

    /// Counts `cost` more bytes.
    pub fn add(&mut self, cost: usize)
        requires
            old(self).wf(),
        ensures
            final(self).wf(),
            final(self).space() == old(self).space(),
            final(self).spent() == old(self).spent() + cost,
    {
        self.left = match self.left {
            Some(left) => if cost <= left {
                Some(left - cost)
            } else {
                None
            },
            None => None,
        };
        self.spent = Ghost((self.spent@ + cost) as nat);
    }

    /// Counts `count` items of `each` bytes, after the four bytes of their number.
    pub fn add_items(&mut self, count: usize, each: usize)
        requires
            old(self).wf(),
        ensures
            final(self).wf(),
            final(self).space() == old(self).space(),
            final(self).spent() == old(self).spent() + 4 + each * count,
    {
        self.add(4);
        match each.checked_mul(count) {
            Some(cost) => {
                self.add(cost);
            },
            None => {
                self.left = None;
                self.spent = Ghost((self.spent@ + each * count) as nat);
            },
        }
    }

    /// Counts a text.
    pub fn add_text(&mut self, text: &str)
        requires
            old(self).wf(),
        ensures
            final(self).wf(),
            final(self).space() == old(self).space(),
            final(self).spent() == old(self).spent() + text_len(text@),
    {
        let bytes = text.as_bytes();
        self.add(4);
        self.add(bytes.len());
    }

    /// Counts a list of texts, after the four bytes of their number.
    pub fn add_texts(&mut self, texts: &Vec<String>)
        requires
            old(self).wf(),
        ensures
            final(self).wf(),
            final(self).space() == old(self).space(),
            final(self).spent() == old(self).spent() + 4 + texts_len(texts@),
    {
        self.add(4);
        let ghost start = self.spent();
        let mut i: usize = 0;
        while i < texts.len()
            invariant
                i <= texts.len(),
                self.wf(),
                self.space() == old(self).space(),
                self.spent() == start + texts_len(texts@.subrange(0, i as int)),
            decreases texts.len() - i,
        {
            assert(texts@.subrange(0, i + 1).drop_last() =~= texts@.subrange(0, i as int));
            self.add_text(texts[i].as_str());
            i += 1;
        }
        assert(texts@.subrange(0, texts.len() as int) =~= texts@);
    }

    /// Whether all that was counted lies within the room.
    pub fn fits(&self) -> (r: bool)
        requires
            self.wf(),
        ensures
            r == (self.spent() <= self.space()),
    {
        self.left.is_some()
    }
}

/// Whether a project record lies within the room kept for it.
pub fn project_fits(project: &Project) -> (r: bool)
    ensures
        r == (project_len(*project) <= PROJECT_SPACE),
{
    let mut meter = Meter::new(PROJECT_SPACE);
    meter.add(184);
    meter.add_text(project.project_id.as_str());
    meter.add_text(project.ipfs_cid.as_str());
    meter.add(16);
    meter.add_items(project.location.polygon_coordinates.len(), 16);
    meter.add_text(project.location.country_code.as_str());
    meter.add_text(project.location.region_name.as_str());
    meter.add_texts(&project.species_composition);
    meter.add_text(project.measurement_methodology.as_str());
    meter.add_text(project.vcs_methodology.as_str());
    meter.add_text(project.additionality_proof_cid.as_str());
    meter.add_text(project.monitoring_plan_cid.as_str());
    meter.add_items(project.co_benefits.len(), 1);
    meter.fits()
}

/// Whether a verifier record lies within the room kept for it.
pub fn verifier_fits(verifier: &VerificationNode) -> (r: bool)
    ensures
        r == (verifier_len(*verifier) <= VERIFIER_SPACE),
{
    let mut meter = Meter::new(VERIFIER_SPACE);
    meter.add(58);
    meter.add_texts(&verifier.credentials);
    meter.add_items(verifier.specializations.len(), 1);
    meter.fits()
}

/// Whether an observation lies within the room kept for it.
pub fn monitoring_fits(monitoring: &MonitoringData) -> (r: bool)
    ensures
        r == (monitoring_len(*monitoring) <= MONITORING_SPACE),
{
    let mut meter = Meter::new(MONITORING_SPACE);
    meter.add(80);
    meter.add_text(monitoring.project_id.as_str());
    meter.add_text(monitoring.satellite_imagery_cid.as_str());
    meter.add_items(monitoring.temperature_data.len(), 8);
    meter.add(4);
    let ghost start = meter.spent();
    let mut i: usize = 0;
    while i < monitoring.tide_data.len()
        invariant
            i <= monitoring.tide_data.len(),
            meter.wf(),
            meter.space() == MONITORING_SPACE,
            meter.spent() == start + tides_len(monitoring.tide_data@.subrange(0, i as int)),
        decreases monitoring.tide_data.len() - i,
    {
        assert(monitoring.tide_data@.subrange(0, i + 1).drop_last()
            =~= monitoring.tide_data@.subrange(0, i as int));
        meter.add(16);
        meter.add_text(monitoring.tide_data[i].tide_type.as_str());
        i += 1;
    }
    assert(monitoring.tide_data@.subrange(0, monitoring.tide_data.len() as int)
        =~= monitoring.tide_data@);
    meter.add(4);
    let ghost start = meter.spent();
    let mut j: usize = 0;
    while j < monitoring.iot_sensor_data.len()
        invariant
            j <= monitoring.iot_sensor_data.len(),
            meter.wf(),
            meter.space() == MONITORING_SPACE,
            meter.spent() == start + sensors_len(monitoring.iot_sensor_data@.subrange(0, j as int)),
        decreases monitoring.iot_sensor_data.len() - j,
    {
        assert(monitoring.iot_sensor_data@.subrange(0, j + 1).drop_last()
            =~= monitoring.iot_sensor_data@.subrange(0, j as int));
        meter.add(48);
        meter.add_text(monitoring.iot_sensor_data[j].sensor_id.as_str());
        j += 1;
    }
    assert(monitoring.iot_sensor_data@.subrange(0, monitoring.iot_sensor_data.len() as int)
        =~= monitoring.iot_sensor_data@);
    meter.fits()
}

/// Whether an offer lies within the room kept for it.
pub fn listing_fits(listing: &CarbonCreditListing) -> (r: bool)
    ensures
        r == (listing_len(*listing) <= LISTING_SPACE),
{
    let mut meter = Meter::new(LISTING_SPACE);
    meter.add(68);
    meter.add_text(listing.project_id.as_str());
    meter.add_items(listing.co_benefits.len(), 1);
    meter.add_texts(&listing.certification_standards);
    meter.fits()
}

/// Whether a report lies within the room kept for it.
pub fn impact_report_fits(report: &ImpactReport) -> (r: bool)
    ensures
        r == (impact_report_len(*report) <= IMPACT_REPORT_SPACE),
{
    let mut meter = Meter::new(IMPACT_REPORT_SPACE);
    meter.add(80);
    meter.add_text(report.project_id.as_str());
    meter.add(4);
    let ghost start = meter.spent();
    let mut i: usize = 0;
    while i < report.community_benefits.len()
        invariant
            i <= report.community_benefits.len(),
            meter.wf(),
            meter.space() == IMPACT_REPORT_SPACE,
            meter.spent() == start + benefits_len(report.community_benefits@.subrange(0, i as int)),
        decreases report.community_benefits.len() - i,
    {
        assert(report.community_benefits@.subrange(0, i + 1).drop_last()
            =~= report.community_benefits@.subrange(0, i as int));
        meter.add(20);
        meter.add_text(report.community_benefits[i].benefit_type.as_str());
        i += 1;
    }
    assert(report.community_benefits@.subrange(0, report.community_benefits.len() as int)
        =~= report.community_benefits@);
    meter.add_items(report.sdg_contributions.len(), 1);
    meter.add_text(report.verification_report_cid.as_str());
    meter.fits()
}

} // verus!
