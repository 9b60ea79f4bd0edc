//! A snapshot of operational metrics, as a radar.

use vstd::prelude::*;
use vstd::string::*;
use crate::charts::geometry::Color;
use crate::charts::model::RadarAxes;
use crate::charts::model::RadarSeries;
use crate::charts::numeric::max_int;
use crate::charts::radar::RadarChart;

verus! {

pub struct LeadTimeRadarReport;

/// The largest of the first `k` metrics, but at least one unit.
pub open spec fn spec_ceiling(metrics: Seq<(String, i32)>, k: nat) -> int
    decreases k,
{
    if k == 0 {
        1000
    } else {
        max_int(spec_ceiling(metrics, (k - 1) as nat), metrics[k - 1].1 as int)
    }
}

impl LeadTimeRadarReport {
    pub fn title() -> (text: &'static str)
        ensures
            text@ == "Lead Time Overview"@,
    {
        "Lead Time Overview"
    }

    pub fn subtitle() -> (text: &'static str)
        ensures
            text@ == "Operational metrics snapshot"@,
    {
        "Operational metrics snapshot"
    }

    /// The radar for the loaded metrics: one axis per metric, one series
    /// that holds the values, and the largest value as the common ceiling.
    pub fn chart(metrics: &Vec<(String, i32)>) -> (chart: RadarChart)
        ensures
            chart.axes.labels@.len() == metrics@.len(),
            forall|i: int|
                0 <= i < metrics@.len() ==> (#[trigger] chart.axes.labels@[i])@ == metrics@[i].0@,
            chart.axes.max_value == spec_ceiling(metrics@, metrics@.len()),
            chart.series@.len() == 1,
            chart.series@[0].name@ == "Metrics"@,
            chart.series@[0].color == (Color { r: 350, g: 620, b: 960, a: 1000 }),
            chart.series@[0].values@.len() == metrics@.len(),
            forall|i: int|
                0 <= i < metrics@.len() ==> (#[trigger] chart.series@[0].values@[i])
                    == metrics@[i].1,
            chart.interaction.enable_hover,
            chart.interaction.enable_zoom,
            chart.interaction.enable_pan,
            chart.interaction.enable_selection,
    {
        let mut labels: Vec<String> = Vec::new();
        let mut values: Vec<i32> = Vec::new();
        let mut max_value: i32 = 1000;
        let mut i: usize = 0;
        while i < metrics.len()
            invariant
                i <= metrics@.len(),
                labels@.len() == i,
                values@.len() == i,
                forall|j: int| 0 <= j < i ==> (#[trigger] labels@[j])@ == metrics@[j].0@,
                forall|j: int| 0 <= j < i ==> (#[trigger] values@[j]) == metrics@[j].1,
                max_value == spec_ceiling(metrics@, i as nat),
            decreases metrics.len() - i,
        {
            labels.push(metrics[i].0.clone());
            values.push(metrics[i].1);
            if metrics[i].1 > max_value {
                max_value = metrics[i].1;
            }
            i += 1;
        }
        let mut series: Vec<RadarSeries> = Vec::new();
        series.push(
            RadarSeries {
                name: String::from_str("Metrics"),
                color: Color { r: 350, g: 620, b: 960, a: 1000 },
                values,
            },
        );
        RadarChart::new(RadarAxes { labels, max_value }, series)
    }
}

} // verus!
