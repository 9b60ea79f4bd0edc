//! Share of records with breaches, as a circular gauge.

use vstd::prelude::*;
use vstd::string::*;
use crate::charts::circle::CircleChart;
use crate::charts::geometry::Color;
use crate::charts::model::CircleMetric;

verus! {

pub struct SlaBreachCircleReport;

impl SlaBreachCircleReport {
    pub fn title() -> (text: &'static str)
        ensures
            text@ == "SLA Breach Rate"@,
    {
        "SLA Breach Rate"
    }

    pub fn subtitle() -> (text: &'static str)
        ensures
            text@ == "Share of records with SLA breaches"@,
    {
        "Share of records with SLA breaches"
    }

    /// The gauge for the loaded counts: the breaches as the value and the
    /// total as the ceiling.
    pub fn chart(breaches: i32, total: i32) -> (chart: CircleChart)
        ensures
            chart.metric.label@ == "Breaches"@,
            chart.metric.value == breaches,
            chart.metric.max == total,
            chart.metric.color == (Color { r: 890, g: 400, b: 400, a: 1000 }),
            chart.interaction.enable_hover,
            chart.interaction.enable_zoom,
            chart.interaction.enable_pan,
            chart.interaction.enable_selection,
    {
        CircleChart::new(
            CircleMetric {
                label: String::from_str("Breaches"),
                value: breaches,
                max: total,
                color: Color { r: 890, g: 400, b: 400, a: 1000 },
            },
        )
    }
}

} // verus!
