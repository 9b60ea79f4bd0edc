//! Requests by state, as bars.

use vstd::prelude::*;
use vstd::string::*;
use crate::charts::bar::BarChart;
use crate::charts::geometry::Color;
use crate::charts::model::BarPoint;
use crate::charts::model::BarSeries;
use crate::charts::model::LineChartConfig;

verus! {

pub struct StateCountsBarReport;

impl StateCountsBarReport {
    pub fn title() -> (text: &'static str)
        ensures
            text@ == "Requests by State"@,
    {
        "Requests by State"
    }

    pub fn subtitle() -> (text: &'static str)
        ensures
            text@ == "Top 10 states by total records"@,
    {
        "Top 10 states by total records"
    }

    /// The bar chart for the loaded counts: one bar per count, in order.
    pub fn chart(points: &Vec<(String, i32)>) -> (chart: BarChart)
        ensures
            chart.series.name@ == "Requests"@,
            chart.series.color == (Color { r: 350, g: 620, b: 960, a: 1000 }),
            chart.series.values@.len() == points@.len(),
            forall|i: int|
                0 <= i < points@.len() ==> {
                    &&& (#[trigger] chart.series.values@[i]).label@ == points@[i].0@
                    &&& chart.series.values@[i].value == points@[i].1
                },
            chart.config.padding == 40_000,
            chart.config.grid_lines == 4,
            chart.interaction.enable_hover,
            chart.interaction.enable_zoom,
            chart.interaction.enable_pan,
            chart.interaction.enable_selection,
    {
        let mut values: Vec<BarPoint> = Vec::new();
        let mut i: usize = 0;
        while i < points.len()
            invariant
                i <= points@.len(),
                values@.len() == i,
                forall|j: int|
                    0 <= j < i ==> {
                        &&& (#[trigger] values@[j]).label@ == points@[j].0@
                        &&& values@[j].value == points@[j].1
                    },
            decreases points.len() - i,
        {
            values.push(BarPoint { label: points[i].0.clone(), value: points[i].1 });
            i += 1;
        }
        BarChart::new(
            BarSeries {
                name: String::from_str("Requests"),
                color: Color { r: 350, g: 620, b: 960, a: 1000 },
                values,
            },
        ).with_config(LineChartConfig { padding: 40_000, grid_lines: 4 })
    }
}

} // verus!
