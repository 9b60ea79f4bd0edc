//! Elapsed lead time by ticket number, as a line.

use vstd::prelude::*;
use vstd::string::*;
use crate::charts::geometry::Color;
use crate::charts::line::LineChart;
use crate::charts::model::LineChartConfig;
use crate::charts::model::LineSeries;

verus! {

pub struct ItLeadTimeReport;

impl ItLeadTimeReport {
    pub fn title() -> (text: &'static str)
        ensures
            text@ == "IT Lead Time"@,
    {
        "IT Lead Time"
    }

    pub fn subtitle() -> (text: &'static str)
        ensures
            text@ == "Elapsed hours by ticket number"@,
    {
        "Elapsed hours by ticket number"
    }

    /// The line chart for the loaded points: one series that holds them in
    /// order.
    pub fn chart(points: &Vec<(i32, i32)>) -> (chart: LineChart)
        ensures
            chart.series@.len() == 1,
            chart.series@[0].name@ == "IT Lead Time (Elapsed)"@,
            chart.series@[0].color == (Color { r: 350, g: 620, b: 960, a: 1000 }),
            chart.series@[0].points@ == points@,
            chart.x_range is None,
            chart.y_range is None,
            chart.config.padding == 40_000,
            chart.config.grid_lines == 5,
            chart.interaction.enable_hover,
            chart.interaction.enable_zoom,
            chart.interaction.enable_pan,
            chart.interaction.enable_selection,
    {
        let mut copy: Vec<(i32, i32)> = Vec::new();
        let mut i: usize = 0;
        while i < points.len()
            invariant
                i <= points@.len(),
                copy@ == points@.subrange(0, i as int),
            decreases points.len() - i,
        {
            copy.push(points[i]);
            i += 1;
        }
        let mut series: Vec<LineSeries> = Vec::new();
        series.push(
            LineSeries::new(
                "IT Lead Time (Elapsed)",
                Color { r: 350, g: 620, b: 960, a: 1000 },
                copy,
            ),
        );
        LineChart::new(series).with_config(LineChartConfig { padding: 40_000, grid_lines: 5 })
    }
}

} // verus!
