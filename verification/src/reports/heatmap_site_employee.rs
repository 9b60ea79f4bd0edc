//! Counts per site and employee type, as a heatmap.

use vstd::prelude::*;
use crate::charts::heatmap::HeatmapChart;
use crate::charts::model::HeatmapGrid;
use crate::charts::model::LineChartConfig;

verus! {

pub struct SiteEmployeeHeatmapReport;

impl SiteEmployeeHeatmapReport {
    pub fn title() -> (text: &'static str)
        ensures
            text@ == "Site vs Employee Type"@,
    {
        "Site vs Employee Type"
    }

    pub fn subtitle() -> (text: &'static str)
        ensures
            text@ == "Counts per site and employee type"@,
    {
        "Counts per site and employee type"
    }

    /// The heatmap for the loaded grid, with fifty pixels of padding.
    pub fn chart(grid: HeatmapGrid) -> (chart: HeatmapChart)
        ensures
            chart.grid == grid,
            chart.config.padding == 50_000,
            chart.config.grid_lines == 4,
            chart.interaction.enable_hover,
            chart.interaction.enable_zoom,
            chart.interaction.enable_pan,
            chart.interaction.enable_selection,
    {
        HeatmapChart::new(grid).with_config(LineChartConfig { padding: 50_000, grid_lines: 4 })
    }
}

} // verus!
