//! Value objects handed to the charts, and the per-chart interaction record.
//!
//! Series, grids, slices and axes are snapshots: a chart is built from one
//! and never changes it. Data values, like lengths, are counted in
//! thousandths.

use vstd::prelude::*;
use vstd::string::*;
use crate::charts::geometry::Color;
use crate::charts::geometry::Point;
use crate::charts::geometry::Vector;

verus! {

/// One polyline of a line chart. The order of `points` is the path order.
#[derive(Debug, Clone, PartialEq, Eq)]
pub struct LineSeries {
    pub name: String,
    pub color: Color,
    pub points: Vec<(i32, i32)>,
}

impl LineSeries {
    pub fn new(name: &str, color: Color, points: Vec<(i32, i32)>) -> (series: Self)
        ensures
            series.name@ == name@,
            series.color == color,
            series.points == points,
    {
        LineSeries { name: String::from_str(name), color, points }
    }
}

/// Rendering parameters of the charts that have a plot rectangle.
#[derive(Debug, Clone, Copy, PartialEq, Eq, Structural)]
pub struct LineChartConfig {
    /// Inset between the viewport and the plot rectangle, on every side.
    pub padding: i32,
    /// Number of equal divisions of each axis.
    pub grid_lines: usize,
}

impl Default for LineChartConfig {
    /// Forty pixels of padding and five divisions.
    fn default() -> (config: Self)
        ensures
            config.padding == 40_000,
            config.grid_lines == 5,
    {
        LineChartConfig { padding: 40_000, grid_lines: 5 }
    }
}

/// One bar: its label on the x axis and its height in data units.
#[derive(Debug, Clone, PartialEq, Eq)]
pub struct BarPoint {
    pub label: String,
    pub value: i32,
}

/// The bars of a bar chart; the position of a bar is its index.
#[derive(Debug, Clone, PartialEq, Eq)]
pub struct BarSeries {
    pub name: String,
    pub color: Color,
    pub values: Vec<BarPoint>,
}

/// One slice of a pie. Slices are laid out clockwise in the order given.
#[derive(Debug, Clone, PartialEq, Eq)]
pub struct PieSlice {
    pub label: String,
    pub value: i32,
    pub color: Color,
}

/// A grid of values; `values[row][col]` belongs to `y_labels[row]` and
/// `x_labels[col]`.
#[derive(Debug, Clone, PartialEq, Eq)]
pub struct HeatmapGrid {
    pub x_labels: Vec<String>,
    pub y_labels: Vec<String>,
    pub values: Vec<Vec<i32>>,
}

impl HeatmapGrid {
    /// There is one row per y label and one value per x label in each row.
    pub open spec fn well_formed(&self) -> bool {
        &&& self.values.len() == self.y_labels.len()
        &&& forall|row: int|
            0 <= row < self.values.len() ==> (#[trigger] self.values[row]).len()
                == self.x_labels.len()
    }

    /// Checks the dimensions of the grid.
    pub fn is_well_formed(&self) -> (ok: bool)
        ensures
            ok == self.well_formed(),
    {
        if self.values.len() != self.y_labels.len() {
            return false;
        }
        let mut row: usize = 0;
        while row < self.values.len()
            invariant
                row <= self.values.len(),
                self.values.len() == self.y_labels.len(),
                forall|r: int|
                    0 <= r < row ==> (#[trigger] self.values[r]).len() == self.x_labels.len(),
            decreases self.values.len() - row,
        {
            if self.values[row].len() != self.x_labels.len() {
                return false;
            }
            row += 1;
        }
        true
    }
}

/// The axes of a radar chart: one per label, all sharing one ceiling.
#[derive(Debug, Clone, PartialEq, Eq)]
pub struct RadarAxes {
    pub labels: Vec<String>,
    pub max_value: i32,
}

/// One polygon of a radar chart; `values[i]` lies on axis `i`.
#[derive(Debug, Clone, PartialEq, Eq)]
pub struct RadarSeries {
    pub name: String,
    pub color: Color,
    pub values: Vec<i32>,
}

/// A single ratio shown as a circular gauge.
#[derive(Debug, Clone, PartialEq, Eq)]
pub struct CircleMetric {
    pub label: String,
    pub value: i32,
    pub max: i32,
    pub color: Color,
}

/// What any of the six chart variants is built from.
#[derive(Debug, Clone, PartialEq, Eq)]
pub enum ChartData {
    Line(Vec<LineSeries>),
    Bar(BarSeries),
    Pie(Vec<PieSlice>),
    Heatmap(HeatmapGrid),
    Radar(RadarAxes, Vec<RadarSeries>),
    Circle(CircleMetric),
}

/// Gates on the classes of pointer and wheel events a chart reacts to.
#[derive(Debug, Clone, Copy, PartialEq, Eq, Structural)]
pub struct InteractionConfig {
    pub enable_hover: bool,
    pub enable_zoom: bool,
    pub enable_pan: bool,
    pub enable_selection: bool,
}

impl Default for InteractionConfig {
    /// Every class of event is enabled.
    fn default() -> (config: Self)
        ensures
            config.enable_hover,
            config.enable_zoom,
            config.enable_pan,
            config.enable_selection,
    {
        InteractionConfig {
            enable_hover: true,
            enable_zoom: true,
            enable_pan: true,
            enable_selection: true,
        }
    }
}

/// The view state of one chart instance: zoom, pan, and the anchors of a
/// drag in progress. Points are in the pixel space of the chart's viewport.
///
/// No drag is in progress while `pan_start` and `selection_start` are both
/// empty; a pan drag is in progress while `pan_start` is set; a selection is
/// being made or kept while `selection_start` is set.
#[derive(Debug, Clone, Copy, PartialEq, Eq)]
pub struct InteractionState {
    pub zoom: i32,
    pub pan: Vector,
    pub selection_start: Option<Point>,
    pub selection_end: Option<Point>,
    pub pan_start: Option<Point>,
    pub pan_origin: Vector,
}

impl Default for InteractionState {
    /// Zoom of one, no pan, no drag in progress.
    fn default() -> (state: Self)
        ensures
            state.zoom == 1000,
            state.pan == (Vector { x: 0, y: 0 }),
            state.selection_start is None,
            state.selection_end is None,
            state.pan_start is None,
            state.pan_origin == (Vector { x: 0, y: 0 }),
    {
        InteractionState {
            zoom: 1000,
            pan: Vector { x: 0, y: 0 },
            selection_start: None,
            selection_end: None,
            pan_start: None,
            pan_origin: Vector { x: 0, y: 0 },
        }
    }
}

} // verus!
