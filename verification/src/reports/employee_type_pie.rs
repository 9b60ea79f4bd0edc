//! Share of records by employee type, as a pie.

use vstd::prelude::*;
use vstd::string::*;
use crate::charts::geometry::Color;
use crate::charts::model::PieSlice;
use crate::charts::pie::PieChart;

verus! {

pub struct EmployeeTypePieReport;

/// The colour of slice `index`: one of six, taken in turn.
pub open spec fn spec_palette(index: int) -> Color {
    let turn = index % 6;
    if turn == 0 {
        Color { r: 350, g: 620, b: 960, a: 1000 }
    } else if turn == 1 {
        Color { r: 420, g: 850, b: 530, a: 1000 }
    } else if turn == 2 {
        Color { r: 950, g: 670, b: 290, a: 1000 }
    } else if turn == 3 {
        Color { r: 890, g: 400, b: 400, a: 1000 }
    } else if turn == 4 {
        Color { r: 730, g: 540, b: 960, a: 1000 }
    } else {
        Color { r: 350, g: 850, b: 830, a: 1000 }
    }
}

/// The colour of slice `index`.
pub fn palette(index: usize) -> (color: Color)
    ensures
        color == spec_palette(index as int),
{
    let turn: usize = index % 6;
    if turn == 0 {
        Color { r: 350, g: 620, b: 960, a: 1000 }
    } else if turn == 1 {
        Color { r: 420, g: 850, b: 530, a: 1000 }
    } else if turn == 2 {
        Color { r: 950, g: 670, b: 290, a: 1000 }
    } else if turn == 3 {
        Color { r: 890, g: 400, b: 400, a: 1000 }
    } else if turn == 4 {
        Color { r: 730, g: 540, b: 960, a: 1000 }
    } else {
        Color { r: 350, g: 850, b: 830, a: 1000 }
    }
}

impl EmployeeTypePieReport {
    pub fn title() -> (text: &'static str)
        ensures
            text@ == "Employee Type Distribution"@,
    {
        "Employee Type Distribution"
    }

    pub fn subtitle() -> (text: &'static str)
        ensures
            text@ == "Share of records by employee type"@,
    {
        "Share of records by employee type"
    }

    /// The pie for the loaded counts: one slice per count, in order, each
    /// in the colour of its place.
    pub fn chart(points: &Vec<(String, i32)>) -> (chart: PieChart)
        ensures
            chart.slices@.len() == points@.len(),
            forall|i: int|
                0 <= i < points@.len() ==> {
                    &&& (#[trigger] chart.slices@[i]).label@ == points@[i].0@
                    &&& chart.slices@[i].value == points@[i].1
                    &&& chart.slices@[i].color == spec_palette(i)
                },
            chart.interaction.enable_hover,
            chart.interaction.enable_zoom,
            chart.interaction.enable_pan,
            chart.interaction.enable_selection,
    {
        let mut slices: Vec<PieSlice> = Vec::new();
        let mut i: usize = 0;
        while i < points.len()
            invariant
                i <= points@.len(),
                slices@.len() == i,
                forall|j: int|
                    0 <= j < i ==> {
                        &&& (#[trigger] slices@[j]).label@ == points@[j].0@
                        &&& slices@[j].value == points@[j].1
                        &&& slices@[j].color == spec_palette(j)
                    },
            decreases points.len() - i,
        {
            slices.push(
                PieSlice { label: points[i].0.clone(), value: points[i].1, color: palette(i) },
            );
            i += 1;
        }
        PieChart::new(slices)
    }
}

} // verus!
