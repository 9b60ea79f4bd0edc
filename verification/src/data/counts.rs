//! Labelled counts, as the bar chart and the pie chart take them.

use vstd::prelude::*;
use vstd::string::*;
use crate::charts::numeric::sat;
use crate::charts::numeric::saturate;

verus! {

/// A whole number in thousandths, saturating.
pub open spec fn spec_to_fixed(count: int) -> int {
    sat(count * 1000)
}

pub fn to_fixed(count: i64) -> (value: i32)
    ensures
        value == spec_to_fixed(count as int),
{
    saturate(count as i128 * 1000)
}

/// The labelled values of labelled counts, in the order of the rows.
pub fn series_of(rows: &Vec<(String, i64)>) -> (points: Vec<(String, i32)>)
    ensures
        points@.len() == rows@.len(),
        forall|i: int|
            0 <= i < rows@.len() ==> (#[trigger] points@[i]).0@ == rows@[i].0@ && points@[i].1
                == spec_to_fixed(rows@[i].1 as int),
{
    let mut points: Vec<(String, i32)> = Vec::new();
    let mut i: usize = 0;
    while i < rows.len()
        invariant
            i <= rows@.len(),
            points@.len() == i,
            forall|j: int|
                0 <= j < i ==> (#[trigger] points@[j]).0@ == rows@[j].0@ && points@[j].1
                    == spec_to_fixed(rows@[j].1 as int),
        decreases rows.len() - i,
    {
        points.push((rows[i].0.clone(), to_fixed(rows[i].1)));
        i += 1;
    }
    points
}

} // verus!
