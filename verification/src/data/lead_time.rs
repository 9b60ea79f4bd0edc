//! Lead times by ticket number, as the line chart takes them.

use vstd::prelude::*;
use crate::data::counts::spec_to_fixed;
use crate::data::counts::to_fixed;

verus! {

/// The points of the rows of ticket number and lead time, in the order of
/// the rows.
pub fn series_of(rows: &Vec<(i64, i64)>) -> (points: Vec<(i32, i32)>)
    ensures
        points@.len() == rows@.len(),
        forall|i: int|
            0 <= i < rows@.len() ==> (#[trigger] points@[i]).0 == spec_to_fixed(
                rows@[i].0 as int,
            ) && points@[i].1 == spec_to_fixed(rows@[i].1 as int),
{
    let mut points: Vec<(i32, i32)> = Vec::new();
    let mut i: usize = 0;
    while i < rows.len()
        invariant
            i <= rows@.len(),
            points@.len() == i,
            forall|j: int|
                0 <= j < i ==> (#[trigger] points@[j]).0 == spec_to_fixed(rows@[j].0 as int)
                    && points@[j].1 == spec_to_fixed(rows@[j].1 as int),
        decreases rows.len() - i,
    {
        points.push((to_fixed(rows[i].0), to_fixed(rows[i].1)));
        i += 1;
    }
    points
}

} // verus!
