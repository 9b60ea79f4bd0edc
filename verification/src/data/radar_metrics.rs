//! The four operational metrics, as the radar chart takes them.

use vstd::prelude::*;
use vstd::string::*;
use crate::data::counts::spec_to_fixed;
use crate::data::counts::to_fixed;

verus! {

/// The four metrics with their labels: the two mean lead times, which come
/// in thousandths, the number of breaches and the number of records.
pub fn metrics_of(
    avg_elapsed: i32,
    avg_business: i32,
    breaches: i64,
    total: i64,
) -> (metrics: Vec<(String, i32)>)
    ensures
        metrics@.len() == 4,
        metrics@[0].0@ == "Avg Elapsed"@,
        metrics@[0].1 == avg_elapsed,
        metrics@[1].0@ == "Avg Business"@,
        metrics@[1].1 == avg_business,
        metrics@[2].0@ == "Breach Count"@,
        metrics@[2].1 == spec_to_fixed(breaches as int),
        metrics@[3].0@ == "Total Records"@,
        metrics@[3].1 == spec_to_fixed(total as int),
{
    let mut metrics: Vec<(String, i32)> = Vec::new();
    metrics.push((String::from_str("Avg Elapsed"), avg_elapsed));
    metrics.push((String::from_str("Avg Business"), avg_business));
    metrics.push((String::from_str("Breach Count"), to_fixed(breaches)));
    metrics.push((String::from_str("Total Records"), to_fixed(total)));
    metrics
}

} // verus!
