//! Breaches of all records, as the circular gauge takes them.

use vstd::prelude::*;
use crate::charts::numeric::max_int;
use crate::data::counts::spec_to_fixed;
use crate::data::counts::to_fixed;

verus! {

/// The breaches and the total. The total counts as at least one, so that
/// the gauge has a ceiling.
pub fn rate_of(breaches: i64, total: i64) -> (rate: (i32, i32))
    ensures
        rate.0 == spec_to_fixed(breaches as int),
        rate.1 == max_int(spec_to_fixed(total as int), 1000),
{
    let ceiling: i32 = to_fixed(total);
    (
        to_fixed(breaches),
        if ceiling >= 1000 {
            ceiling
        } else {
            1000
        },
    )
}

} // verus!
