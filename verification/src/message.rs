//! What the application reacts to.

use vstd::prelude::*;
use crate::importing::ImportStep;
use crate::importing::NewHireRecord;
use crate::screens::Page;

verus! {

/// A user action, or the outcome of work the host did on request.
#[derive(Debug, PartialEq, Eq)]
pub enum Message {
    ToggleSidebar,
    Navigate(Page),
    Noop,
    StartImport,
    ImportPrepared(Result<Vec<NewHireRecord>, String>),
    ProcessedRecord(Result<ImportStep, String>),
    DecideDuplicate { number: i64, overwrite: bool },
    DecideAll { overwrite: bool },
    DecisionApplied(Result<ImportStep, String>),
    ReportSeriesLoaded(Result<Vec<(i32, i32)>, String>),
    ReportStateCountsLoaded(Result<Vec<(String, i32)>, String>),
    ReportEmployeeTypeLoaded(Result<Vec<(String, i32)>, String>),
    ReportHeatmapLoaded(Result<(Vec<String>, Vec<String>, Vec<Vec<i32>>), String>),
    ReportRadarLoaded(Result<Vec<(String, i32)>, String>),
    ReportBreachRateLoaded(Result<(i32, i32), String>),
}

} // verus!
