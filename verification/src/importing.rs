//! New-hire records, the comparison of a stored record with an incoming
//! one, and the progress record of an import.

use vstd::prelude::*;
use vstd::string::*;
use crate::text::signed_decimal;
use crate::text::signed_text;

verus! {

/// One row of the new-hire metrics table. `number` identifies the record.
#[derive(Debug, Clone, PartialEq, Eq)]
pub struct NewHireRecord {
    pub number: i64,
    pub state: Option<String>,
    pub title: Option<String>,
    pub assignee_name: Option<String>,
    pub requester: Option<String>,
    pub created_at: Option<String>,
    pub site: Option<String>,
    pub division: Option<String>,
    pub employee_type: Option<String>,
    pub start_date: Option<String>,
    pub success_factors_date_entered: Option<String>,
    pub day_1_or_day_3: Option<String>,
    pub to_first_response_business: Option<String>,
    pub to_resolution_business: Option<String>,
    pub to_resolution_elapsed: Option<String>,
    pub sla_breaches: Option<String>,
    pub resolved_at: Option<String>,
    pub it_lead_time_elapsed: Option<i64>,
    pub it_lead_time_business: Option<i64>,
}

/// One row as it is read from a file: the number may be missing.
#[derive(Debug, Clone, PartialEq, Eq)]
pub struct NewHireCsvRow {
    pub number: Option<i64>,
    pub state: Option<String>,
    pub title: Option<String>,
    pub assignee_name: Option<String>,
    pub requester: Option<String>,
    pub created_at: Option<String>,
    pub site: Option<String>,
    pub division: Option<String>,
    pub employee_type: Option<String>,
    pub start_date: Option<String>,
    pub success_factors_date_entered: Option<String>,
    pub day_1_or_day_3: Option<String>,
    pub to_first_response_business: Option<String>,
    pub to_resolution_business: Option<String>,
    pub to_resolution_elapsed: Option<String>,
    pub sla_breaches: Option<String>,
    pub resolved_at: Option<String>,
    pub it_lead_time_elapsed: Option<i64>,
    pub it_lead_time_business: Option<i64>,
}

impl NewHireCsvRow {
    /// The record this row stands for; a missing number counts as zero.
    pub open spec fn spec_record(self) -> NewHireRecord {
        NewHireRecord {
            number: match self.number {
                Some(n) => n,
                None => 0,
            },
            state: self.state,
            title: self.title,
            assignee_name: self.assignee_name,
            requester: self.requester,
            created_at: self.created_at,
            site: self.site,
            division: self.division,
            employee_type: self.employee_type,
            start_date: self.start_date,
            success_factors_date_entered: self.success_factors_date_entered,
            day_1_or_day_3: self.day_1_or_day_3,
            to_first_response_business: self.to_first_response_business,
            to_resolution_business: self.to_resolution_business,
            to_resolution_elapsed: self.to_resolution_elapsed,
            sla_breaches: self.sla_breaches,
            resolved_at: self.resolved_at,
            it_lead_time_elapsed: self.it_lead_time_elapsed,
            it_lead_time_business: self.it_lead_time_business,
        }
    }

    pub fn into_record(self) -> (record: NewHireRecord)
        ensures
            record == self.spec_record(),
    {
        NewHireRecord {
            number: match self.number {
                Some(n) => n,
                None => 0,
            },
            state: self.state,
            title: self.title,
            assignee_name: self.assignee_name,
            requester: self.requester,
            created_at: self.created_at,
            site: self.site,
            division: self.division,
            employee_type: self.employee_type,
            start_date: self.start_date,
            success_factors_date_entered: self.success_factors_date_entered,
            day_1_or_day_3: self.day_1_or_day_3,
            to_first_response_business: self.to_first_response_business,
            to_resolution_business: self.to_resolution_business,
            to_resolution_elapsed: self.to_resolution_elapsed,
            sla_breaches: self.sla_breaches,
            resolved_at: self.resolved_at,
            it_lead_time_elapsed: self.it_lead_time_elapsed,
            it_lead_time_business: self.it_lead_time_business,
        }
    }
}

impl From<NewHireCsvRow> for NewHireRecord {
    fn from(row: NewHireCsvRow) -> (record: Self) {
        row.into_record()
    }
}

impl vstd::std_specs::convert::FromSpecImpl<NewHireCsvRow> for NewHireRecord {
    open spec fn obeys_from_spec() -> bool {
        true
    }

    open spec fn from_spec(row: NewHireCsvRow) -> Self {
        row.spec_record()
    }
}

/// The records of the rows that carry a number, in the order of the rows.
pub open spec fn spec_records_of(rows: Seq<NewHireCsvRow>) -> Seq<NewHireRecord>
    decreases rows.len(),
{
    if rows.len() == 0 {
        Seq::empty()
    } else if rows.last().number is Some {
        spec_records_of(rows.drop_last()).push(rows.last().spec_record())
    } else {
        spec_records_of(rows.drop_last())
    }
}

/// Keeps the rows that carry a number and turns each into a record.
pub fn records_of(rows: Vec<NewHireCsvRow>) -> (records: Vec<NewHireRecord>)
    ensures
        records@ == spec_records_of(rows@),
{
    let ghost all = rows@;
    let mut rows = rows;
    let mut reversed: Vec<NewHireRecord> = Vec::new();
    // Rows are taken from the back, so the records come out back to front.
    while rows.len() > 0
        invariant
            rows@.len() <= all.len(),
            rows@ == all.subrange(0, rows@.len() as int),
            spec_records_of(all) == spec_records_of(rows@) + reversed@.reverse(),
        decreases rows.len(),
    {
        let row = rows.pop().unwrap();
        if row.number.is_some() {
            reversed.push(row.into_record());
        }
    }
    let mut records: Vec<NewHireRecord> = Vec::new();
    while reversed.len() > 0
        invariant
            spec_records_of(all) == records@ + reversed@.reverse(),
        decreases reversed.len(),
    {
        let record = reversed.pop().unwrap();
        records.push(record);
    }
    records
}

/// A copy of an optional text.
pub fn copy_text(value: &Option<String>) -> (copy: Option<String>)
    ensures
        copy == *value,
{
    match value {
        Some(text) => Some(text.clone()),
        None => None,
    }
}

/// A copy of a list of texts.
pub fn copy_texts(values: &Vec<String>) -> (copy: Vec<String>)
    ensures
        copy@ == values@,
{
    let mut copy: Vec<String> = Vec::new();
    let mut i: usize = 0;
    while i < values.len()
        invariant
            i <= values.len(),
            copy@ == values@.subrange(0, i as int),
        decreases values.len() - i,
    {
        copy.push(values[i].clone());
        i += 1;
    }
    copy
}

impl NewHireRecord {
    /// A copy of the record, field for field.
    pub fn duplicate(&self) -> (copy: NewHireRecord)
        ensures
            copy == *self,
    {
        NewHireRecord {
            number: self.number,
            state: copy_text(&self.state),
            title: copy_text(&self.title),
            assignee_name: copy_text(&self.assignee_name),
            requester: copy_text(&self.requester),
            created_at: copy_text(&self.created_at),
            site: copy_text(&self.site),
            division: copy_text(&self.division),
            employee_type: copy_text(&self.employee_type),
            start_date: copy_text(&self.start_date),
            success_factors_date_entered: copy_text(&self.success_factors_date_entered),
            day_1_or_day_3: copy_text(&self.day_1_or_day_3),
            to_first_response_business: copy_text(&self.to_first_response_business),
            to_resolution_business: copy_text(&self.to_resolution_business),
            to_resolution_elapsed: copy_text(&self.to_resolution_elapsed),
            sla_breaches: copy_text(&self.sla_breaches),
            resolved_at: copy_text(&self.resolved_at),
            it_lead_time_elapsed: self.it_lead_time_elapsed,
            it_lead_time_business: self.it_lead_time_business,
        }
    }
}

/// What the user is shown of an incoming record that is already stored
/// with other contents: which record, and what would change.
#[derive(Debug, Clone, PartialEq, Eq)]
pub struct PendingDuplicate {
    pub number: i64,
    pub title: Option<String>,
    pub created_at: Option<String>,
    pub changes: Vec<String>,
}

impl PendingDuplicate {
    pub fn from_record(record: &NewHireRecord, changes: Vec<String>) -> (pending: Self)
        ensures
            pending.number == record.number,
            pending.title == record.title,
            pending.created_at == record.created_at,
            pending.changes == changes,
    {
        PendingDuplicate {
            number: record.number,
            title: copy_text(&record.title),
            created_at: copy_text(&record.created_at),
            changes,
        }
    }

    /// A copy of the summary, field for field.
    pub fn duplicate(&self) -> (copy: PendingDuplicate)
        ensures
            copy.number == self.number,
            copy.title == self.title,
            copy.created_at == self.created_at,
            copy.changes@ == self.changes@,
    {
        PendingDuplicate {
            number: self.number,
            title: copy_text(&self.title),
            created_at: copy_text(&self.created_at),
            changes: copy_texts(&self.changes),
        }
    }
}

/// Where an import stands.
#[derive(Debug, Clone, Copy, PartialEq, Eq, Structural)]
pub enum ImportStatus {
    Idle,
    Loading,
    Importing,
    AwaitingDecision,
    Done,
    Error,
}

/// The progress of an import as it is shown to the user.
#[derive(Debug, Clone, PartialEq, Eq)]
pub struct ImportState {
    pub status: ImportStatus,
    pub inserted: usize,
    pub updated: usize,
    pub skipped: usize,
    pub total: usize,
    pub pending_duplicates: Vec<PendingDuplicate>,
    pub message: Option<String>,
}

impl ImportState {
    /// Nothing imported, nothing pending, no message.
    pub fn new() -> (state: Self)
        ensures
            state.status == ImportStatus::Idle,
            state.inserted == 0,
            state.updated == 0,
            state.skipped == 0,
            state.total == 0,
            state.pending_duplicates@.len() == 0,
            state.message is None,
    {
        ImportState {
            status: ImportStatus::Idle,
            inserted: 0,
            updated: 0,
            skipped: 0,
            total: 0,
            pending_duplicates: Vec::new(),
            message: None,
        }
    }

    /// Begins an import of `total` records: the counters, the pending
    /// duplicates and the message are reset.
    pub fn start(&mut self, total: usize)
        ensures
            final(self).status == ImportStatus::Importing,
            final(self).inserted == 0,
            final(self).updated == 0,
            final(self).skipped == 0,
            final(self).total == total,
            final(self).pending_duplicates@.len() == 0,
            final(self).message is None,
    {
        self.status = ImportStatus::Importing;
        self.inserted = 0;
        self.updated = 0;
        self.skipped = 0;
        self.total = total;
        self.pending_duplicates.clear();
        self.message = None;
    }

    /// Ends the import with an error; the counters stay.
    pub fn set_error(&mut self, message: String)
        ensures
            final(self).status == ImportStatus::Error,
            final(self).message == Some(message),
            final(self).inserted == old(self).inserted,
            final(self).updated == old(self).updated,
            final(self).skipped == old(self).skipped,
            final(self).total == old(self).total,
            final(self).pending_duplicates == old(self).pending_duplicates,
    {
        self.status = ImportStatus::Error;
        self.message = Some(message);
    }

    /// Replaces the message and nothing else.
    pub fn set_message(&mut self, message: String)
        ensures
            final(self).message == Some(message),
            final(self).status == old(self).status,
            final(self).inserted == old(self).inserted,
            final(self).updated == old(self).updated,
            final(self).skipped == old(self).skipped,
            final(self).total == old(self).total,
            final(self).pending_duplicates == old(self).pending_duplicates,
    {
        self.message = Some(message);
    }
}

/// An incoming record that differs from the stored one, with its summary.
#[derive(Debug, Clone, PartialEq, Eq)]
pub struct DuplicateEntry {
    pub record: NewHireRecord,
    pub summary: PendingDuplicate,
}

/// What became of one record.
#[derive(Debug, Clone, PartialEq, Eq)]
pub enum ImportStep {
    Inserted,
    Duplicate(DuplicateEntry),
    Updated,
    SkippedUnchanged,
    SkippedDecision,
}

/// A value that has a text form.
pub trait Textual {
    spec fn text(&self) -> Seq<char>;

    fn to_text(&self) -> (s: String)
        ensures
            s@ == self.text(),
    ;
}

impl Textual for String {
    open spec fn text(&self) -> Seq<char> {
        self@
    }

    fn to_text(&self) -> (s: String) {
        self.clone()
    }
}

impl Textual for i64 {
    open spec fn text(&self) -> Seq<char> {
        signed_decimal(*self as int)
    }

    fn to_text(&self) -> (s: String) {
        signed_text(*self)
    }
}

/// The text of an optional value: its own text, or `none`.
pub open spec fn spec_format_opt<T: Textual>(value: Option<T>) -> Seq<char> {
    match value {
        Some(v) => v.text(),
        None => "none"@,
    }
}

pub fn format_opt<T: Textual>(value: Option<&T>) -> (s: String)
    ensures
        s@ == match value {
            Some(v) => v.text(),
            None => "none"@,
        },
{
    match value {
        Some(v) => v.to_text(),
        None => String::from_str("none"),
    }
}

/// One line of a comparison: the label, the old text and the new text.
pub open spec fn diff_line(label: Seq<char>, old_text: Seq<char>, new_text: Seq<char>) -> Seq<
    char,
> {
    label + ": "@ + old_text + " -> "@ + new_text
}

/// Whether two optional texts read the same.
pub open spec fn same_text(a: Option<String>, b: Option<String>) -> bool {
    match (a, b) {
        (None, None) => true,
        (Some(x), Some(y)) => x@ == y@,
        _ => false,
    }
}

/// The lines a text field adds to a comparison: one if it changed, none
/// if it did not.
pub open spec fn string_diff(
    label: Seq<char>,
    old_value: Option<String>,
    new_value: Option<String>,
) -> Seq<Seq<char>> {
    if same_text(old_value, new_value) {
        Seq::empty()
    } else {
        seq![diff_line(label, spec_format_opt(old_value), spec_format_opt(new_value))]
    }
}

/// The lines a numeric field adds to a comparison: one if it changed, none
/// if it did not.
pub open spec fn i64_diff(label: Seq<char>, old_value: Option<i64>, new_value: Option<i64>) -> Seq<
    Seq<char>,
> {
    if old_value == new_value {
        Seq::empty()
    } else {
        seq![diff_line(label, spec_format_opt(old_value), spec_format_opt(new_value))]
    }
}

fn line_of(label: &str, old_text: String, new_text: String) -> (line: String)
    ensures
        line@ == diff_line(label@, old_text@, new_text@),
{
    let mut line = String::from_str(label);
    line.append(": ");
    line.append(old_text.as_str());
    line.append(" -> ");
    line.append(new_text.as_str());
    line
}

fn texts_equal(a: &Option<String>, b: &Option<String>) -> (same: bool)
    ensures
        same == same_text(*a, *b),
{
    match (a, b) {
        (None, None) => true,
        (Some(x), Some(y)) => *x == *y,
        _ => false,
    }
}

/// Appends to `diffs` the line for one text field, if the field changed.
pub fn diff_opt_string(
    diffs: &mut Vec<String>,
    label: &str,
    old_value: &Option<String>,
    new_value: &Option<String>,
)
    ensures
        final(diffs).deep_view() == old(diffs).deep_view() + string_diff(
            label@,
            *old_value,
            *new_value,
        ),
{
    if !texts_equal(old_value, new_value) {
        let line = line_of(label, format_opt(old_value.as_ref()), format_opt(new_value.as_ref()));
        diffs.push(line);
    }
}

/// Appends to `diffs` the line for one numeric field, if the field changed.
pub fn diff_opt_i64(
    diffs: &mut Vec<String>,
    label: &str,
    old_value: Option<i64>,
    new_value: Option<i64>,
)
    ensures
        final(diffs).deep_view() == old(diffs).deep_view() + i64_diff(
            label@,
            old_value,
            new_value,
        ),
{
    let same: bool = match (old_value, new_value) {
        (None, None) => true,
        (Some(x), Some(y)) => x == y,
        _ => false,
    };
    if !same {
        let line = line_of(label, format_opt(old_value.as_ref()), format_opt(new_value.as_ref()));
        diffs.push(line);
    }
}

/// The lines that tell how `incoming` differs from `existing`, one for each
/// field that changed, in the order of the fields. The number is not
/// compared.
pub open spec fn spec_diff_records(existing: NewHireRecord, incoming: NewHireRecord) -> Seq<
    Seq<char>,
> {
    string_diff("state"@, existing.state, incoming.state) + string_diff(
        "title"@,
        existing.title,
        incoming.title,
    ) + string_diff("assignee"@, existing.assignee_name, incoming.assignee_name) + string_diff(
        "requester"@,
        existing.requester,
        incoming.requester,
    ) + string_diff("created_at"@, existing.created_at, incoming.created_at) + string_diff(
        "site"@,
        existing.site,
        incoming.site,
    ) + string_diff("division"@, existing.division, incoming.division) + string_diff(
        "employee_type"@,
        existing.employee_type,
        incoming.employee_type,
    ) + string_diff("start_date"@, existing.start_date, incoming.start_date) + string_diff(
        "success_factors"@,
        existing.success_factors_date_entered,
        incoming.success_factors_date_entered,
    ) + string_diff("day_1_or_day_3"@, existing.day_1_or_day_3, incoming.day_1_or_day_3)
        + string_diff(
        "first_response_business"@,
        existing.to_first_response_business,
        incoming.to_first_response_business,
    ) + string_diff(
        "resolution_business"@,
        existing.to_resolution_business,
        incoming.to_resolution_business,
    ) + string_diff(
        "resolution_elapsed"@,
        existing.to_resolution_elapsed,
        incoming.to_resolution_elapsed,
    ) + string_diff("sla_breaches"@, existing.sla_breaches, incoming.sla_breaches) + string_diff(
        "resolved_at"@,
        existing.resolved_at,
        incoming.resolved_at,
    ) + i64_diff(
        "it_lead_time_elapsed"@,
        existing.it_lead_time_elapsed,
        incoming.it_lead_time_elapsed,
    ) + i64_diff(
        "it_lead_time_business"@,
        existing.it_lead_time_business,
        incoming.it_lead_time_business,
    )
}

/// Compares a stored record with an incoming one.
pub fn diff_records(existing: &NewHireRecord, incoming: &NewHireRecord) -> (diffs: Vec<String>)
    ensures
        diffs.deep_view() == spec_diff_records(*existing, *incoming),
{
    let mut diffs: Vec<String> = Vec::new();
    diff_opt_string(&mut diffs, "state", &existing.state, &incoming.state);
    diff_opt_string(&mut diffs, "title", &existing.title, &incoming.title);
    diff_opt_string(&mut diffs, "assignee", &existing.assignee_name, &incoming.assignee_name);
    diff_opt_string(&mut diffs, "requester", &existing.requester, &incoming.requester);
    diff_opt_string(&mut diffs, "created_at", &existing.created_at, &incoming.created_at);
    diff_opt_string(&mut diffs, "site", &existing.site, &incoming.site);
    diff_opt_string(&mut diffs, "division", &existing.division, &incoming.division);
    diff_opt_string(&mut diffs, "employee_type", &existing.employee_type, &incoming.employee_type);
    diff_opt_string(&mut diffs, "start_date", &existing.start_date, &incoming.start_date);
    diff_opt_string(
        &mut diffs,
        "success_factors",
        &existing.success_factors_date_entered,
        &incoming.success_factors_date_entered,
    );
    diff_opt_string(
        &mut diffs,
        "day_1_or_day_3",
        &existing.day_1_or_day_3,
        &incoming.day_1_or_day_3,
    );
    diff_opt_string(
        &mut diffs,
        "first_response_business",
        &existing.to_first_response_business,
        &incoming.to_first_response_business,
    );
    diff_opt_string(
        &mut diffs,
        "resolution_business",
        &existing.to_resolution_business,
        &incoming.to_resolution_business,
    );
    diff_opt_string(
        &mut diffs,
        "resolution_elapsed",
        &existing.to_resolution_elapsed,
        &incoming.to_resolution_elapsed,
    );
    diff_opt_string(&mut diffs, "sla_breaches", &existing.sla_breaches, &incoming.sla_breaches);
    diff_opt_string(&mut diffs, "resolved_at", &existing.resolved_at, &incoming.resolved_at);
    diff_opt_i64(
        &mut diffs,
        "it_lead_time_elapsed",
        existing.it_lead_time_elapsed,
        incoming.it_lead_time_elapsed,
    );
    diff_opt_i64(
        &mut diffs,
        "it_lead_time_business",
        existing.it_lead_time_business,
        incoming.it_lead_time_business,
    );
    diffs
}

/// What a [`PendingDuplicate`] holds, with its list as a sequence.
pub struct PendingDuplicateView {
    pub number: i64,
    pub title: Option<String>,
    pub created_at: Option<String>,
    pub changes: Seq<String>,
}

impl View for PendingDuplicate {
    type V = PendingDuplicateView;

    open spec fn view(&self) -> PendingDuplicateView {
        PendingDuplicateView {
            number: self.number,
            title: self.title,
            created_at: self.created_at,
            changes: self.changes@,
        }
    }
}

/// What a [`DuplicateEntry`] holds.
pub struct DuplicateEntryView {
    pub record: NewHireRecord,
    pub summary: PendingDuplicateView,
}

impl View for DuplicateEntry {
    type V = DuplicateEntryView;

    open spec fn view(&self) -> DuplicateEntryView {
        DuplicateEntryView { record: self.record, summary: self.summary@ }
    }
}

/// What an [`ImportStep`] holds.
pub enum ImportStepView {
    Inserted,
    Duplicate(DuplicateEntryView),
    Updated,
    SkippedUnchanged,
    SkippedDecision,
}

impl View for ImportStep {
    type V = ImportStepView;

    open spec fn view(&self) -> ImportStepView {
        match *self {
            ImportStep::Inserted => ImportStepView::Inserted,
            ImportStep::Duplicate(entry) => ImportStepView::Duplicate(entry@),
            ImportStep::Updated => ImportStepView::Updated,
            ImportStep::SkippedUnchanged => ImportStepView::SkippedUnchanged,
            ImportStep::SkippedDecision => ImportStepView::SkippedDecision,
        }
    }
}

/// The summaries of a list of pending duplicates, in order.
pub open spec fn summaries(pending: Seq<PendingDuplicate>) -> Seq<PendingDuplicateView> {
    Seq::new(pending.len(), |i: int| pending[i]@)
}

/// What an [`ImportState`] holds, with its message as characters.
pub struct ImportStateView {
    pub status: ImportStatus,
    pub inserted: usize,
    pub updated: usize,
    pub skipped: usize,
    pub total: usize,
    pub pending_duplicates: Seq<PendingDuplicateView>,
    pub message: Option<Seq<char>>,
}

impl View for ImportState {
    type V = ImportStateView;

    open spec fn view(&self) -> ImportStateView {
        ImportStateView {
            status: self.status,
            inserted: self.inserted,
            updated: self.updated,
            skipped: self.skipped,
            total: self.total,
            pending_duplicates: summaries(self.pending_duplicates@),
            message: match self.message {
                Some(text) => Some(text@),
                None => None,
            },
        }
    }
}

/// What is to be done with an incoming record.
#[derive(Debug, Clone, PartialEq, Eq)]
pub enum RecordPlan {
    /// No record of that number is stored: store this one.
    Insert(NewHireRecord),
    /// The stored record reads the same: leave it.
    Skip,
    /// The stored record reads otherwise: ask the user.
    Review(DuplicateEntry),
}

/// Decides what is to be done with an incoming record, given the stored
/// record of the same number, if there is one.
pub fn plan_record(existing: Option<&NewHireRecord>, record: NewHireRecord) -> (plan: RecordPlan)
    ensures
        existing is None ==> plan == RecordPlan::Insert(record),
        existing matches Some(stored) ==> {
            let changes = spec_diff_records(*stored, record);
            &&& changes.len() == 0 ==> plan is Skip
            &&& changes.len() > 0 ==> {
                &&& plan matches RecordPlan::Review(entry)
                &&& entry.record == record
                &&& entry.summary.number == record.number
                &&& entry.summary.title == record.title
                &&& entry.summary.created_at == record.created_at
                &&& entry.summary.changes.deep_view() == changes
            }
        },
{
    match existing {
        None => RecordPlan::Insert(record),
        Some(stored) => {
            let changes = diff_records(stored, &record);
            if changes.len() == 0 {
                RecordPlan::Skip
            } else {
                let summary = PendingDuplicate::from_record(&record, changes);
                RecordPlan::Review(DuplicateEntry { record, summary })
            }
        },
    }
}

/// What became of a duplicate once the user decided: overwritten or left.
pub fn decision_step(overwrite: bool) -> (step: ImportStep)
    ensures
        overwrite ==> step is Updated,
        !overwrite ==> step is SkippedDecision,
{
    if overwrite {
        ImportStep::Updated
    } else {
        ImportStep::SkippedDecision
    }
}

} // verus!
