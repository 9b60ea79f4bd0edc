//! The application without its window: what it shows, and how each message
//! changes that.
//!
//! The application never does outside work itself. [`App::update`] returns
//! a [`Command`] that names the work; the host does it and reports the
//! outcome as the next message.

use std::collections::VecDeque;
use vstd::prelude::*;
use vstd::string::*;
use crate::importing::DuplicateEntry;
use crate::importing::DuplicateEntryView;
use crate::importing::ImportState;
use crate::importing::ImportStateView;
use crate::importing::ImportStatus;
use crate::importing::ImportStep;
use crate::importing::ImportStepView;
use crate::importing::NewHireRecord;
use crate::importing::PendingDuplicate;
use crate::importing::PendingDuplicateView;
use crate::importing::summaries;
use crate::message::Message;
use crate::screens::Page;
use crate::text::append_decimal;
use crate::text::decimal;

verus! {

/// Work for the host to do.
#[derive(Debug, Clone, PartialEq, Eq)]
pub enum Command {
    /// Nothing.
    Idle,
    /// Load the data of all six reports, and report each as it arrives.
    LoadReports,
    /// Let the user pick a file, and start the import with its path.
    PickFile,
    /// Read the records of the file at this path.
    ReadCsv(String),
    /// Look this record up in the store, and store it if it is new.
    ProcessRecord(NewHireRecord),
    /// Overwrite the stored record with this one if the flag is set.
    ApplyDecision(NewHireRecord, bool),
}

/// The application state.
#[derive(Debug, Clone, PartialEq, Eq)]
pub struct App {
    pub current_page: Page,
    pub sidebar_collapsed: bool,
    pub import_state: ImportState,
    pub import_queue: VecDeque<NewHireRecord>,
    pub pending_duplicates: VecDeque<DuplicateEntry>,
    pub decision_queue: VecDeque<(NewHireRecord, bool)>,
    pub report_series: Vec<(i32, i32)>,
    pub report_loading: bool,
    pub report_error: Option<String>,
    pub report_state_counts: Vec<(String, i32)>,
    pub report_state_loading: bool,
    pub report_state_error: Option<String>,
    pub report_employee_counts: Vec<(String, i32)>,
    pub report_employee_loading: bool,
    pub report_employee_error: Option<String>,
    pub report_heatmap: Option<(Vec<String>, Vec<String>, Vec<Vec<i32>>)>,
    pub report_heatmap_loading: bool,
    pub report_heatmap_error: Option<String>,
    pub report_radar_metrics: Vec<(String, i32)>,
    pub report_radar_loading: bool,
    pub report_radar_error: Option<String>,
    pub report_breach_rate: Option<(i32, i32)>,
    pub report_breach_loading: bool,
    pub report_breach_error: Option<String>,
}

/// What an [`App`] holds, with its lists and queues as sequences.
pub struct AppView {
    pub current_page: Page,
    pub sidebar_collapsed: bool,
    pub import_state: ImportStateView,
    pub import_queue: Seq<NewHireRecord>,
    pub pending_duplicates: Seq<DuplicateEntryView>,
    pub decision_queue: Seq<(NewHireRecord, bool)>,
    pub report_series: Seq<(i32, i32)>,
    pub report_loading: bool,
    pub report_error: Option<String>,
    pub report_state_counts: Seq<(String, i32)>,
    pub report_state_loading: bool,
    pub report_state_error: Option<String>,
    pub report_employee_counts: Seq<(String, i32)>,
    pub report_employee_loading: bool,
    pub report_employee_error: Option<String>,
    pub report_heatmap: Option<(Vec<String>, Vec<String>, Vec<Vec<i32>>)>,
    pub report_heatmap_loading: bool,
    pub report_heatmap_error: Option<String>,
    pub report_radar_metrics: Seq<(String, i32)>,
    pub report_radar_loading: bool,
    pub report_radar_error: Option<String>,
    pub report_breach_rate: Option<(i32, i32)>,
    pub report_breach_loading: bool,
    pub report_breach_error: Option<String>,
}

/// The views of a queue of duplicates, in order.
pub open spec fn entries(queue: Seq<DuplicateEntry>) -> Seq<DuplicateEntryView> {
    Seq::new(queue.len(), |i: int| queue[i]@)
}

impl View for App {
    type V = AppView;

    open spec fn view(&self) -> AppView {
        AppView {
            current_page: self.current_page,
            sidebar_collapsed: self.sidebar_collapsed,
            import_state: self.import_state@,
            import_queue: self.import_queue@,
            pending_duplicates: entries(self.pending_duplicates@),
            decision_queue: self.decision_queue@,
            report_series: self.report_series@,
            report_loading: self.report_loading,
            report_error: self.report_error,
            report_state_counts: self.report_state_counts@,
            report_state_loading: self.report_state_loading,
            report_state_error: self.report_state_error,
            report_employee_counts: self.report_employee_counts@,
            report_employee_loading: self.report_employee_loading,
            report_employee_error: self.report_employee_error,
            report_heatmap: self.report_heatmap,
            report_heatmap_loading: self.report_heatmap_loading,
            report_heatmap_error: self.report_heatmap_error,
            report_radar_metrics: self.report_radar_metrics@,
            report_radar_loading: self.report_radar_loading,
            report_radar_error: self.report_radar_error,
            report_breach_rate: self.report_breach_rate,
            report_breach_loading: self.report_breach_loading,
            report_breach_error: self.report_breach_error,
        }
    }
}

/// A counter once counted up; it stops at the largest number it can hold.
pub open spec fn bump(n: usize) -> usize {
    if n < usize::MAX {
        (n + 1) as usize
    } else {
        n
    }
}

/// The message that tells how many duplicates wait for a decision.
pub open spec fn review_text(count: nat) -> Seq<char> {
    decimal(count) + " duplicate record(s) need review."@
}

/// The index of the first duplicate from `from` on whose record has the
/// given number.
pub open spec fn position_of(queue: Seq<DuplicateEntryView>, number: i64, from: nat) -> Option<
    int,
>
    decreases queue.len() - from,
{
    if from >= queue.len() {
        None
    } else if queue[from as int].record.number == number {
        Some(from as int)
    } else {
        position_of(queue, number, from + 1)
    }
}

/// The summaries without those of the given number.
pub open spec fn without(list: Seq<PendingDuplicateView>, number: i64) -> Seq<
    PendingDuplicateView,
>
    decreases list.len(),
{
    if list.len() == 0 {
        Seq::empty()
    } else if list.last().number == number {
        without(list.drop_last(), number)
    } else {
        without(list.drop_last(), number).push(list.last())
    }
}

/// The decisions that settle every duplicate of `queue` the same way.
pub open spec fn decisions(queue: Seq<DuplicateEntryView>, overwrite: bool) -> Seq<
    (NewHireRecord, bool),
> {
    Seq::new(queue.len(), |i: int| (queue[i].record, overwrite))
}

impl AppView {
    /// The same state with another import status.
    pub open spec fn with_status(self, status: ImportStatus) -> AppView {
        AppView { import_state: ImportStateView { status, ..self.import_state }, ..self }
    }

    /// The same state with another import message.
    pub open spec fn with_message(self, message: Seq<char>) -> AppView {
        AppView {
            import_state: ImportStateView { message: Some(message), ..self.import_state },
            ..self
        }
    }

    /// The state once the import failed with `error`.
    pub open spec fn failed(self, error: Seq<char>) -> AppView {
        self.with_status(ImportStatus::Error).with_message(error)
    }

    /// The state once the import is complete.
    pub open spec fn completed(self) -> AppView {
        self.with_status(ImportStatus::Done).with_message("Import complete."@)
    }

    /// Takes up the next record. With a record left in the queue, the host
    /// is to process it. With none left, the import is complete, unless
    /// duplicates wait for a decision.
    pub open spec fn next_record(self) -> (AppView, Command) {
        if self.import_queue.len() > 0 {
            (
                AppView { import_queue: self.import_queue.drop_first(), ..self },
                Command::ProcessRecord(self.import_queue.first()),
            )
        } else if self.pending_duplicates.len() == 0 {
            (self.completed(), Command::Idle)
        } else {
            (
                self.with_status(ImportStatus::AwaitingDecision).with_message(
                    review_text(self.pending_duplicates.len()),
                ),
                Command::Idle,
            )
        }
    }

    /// Takes up the next decision. With a decision left in the queue, the
    /// host is to apply it. With none left, the import is complete, unless
    /// duplicates still wait for a decision.
    pub open spec fn next_decision(self) -> (AppView, Command) {
        if self.decision_queue.len() > 0 {
            (
                AppView { decision_queue: self.decision_queue.drop_first(), ..self }.with_status(
                    ImportStatus::Importing,
                ),
                Command::ApplyDecision(
                    self.decision_queue.first().0,
                    self.decision_queue.first().1,
                ),
            )
        } else if self.pending_duplicates.len() == 0 {
            (self.completed(), Command::Idle)
        } else {
            (self, Command::Idle)
        }
    }

    /// Takes note of what became of one record and goes on: with the next
    /// record after an insertion, an unchanged record or a duplicate, with
    /// the next decision after a decision was applied.
    pub open spec fn after_step(self, step: ImportStepView) -> (AppView, Command) {
        match step {
            ImportStepView::Inserted => AppView {
                import_state: ImportStateView {
                    inserted: bump(self.import_state.inserted),
                    ..self.import_state
                },
                ..self
            }.next_record(),
            ImportStepView::Updated => AppView {
                import_state: ImportStateView {
                    updated: bump(self.import_state.updated),
                    ..self.import_state
                },
                ..self
            }.next_decision(),
            ImportStepView::SkippedUnchanged => AppView {
                import_state: ImportStateView {
                    skipped: bump(self.import_state.skipped),
                    ..self.import_state
                },
                ..self
            }.next_record(),
            ImportStepView::SkippedDecision => AppView {
                import_state: ImportStateView {
                    skipped: bump(self.import_state.skipped),
                    ..self.import_state
                },
                ..self
            }.next_decision(),
            ImportStepView::Duplicate(entry) => AppView {
                pending_duplicates: self.pending_duplicates.push(entry),
                import_state: ImportStateView {
                    pending_duplicates: self.import_state.pending_duplicates.push(entry.summary),
                    ..self.import_state
                },
                ..self
            }.next_record(),
        }
    }

    /// Begins the import of the records read. Without a record the import
    /// is done at once.
    pub open spec fn prepared(self, records: Seq<NewHireRecord>) -> (AppView, Command) {
        let started = AppView {
            import_queue: records,
            pending_duplicates: Seq::empty(),
            decision_queue: Seq::empty(),
            import_state: ImportStateView {
                status: ImportStatus::Importing,
                inserted: 0,
                updated: 0,
                skipped: 0,
                total: records.len() as usize,
                pending_duplicates: Seq::empty(),
                message: Some("Processing records..."@),
            },
            ..self
        };
        if records.len() == 0 {
            (
                started.with_status(ImportStatus::Done).with_message("No data rows found."@),
                Command::Idle,
            )
        } else {
            started.next_record()
        }
    }

    /// Settles the first waiting duplicate of the given number. Summaries
    /// of that number leave the list shown to the user.
    pub open spec fn decided(self, number: i64, overwrite: bool) -> (AppView, Command) {
        match position_of(self.pending_duplicates, number, 0) {
            Some(index) => AppView {
                pending_duplicates: self.pending_duplicates.remove(index),
                decision_queue: self.decision_queue.push(
                    (self.pending_duplicates[index].record, overwrite),
                ),
                import_state: ImportStateView {
                    pending_duplicates: without(self.import_state.pending_duplicates, number),
                    ..self.import_state
                },
                ..self
            }.next_decision(),
            None => (self, Command::Idle),
        }
    }

    /// Settles every waiting duplicate the same way.
    pub open spec fn decided_all(self, overwrite: bool) -> (AppView, Command) {
        AppView {
            pending_duplicates: Seq::empty(),
            decision_queue: self.decision_queue + decisions(self.pending_duplicates, overwrite),
            import_state: ImportStateView {
                pending_duplicates: Seq::empty(),
                ..self.import_state
            },
            ..self
        }.next_decision()
    }

    /// Shows another page. The reports page loads all its data anew.
    pub open spec fn navigated(self, page: Page) -> (AppView, Command) {
        if page == Page::Reports {
            (
                AppView {
                    current_page: page,
                    report_loading: true,
                    report_error: None,
                    report_state_loading: true,
                    report_state_error: None,
                    report_employee_loading: true,
                    report_employee_error: None,
                    report_heatmap_loading: true,
                    report_heatmap_error: None,
                    report_radar_loading: true,
                    report_radar_error: None,
                    report_breach_loading: true,
                    report_breach_error: None,
                    ..self
                },
                Command::LoadReports,
            )
        } else {
            (AppView { current_page: page, ..self }, Command::Idle)
        }
    }

    /// The state after one message, and the work it asks of the host.
    pub open spec fn after(self, message: Message) -> (AppView, Command) {
        match message {
            Message::ToggleSidebar => (
                AppView { sidebar_collapsed: !self.sidebar_collapsed, ..self },
                Command::Idle,
            ),
            Message::Navigate(page) => self.navigated(page),
            Message::Noop => (self, Command::Idle),
            Message::StartImport => (self, Command::PickFile),
            Message::ImportPrepared(Ok(records)) => self.prepared(records@),
            Message::ImportPrepared(Err(error)) => (self.failed(error@), Command::Idle),
            Message::ProcessedRecord(Ok(step)) => self.after_step(step@),
            Message::ProcessedRecord(Err(error)) => (self.failed(error@), Command::Idle),
            Message::DecideDuplicate { number, overwrite } => self.decided(number, overwrite),
            Message::DecideAll { overwrite } => self.decided_all(overwrite),
            Message::DecisionApplied(Ok(step)) => self.after_step(step@),
            Message::DecisionApplied(Err(error)) => (self.failed(error@), Command::Idle),
            Message::ReportSeriesLoaded(Ok(points)) => (
                AppView {
                    report_loading: false,
                    report_series: points@,
                    report_error: None,
                    ..self
                },
                Command::Idle,
            ),
            Message::ReportSeriesLoaded(Err(error)) => (
                AppView {
                    report_loading: false,
                    report_series: Seq::empty(),
                    report_error: Some(error),
                    ..self
                },
                Command::Idle,
            ),
            Message::ReportStateCountsLoaded(Ok(points)) => (
                AppView {
                    report_state_loading: false,
                    report_state_counts: points@,
                    report_state_error: None,
                    ..self
                },
                Command::Idle,
            ),
            Message::ReportStateCountsLoaded(Err(error)) => (
                AppView {
                    report_state_loading: false,
                    report_state_counts: Seq::empty(),
                    report_state_error: Some(error),
                    ..self
                },
                Command::Idle,
            ),
            Message::ReportEmployeeTypeLoaded(Ok(points)) => (
                AppView {
                    report_employee_loading: false,
                    report_employee_counts: points@,
                    report_employee_error: None,
                    ..self
                },
                Command::Idle,
            ),
            Message::ReportEmployeeTypeLoaded(Err(error)) => (
                AppView {
                    report_employee_loading: false,
                    report_employee_counts: Seq::empty(),
                    report_employee_error: Some(error),
                    ..self
                },
                Command::Idle,
            ),
            Message::ReportHeatmapLoaded(Ok(grid)) => (
                AppView {
                    report_heatmap_loading: false,
                    report_heatmap: Some(grid),
                    report_heatmap_error: None,
                    ..self
                },
                Command::Idle,
            ),
            Message::ReportHeatmapLoaded(Err(error)) => (
                AppView {
                    report_heatmap_loading: false,
                    report_heatmap: None,
                    report_heatmap_error: Some(error),
                    ..self
                },
                Command::Idle,
            ),
            Message::ReportRadarLoaded(Ok(metrics)) => (
                AppView {
                    report_radar_loading: false,
                    report_radar_metrics: metrics@,
                    report_radar_error: None,
                    ..self
                },
                Command::Idle,
            ),
            Message::ReportRadarLoaded(Err(error)) => (
                AppView {
                    report_radar_loading: false,
                    report_radar_metrics: Seq::empty(),
                    report_radar_error: Some(error),
                    ..self
                },
                Command::Idle,
            ),
            Message::ReportBreachRateLoaded(Ok(rate)) => (
                AppView {
                    report_breach_loading: false,
                    report_breach_rate: Some(rate),
                    report_breach_error: None,
                    ..self
                },
                Command::Idle,
            ),
            Message::ReportBreachRateLoaded(Err(error)) => (
                AppView {
                    report_breach_loading: false,
                    report_breach_rate: None,
                    report_breach_error: Some(error),
                    ..self
                },
                Command::Idle,
            ),
        }
    }
}

impl AppView {
    /// The state at start-up: the home page, the sidebar folded, nothing
    /// imported and nothing loaded.
    pub open spec fn initial() -> AppView {
        AppView {
            current_page: Page::Home,
            sidebar_collapsed: true,
            import_state: ImportStateView {
                status: ImportStatus::Idle,
                inserted: 0,
                updated: 0,
                skipped: 0,
                total: 0,
                pending_duplicates: Seq::empty(),
                message: None,
            },
            import_queue: Seq::empty(),
            pending_duplicates: Seq::empty(),
            decision_queue: Seq::empty(),
            report_series: Seq::empty(),
            report_loading: false,
            report_error: None,
            report_state_counts: Seq::empty(),
            report_state_loading: false,
            report_state_error: None,
            report_employee_counts: Seq::empty(),
            report_employee_loading: false,
            report_employee_error: None,
            report_heatmap: None,
            report_heatmap_loading: false,
            report_heatmap_error: None,
            report_radar_metrics: Seq::empty(),
            report_radar_loading: false,
            report_radar_error: None,
            report_breach_rate: None,
            report_breach_loading: false,
            report_breach_error: None,
        }
    }
}

fn bumped(n: usize) -> (next: usize)
    ensures
        next == bump(n),
{
    if n < usize::MAX {
        n + 1
    } else {
        n
    }
}

/// Adding an entry to a queue adds its view to the views.
proof fn lemma_entries_push(queue: Seq<DuplicateEntry>, entry: DuplicateEntry)
    ensures
        entries(queue.push(entry)) == entries(queue).push(entry@),
{
}

/// Adding a summary to a list adds its view to the views.
proof fn lemma_summaries_push(list: Seq<PendingDuplicate>, summary: PendingDuplicate)
    ensures
        summaries(list.push(summary)) == summaries(list).push(summary@),
{
}

impl App {
    /// The application at start-up.
    pub fn new() -> (app: Self)
        ensures
            app@ == AppView::initial(),
    {
        let app = App {
            current_page: Page::Home,
            sidebar_collapsed: true,
            import_state: ImportState::new(),
            import_queue: VecDeque::new(),
            pending_duplicates: VecDeque::new(),
            decision_queue: VecDeque::new(),
            report_series: Vec::new(),
            report_loading: false,
            report_error: None,
            report_state_counts: Vec::new(),
            report_state_loading: false,
            report_state_error: None,
            report_employee_counts: Vec::new(),
            report_employee_loading: false,
            report_employee_error: None,
            report_heatmap: None,
            report_heatmap_loading: false,
            report_heatmap_error: None,
            report_radar_metrics: Vec::new(),
            report_radar_loading: false,
            report_radar_error: None,
            report_breach_rate: None,
            report_breach_loading: false,
            report_breach_error: None,
        };
        assert(app@.import_state.pending_duplicates =~= Seq::empty());
        assert(app@.pending_duplicates =~= Seq::empty());
        app
    }

    fn complete(&mut self)
        ensures
            final(self)@ == old(self)@.completed(),
    {
        self.import_state.status = ImportStatus::Done;
        self.import_state.set_message(String::from_str("Import complete."));
    }

    fn fail(&mut self, error: String)
        ensures
            final(self)@ == old(self)@.failed(error@),
    {
        self.import_state.set_error(error);
    }

    /// Notes that the file at `path` is being read, and asks the host to
    /// read it.
    pub fn start_import_with_path(&mut self, path: String) -> (command: Command)
        ensures
            final(self)@ == old(self)@.with_status(ImportStatus::Loading).with_message(
                "Reading CSV..."@,
            ),
            command == Command::ReadCsv(path),
    {
        self.import_state.status = ImportStatus::Loading;
        self.import_state.set_message(String::from_str("Reading CSV..."));
        Command::ReadCsv(path)
    }

    /// Takes up the next record of the import queue.
    pub fn process_next_record(&mut self) -> (command: Command)
        ensures
            (final(self)@, command) == old(self)@.next_record(),
    {
        match self.import_queue.pop_front() {
            Some(record) => {
                Command::ProcessRecord(record)
            },
            None => {
                if self.pending_duplicates.len() == 0 {
                    self.complete();
                } else {
                    let mut message = String::new();
                    append_decimal(&mut message, self.pending_duplicates.len() as u64);
                    message.append(" duplicate record(s) need review.");
                    self.import_state.status = ImportStatus::AwaitingDecision;
                    self.import_state.set_message(message);
                }
                Command::Idle
            },
        }
    }

    /// Takes up the next decision of the decision queue.
    pub fn process_next_decision(&mut self) -> (command: Command)
        ensures
            (final(self)@, command) == old(self)@.next_decision(),
    {
        match self.decision_queue.pop_front() {
            Some(decision) => {
                self.import_state.status = ImportStatus::Importing;
                Command::ApplyDecision(decision.0, decision.1)
            },
            None => {
                if self.pending_duplicates.len() == 0 {
                    self.complete();
                }
                Command::Idle
            },
        }
    }

    /// Takes note of what became of one record and goes on.
    pub fn handle_import_step(&mut self, step: ImportStep) -> (command: Command)
        ensures
            (final(self)@, command) == old(self)@.after_step(step@),
    {
        match step {
            ImportStep::Inserted => {
                self.import_state.inserted = bumped(self.import_state.inserted);
                self.process_next_record()
            },
            ImportStep::Updated => {
                self.import_state.updated = bumped(self.import_state.updated);
                self.process_next_decision()
            },
            ImportStep::SkippedUnchanged => {
                self.import_state.skipped = bumped(self.import_state.skipped);
                self.process_next_record()
            },
            ImportStep::SkippedDecision => {
                self.import_state.skipped = bumped(self.import_state.skipped);
                self.process_next_decision()
            },
            ImportStep::Duplicate(entry) => {
                let summary = entry.summary.duplicate();
                proof {
                    lemma_entries_push(self.pending_duplicates@, entry);
                    lemma_summaries_push(self.import_state.pending_duplicates@, summary);
                }
                self.pending_duplicates.push_back(entry);
                self.import_state.pending_duplicates.push(summary);
                self.process_next_record()
            },
        }
    }

    fn prepare(&mut self, records: Vec<NewHireRecord>) -> (command: Command)
        ensures
            (final(self)@, command) == old(self)@.prepared(records@),
    {
        let total: usize = records.len();
        let ghost all = records@;
        let mut records = records;
        let mut queue: VecDeque<NewHireRecord> = VecDeque::new();
        while records.len() > 0
            invariant
                records@.len() <= all.len(),
                records@ + queue@ == all,
            decreases records.len(),
        {
            let ghost before = records@;
            let ghost queued = queue@;
            let record = records.pop().unwrap();
            queue.push_front(record);
        }
        self.import_queue = queue;
        self.pending_duplicates.clear();
        self.decision_queue.clear();
        self.import_state.start(total);
        self.import_state.set_message(String::from_str("Processing records..."));
        assert(summaries(self.import_state.pending_duplicates@) =~= Seq::empty());
        assert(entries(self.pending_duplicates@) =~= Seq::empty());
        if total == 0 {
            self.import_state.status = ImportStatus::Done;
            self.import_state.set_message(String::from_str("No data rows found."));
            return Command::Idle;
        }
        self.process_next_record()
    }

    fn find_duplicate(&self, number: i64) -> (found: Option<usize>)
        ensures
            match found {
                Some(index) => position_of(self@.pending_duplicates, number, 0) == Some(
                    index as int,
                ) && index < self.pending_duplicates@.len(),
                None => position_of(self@.pending_duplicates, number, 0) is None,
            },
    {
        let mut i: usize = 0;
        while i < self.pending_duplicates.len()
            invariant
                i <= self.pending_duplicates@.len(),
                position_of(self@.pending_duplicates, number, 0) == position_of(
                    self@.pending_duplicates,
                    number,
                    i as nat,
                ),
            decreases self.pending_duplicates.len() - i,
        {
            if self.pending_duplicates[i].record.number == number {
                return Some(i);
            }
            i += 1;
        }
        None
    }

    fn drop_summaries(&mut self, number: i64)
        ensures
            final(self)@ == (AppView {
                import_state: ImportStateView {
                    pending_duplicates: without(old(self)@.import_state.pending_duplicates, number),
                    ..old(self)@.import_state
                },
                ..old(self)@
            }),
    {
        let ghost all = summaries(self.import_state.pending_duplicates@);
        let mut kept: Vec<PendingDuplicate> = Vec::new();
        let mut i: usize = 0;
        while i < self.import_state.pending_duplicates.len()
            invariant
                i <= self.import_state.pending_duplicates@.len(),
                all == summaries(self.import_state.pending_duplicates@),
                *self == *old(self),
                summaries(kept@) == without(all.take(i as int), number),
            decreases self.import_state.pending_duplicates.len() - i,
        {
            let summary = &self.import_state.pending_duplicates[i];
            assert(all.take(i + 1).drop_last() =~= all.take(i as int));
            if summary.number != number {
                let copy = summary.duplicate();
                kept.push(copy);
            }
            i += 1;
        }
        assert(all.take(i as int) =~= all);
        self.import_state.pending_duplicates = kept;
    }

    fn decide(&mut self, number: i64, overwrite: bool) -> (command: Command)
        ensures
            (final(self)@, command) == old(self)@.decided(number, overwrite),
    {
        match self.find_duplicate(number) {
            Some(index) => {
                let ghost before = self.pending_duplicates@;
                match self.pending_duplicates.remove(index) {
                    Some(entry) => {
                        assert(entries(self.pending_duplicates@) =~= entries(before).remove(
                            index as int,
                        ));
                        self.drop_summaries(number);
                        self.decision_queue.push_back((entry.record, overwrite));
                        self.process_next_decision()
                    },
                    None => Command::Idle,
                }
            },
            None => Command::Idle,
        }
    }

    fn decide_all(&mut self, overwrite: bool) -> (command: Command)
        ensures
            (final(self)@, command) == old(self)@.decided_all(overwrite),
    {
        let ghost waiting = entries(self.pending_duplicates@);
        let ghost decided = self.decision_queue@;
        assert(waiting.skip(0) =~= waiting);
        let ghost mut taken: int = 0;
        while self.pending_duplicates.len() > 0
            invariant
                0 <= taken <= waiting.len(),
                entries(self.pending_duplicates@) == waiting.skip(taken),
                self.decision_queue@ == decided + decisions(waiting.take(taken), overwrite),
                self.current_page == old(self).current_page,
                self.sidebar_collapsed == old(self).sidebar_collapsed,
                self.import_state == old(self).import_state,
                self.import_queue == old(self).import_queue,
                self.report_series == old(self).report_series,
                self.report_loading == old(self).report_loading,
                self.report_error == old(self).report_error,
                self.report_state_counts == old(self).report_state_counts,
                self.report_state_loading == old(self).report_state_loading,
                self.report_state_error == old(self).report_state_error,
                self.report_employee_counts == old(self).report_employee_counts,
                self.report_employee_loading == old(self).report_employee_loading,
                self.report_employee_error == old(self).report_employee_error,
                self.report_heatmap == old(self).report_heatmap,
                self.report_heatmap_loading == old(self).report_heatmap_loading,
                self.report_heatmap_error == old(self).report_heatmap_error,
                self.report_radar_metrics == old(self).report_radar_metrics,
                self.report_radar_loading == old(self).report_radar_loading,
                self.report_radar_error == old(self).report_radar_error,
                self.report_breach_rate == old(self).report_breach_rate,
                self.report_breach_loading == old(self).report_breach_loading,
                self.report_breach_error == old(self).report_breach_error,
            decreases self.pending_duplicates.len(),
        {
            let ghost queue_before = self.pending_duplicates@;
            proof {
                assert(entries(queue_before).len() == queue_before.len());
            }
            let entry = self.pending_duplicates.pop_front().unwrap();
            self.decision_queue.push_back((entry.record, overwrite));
            proof {
                assert(entry@ == entries(queue_before)[0]);
                assert forall|i: int| 0 <= i < self.pending_duplicates@.len() implies entries(
                    self.pending_duplicates@,
                )[i] == waiting.skip(taken + 1)[i] by {
                    assert(entries(queue_before)[i + 1] == waiting.skip(taken)[i + 1]);
                }
                taken = taken + 1;
            }
        }
        assert(entries(self.pending_duplicates@) =~= Seq::empty());
        self.import_state.pending_duplicates.clear();
        assert(summaries(self.import_state.pending_duplicates@) =~= Seq::empty());
        self.process_next_decision()
    }

    fn navigate(&mut self, page: Page) -> (command: Command)
        ensures
            (final(self)@, command) == old(self)@.navigated(page),
    {
        self.current_page = page;
        if page == Page::Reports {
            self.report_loading = true;
            self.report_error = None;
            self.report_state_loading = true;
            self.report_state_error = None;
            self.report_employee_loading = true;
            self.report_employee_error = None;
            self.report_heatmap_loading = true;
            self.report_heatmap_error = None;
            self.report_radar_loading = true;
            self.report_radar_error = None;
            self.report_breach_loading = true;
            self.report_breach_error = None;
            Command::LoadReports
        } else {
            Command::Idle
        }
    }

    /// Applies one message and says what work the host is to do next.
    pub fn update(&mut self, message: Message) -> (command: Command)
        ensures
            (final(self)@, command) == old(self)@.after(message),
    {
        match message {
            Message::ToggleSidebar => {
                self.sidebar_collapsed = !self.sidebar_collapsed;
                Command::Idle
            },
            Message::Navigate(page) => self.navigate(page),
            Message::Noop => Command::Idle,
            Message::StartImport => Command::PickFile,
            Message::ImportPrepared(result) => match result {
                Ok(records) => self.prepare(records),
                Err(error) => {
                    self.fail(error);
                    Command::Idle
                },
            },
            Message::ProcessedRecord(result) => match result {
                Ok(step) => self.handle_import_step(step),
                Err(error) => {
                    self.fail(error);
                    Command::Idle
                },
            },
            Message::DecideDuplicate { number, overwrite } => self.decide(number, overwrite),
            Message::DecideAll { overwrite } => self.decide_all(overwrite),
            Message::DecisionApplied(result) => match result {
                Ok(step) => self.handle_import_step(step),
                Err(error) => {
                    self.fail(error);
                    Command::Idle
                },
            },
            Message::ReportSeriesLoaded(result) => {
                self.report_loading = false;
                match result {
                    Ok(points) => {
                        self.report_series = points;
                        self.report_error = None;
                    },
                    Err(error) => {
                        self.report_series.clear();
                        self.report_error = Some(error);
                    },
                }
                Command::Idle
            },
            Message::ReportStateCountsLoaded(result) => {
                self.report_state_loading = false;
                match result {
                    Ok(points) => {
                        self.report_state_counts = points;
                        self.report_state_error = None;
                    },
                    Err(error) => {
                        self.report_state_counts.clear();
                        self.report_state_error = Some(error);
                    },
                }
                Command::Idle
            },
            Message::ReportEmployeeTypeLoaded(result) => {
                self.report_employee_loading = false;
                match result {
                    Ok(points) => {
                        self.report_employee_counts = points;
                        self.report_employee_error = None;
                    },
                    Err(error) => {
                        self.report_employee_counts.clear();
                        self.report_employee_error = Some(error);
                    },
                }
                Command::Idle
            },
            Message::ReportHeatmapLoaded(result) => {
                self.report_heatmap_loading = false;
                match result {
                    Ok(grid) => {
                        self.report_heatmap = Some(grid);
                        self.report_heatmap_error = None;
                    },
                    Err(error) => {
                        self.report_heatmap = None;
                        self.report_heatmap_error = Some(error);
                    },
                }
                Command::Idle
            },
            Message::ReportRadarLoaded(result) => {
                self.report_radar_loading = false;
                match result {
                    Ok(metrics) => {
                        self.report_radar_metrics = metrics;
                        self.report_radar_error = None;
                    },
                    Err(error) => {
                        self.report_radar_metrics.clear();
                        self.report_radar_error = Some(error);
                    },
                }
                Command::Idle
            },
            Message::ReportBreachRateLoaded(result) => {
                self.report_breach_loading = false;
                match result {
                    Ok(rate) => {
                        self.report_breach_rate = Some(rate);
                        self.report_breach_error = None;
                    },
                    Err(error) => {
                        self.report_breach_rate = None;
                        self.report_breach_error = Some(error);
                    },
                }
                Command::Idle
            },
        }
    }
}

} // verus!
