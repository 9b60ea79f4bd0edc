use sw_reports::app::{App, Command};
use sw_reports::importing::{
    DuplicateEntry, ImportStatus, ImportStep, NewHireRecord, PendingDuplicate,
};
use sw_reports::message::Message;
use sw_reports::screens::Page;

fn text(s: &str) -> Option<String> {
    Some(s.to_string())
}

fn record(number: i64) -> NewHireRecord {
    NewHireRecord {
        number,
        state: None,
        title: text("t"),
        assignee_name: None,
        requester: None,
        created_at: None,
        site: None,
        division: None,
        employee_type: None,
        start_date: None,
        success_factors_date_entered: None,
        day_1_or_day_3: None,
        to_first_response_business: None,
        to_resolution_business: None,
        to_resolution_elapsed: None,
        sla_breaches: None,
        resolved_at: None,
        it_lead_time_elapsed: None,
        it_lead_time_business: None,
    }
}

fn entry(number: i64) -> DuplicateEntry {
    let r = record(number);
    let summary = PendingDuplicate::from_record(&r, vec![format!("site: a -> {}", number)]);
    DuplicateEntry { record: r, summary }
}

fn pending_numbers(app: &App) -> (Vec<i64>, Vec<i64>) {
    (
        app.pending_duplicates.iter().map(|e| e.record.number).collect(),
        app.import_state.pending_duplicates.iter().map(|p| p.number).collect(),
    )
}

#[test]
fn app_starts_on_the_home_page() {
    let app = App::new();
    assert_eq!(app.current_page, Page::Home);
    assert!(app.sidebar_collapsed);
    assert_eq!(app.import_state.status, ImportStatus::Idle);
    assert!(app.import_queue.is_empty());
    assert!(app.pending_duplicates.is_empty());
    assert!(app.decision_queue.is_empty());
    assert!(!app.report_loading && !app.report_state_loading && !app.report_employee_loading);
    assert!(!app.report_heatmap_loading && !app.report_radar_loading && !app.report_breach_loading);
    assert_eq!(app.report_heatmap, None);
    assert_eq!(app.report_breach_rate, None);
}

#[test]
fn toggle_and_noop() {
    let mut app = App::new();
    assert_eq!(app.update(Message::ToggleSidebar), Command::Idle);
    assert!(!app.sidebar_collapsed);
    assert_eq!(app.update(Message::ToggleSidebar), Command::Idle);
    assert!(app.sidebar_collapsed);
    assert_eq!(app.update(Message::Noop), Command::Idle);
    assert_eq!(app, App::new());
}

#[test]
fn navigating_to_reports_loads_them() {
    let mut app = App::new();
    app.report_error = text("old");
    app.report_breach_error = text("old");
    assert_eq!(app.update(Message::Navigate(Page::Import)), Command::Idle);
    assert_eq!(app.current_page, Page::Import);
    assert!(!app.report_loading);
    assert_eq!(app.report_error, text("old"));
    assert_eq!(app.update(Message::Navigate(Page::Reports)), Command::LoadReports);
    assert_eq!(app.current_page, Page::Reports);
    assert!(app.report_loading && app.report_state_loading && app.report_employee_loading);
    assert!(app.report_heatmap_loading && app.report_radar_loading && app.report_breach_loading);
    assert_eq!(app.report_error, None);
    assert_eq!(app.report_breach_error, None);
}

#[test]
fn report_outcomes_are_stored() {
    let mut app = App::new();
    app.update(Message::Navigate(Page::Reports));
    assert_eq!(app.update(Message::ReportSeriesLoaded(Ok(vec![(1, 2)]))), Command::Idle);
    assert!(!app.report_loading);
    assert_eq!(app.report_series, vec![(1, 2)]);
    assert_eq!(app.update(Message::ReportSeriesLoaded(Err("e".to_string()))), Command::Idle);
    assert!(app.report_series.is_empty());
    assert_eq!(app.report_error, text("e"));
    app.update(Message::ReportStateCountsLoaded(Ok(vec![("a".to_string(), 1)])));
    assert_eq!(app.report_state_counts, vec![("a".to_string(), 1)]);
    assert!(!app.report_state_loading);
    app.update(Message::ReportStateCountsLoaded(Err("s".to_string())));
    assert!(app.report_state_counts.is_empty());
    assert_eq!(app.report_state_error, text("s"));
    app.update(Message::ReportEmployeeTypeLoaded(Ok(vec![("b".to_string(), 2)])));
    assert_eq!(app.report_employee_counts, vec![("b".to_string(), 2)]);
    app.update(Message::ReportEmployeeTypeLoaded(Err("t".to_string())));
    assert!(app.report_employee_counts.is_empty());
    assert_eq!(app.report_employee_error, text("t"));
    let grid = (vec!["x".to_string()], vec!["y".to_string()], vec![vec![1]]);
    app.update(Message::ReportHeatmapLoaded(Ok(grid.clone())));
    assert_eq!(app.report_heatmap, Some(grid));
    assert!(!app.report_heatmap_loading);
    app.update(Message::ReportHeatmapLoaded(Err("h".to_string())));
    assert_eq!(app.report_heatmap, None);
    assert_eq!(app.report_heatmap_error, text("h"));
    app.update(Message::ReportRadarLoaded(Ok(vec![("m".to_string(), 3)])));
    assert_eq!(app.report_radar_metrics, vec![("m".to_string(), 3)]);
    app.update(Message::ReportRadarLoaded(Err("r".to_string())));
    assert!(app.report_radar_metrics.is_empty());
    assert_eq!(app.report_radar_error, text("r"));
    app.update(Message::ReportBreachRateLoaded(Ok((1, 2))));
    assert_eq!(app.report_breach_rate, Some((1, 2)));
    assert_eq!(app.report_breach_error, None);
    app.update(Message::ReportBreachRateLoaded(Err("b".to_string())));
    assert_eq!(app.report_breach_rate, None);
    assert_eq!(app.report_breach_error, text("b"));
    assert!(!app.report_breach_loading && !app.report_radar_loading);
}

#[test]
fn start_import_asks_for_a_file_and_then_reads_it() {
    let mut app = App::new();
    assert_eq!(app.update(Message::StartImport), Command::PickFile);
    assert_eq!(app, App::new());
    let command = app.start_import_with_path("/tmp/in.csv".to_string());
    assert_eq!(command, Command::ReadCsv("/tmp/in.csv".to_string()));
    assert_eq!(app.import_state.status, ImportStatus::Loading);
    assert_eq!(app.import_state.message, text("Reading CSV..."));
}

#[test]
fn import_without_rows_is_done_at_once() {
    let mut app = App::new();
    app.pending_duplicates.push_back(entry(9));
    app.decision_queue.push_back((record(8), true));
    assert_eq!(app.update(Message::ImportPrepared(Ok(vec![]))), Command::Idle);
    assert_eq!(app.import_state.status, ImportStatus::Done);
    assert_eq!(app.import_state.message, text("No data rows found."));
    assert_eq!(app.import_state.total, 0);
    assert!(app.pending_duplicates.is_empty());
    assert!(app.decision_queue.is_empty());
}

#[test]
fn failed_read_ends_in_error() {
    let mut app = App::new();
    assert_eq!(app.update(Message::ImportPrepared(Err("no file".to_string()))), Command::Idle);
    assert_eq!(app.import_state.status, ImportStatus::Error);
    assert_eq!(app.import_state.message, text("no file"));
    let mut app = App::new();
    app.update(Message::ImportPrepared(Ok(vec![record(1)])));
    assert_eq!(app.update(Message::ProcessedRecord(Err("db".to_string()))), Command::Idle);
    assert_eq!(app.import_state.status, ImportStatus::Error);
    assert_eq!(app.import_state.message, text("db"));
    assert_eq!(app.update(Message::DecisionApplied(Err("db2".to_string()))), Command::Idle);
    assert_eq!(app.import_state.message, text("db2"));
}

#[test]
fn records_are_processed_in_order_until_done() {
    let mut app = App::new();
    let command = app.update(Message::ImportPrepared(Ok(vec![record(1), record(2), record(3)])));
    assert_eq!(command, Command::ProcessRecord(record(1)));
    assert_eq!(app.import_state.status, ImportStatus::Importing);
    assert_eq!(app.import_state.total, 3);
    assert_eq!(app.import_state.message, text("Processing records..."));
    assert_eq!(app.import_queue.len(), 2);
    let command = app.update(Message::ProcessedRecord(Ok(ImportStep::Inserted)));
    assert_eq!(command, Command::ProcessRecord(record(2)));
    let command = app.update(Message::ProcessedRecord(Ok(ImportStep::SkippedUnchanged)));
    assert_eq!(command, Command::ProcessRecord(record(3)));
    let command = app.update(Message::ProcessedRecord(Ok(ImportStep::Inserted)));
    assert_eq!(command, Command::Idle);
    assert_eq!(app.import_state.status, ImportStatus::Done);
    assert_eq!(app.import_state.message, text("Import complete."));
    assert_eq!(
        (app.import_state.inserted, app.import_state.updated, app.import_state.skipped),
        (2, 0, 1)
    );
}

#[test]
fn duplicates_wait_for_a_decision() {
    let mut app = App::new();
    app.update(Message::ImportPrepared(Ok(vec![record(1), record(2), record(3)])));
    app.update(Message::ProcessedRecord(Ok(ImportStep::Duplicate(entry(1)))));
    app.update(Message::ProcessedRecord(Ok(ImportStep::Inserted)));
    let command = app.update(Message::ProcessedRecord(Ok(ImportStep::Duplicate(entry(3)))));
    assert_eq!(command, Command::Idle);
    assert_eq!(app.import_state.status, ImportStatus::AwaitingDecision);
    assert_eq!(app.import_state.message, text("2 duplicate record(s) need review."));
    assert_eq!(pending_numbers(&app), (vec![1, 3], vec![1, 3]));
    assert_eq!(app.import_state.pending_duplicates[1], entry(3).summary);

    let command = app.update(Message::DecideDuplicate { number: 3, overwrite: true });
    assert_eq!(command, Command::ApplyDecision(record(3), true));
    assert_eq!(app.import_state.status, ImportStatus::Importing);
    assert_eq!(pending_numbers(&app), (vec![1], vec![1]));
    let command = app.update(Message::DecisionApplied(Ok(ImportStep::Updated)));
    assert_eq!(command, Command::Idle);
    // One duplicate is still waiting, so the import is not complete.
    assert_eq!(app.import_state.status, ImportStatus::Importing);
    assert_eq!(app.import_state.updated, 1);

    let command = app.update(Message::DecideDuplicate { number: 1, overwrite: false });
    assert_eq!(command, Command::ApplyDecision(record(1), false));
    let command = app.update(Message::DecisionApplied(Ok(ImportStep::SkippedDecision)));
    assert_eq!(command, Command::Idle);
    assert_eq!(app.import_state.status, ImportStatus::Done);
    assert_eq!(app.import_state.message, text("Import complete."));
    assert_eq!(
        (app.import_state.inserted, app.import_state.updated, app.import_state.skipped),
        (1, 1, 1)
    );
}

#[test]
fn deciding_an_unknown_number_changes_nothing() {
    let mut app = App::new();
    app.update(Message::ImportPrepared(Ok(vec![record(1)])));
    app.update(Message::ProcessedRecord(Ok(ImportStep::Duplicate(entry(1)))));
    let before = app.clone();
    assert_eq!(app.update(Message::DecideDuplicate { number: 2, overwrite: true }), Command::Idle);
    assert_eq!(app, before);
}

#[test]
fn deciding_takes_the_first_entry_and_all_summaries_of_a_number() {
    let mut app = App::new();
    app.update(Message::ImportPrepared(Ok(vec![record(5), record(6), record(5)])));
    app.update(Message::ProcessedRecord(Ok(ImportStep::Duplicate(entry(5)))));
    app.update(Message::ProcessedRecord(Ok(ImportStep::Duplicate(entry(6)))));
    app.update(Message::ProcessedRecord(Ok(ImportStep::Duplicate(entry(5)))));
    assert_eq!(app.import_state.message, text("3 duplicate record(s) need review."));
    let command = app.update(Message::DecideDuplicate { number: 5, overwrite: true });
    assert_eq!(command, Command::ApplyDecision(record(5), true));
    assert_eq!(pending_numbers(&app), (vec![6, 5], vec![6]));
}

#[test]
fn decide_all_settles_every_duplicate_in_order() {
    let mut app = App::new();
    app.update(Message::ImportPrepared(Ok(vec![record(1), record(2), record(3)])));
    for n in 1..=3 {
        app.update(Message::ProcessedRecord(Ok(ImportStep::Duplicate(entry(n)))));
    }
    let command = app.update(Message::DecideAll { overwrite: true });
    assert_eq!(command, Command::ApplyDecision(record(1), true));
    assert_eq!(pending_numbers(&app), (vec![], vec![]));
    assert_eq!(app.decision_queue.len(), 2);
    let command = app.update(Message::DecisionApplied(Ok(ImportStep::Updated)));
    assert_eq!(command, Command::ApplyDecision(record(2), true));
    let command = app.update(Message::DecisionApplied(Ok(ImportStep::Updated)));
    assert_eq!(command, Command::ApplyDecision(record(3), true));
    let command = app.update(Message::DecisionApplied(Ok(ImportStep::Updated)));
    assert_eq!(command, Command::Idle);
    assert_eq!(app.import_state.status, ImportStatus::Done);
    assert_eq!(app.import_state.updated, 3);
}

#[test]
fn decide_all_without_duplicates_completes() {
    let mut app = App::new();
    assert_eq!(app.update(Message::DecideAll { overwrite: false }), Command::Idle);
    assert_eq!(app.import_state.status, ImportStatus::Done);
    assert_eq!(app.import_state.message, text("Import complete."));
}

#[test]
fn counters_stop_at_the_largest_number() {
    let mut app = App::new();
    app.import_state.inserted = usize::MAX;
    app.import_state.skipped = usize::MAX - 1;
    app.handle_import_step(ImportStep::Inserted);
    assert_eq!(app.import_state.inserted, usize::MAX);
    app.handle_import_step(ImportStep::SkippedDecision);
    app.handle_import_step(ImportStep::SkippedUnchanged);
    assert_eq!(app.import_state.skipped, usize::MAX);
}

#[test]
fn next_record_and_next_decision_by_themselves() {
    let mut app = App::new();
    assert_eq!(app.process_next_record(), Command::Idle);
    assert_eq!(app.import_state.status, ImportStatus::Done);
    let mut app = App::new();
    app.pending_duplicates.push_back(entry(1));
    assert_eq!(app.process_next_decision(), Command::Idle);
    assert_eq!(app.import_state.status, ImportStatus::Idle);
    assert_eq!(app.process_next_record(), Command::Idle);
    assert_eq!(app.import_state.status, ImportStatus::AwaitingDecision);
    assert_eq!(app.import_state.message, text("1 duplicate record(s) need review."));
    app.decision_queue.push_back((record(2), false));
    assert_eq!(app.process_next_decision(), Command::ApplyDecision(record(2), false));
    assert_eq!(app.import_state.status, ImportStatus::Importing);
}
