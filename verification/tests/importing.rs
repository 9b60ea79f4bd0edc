use sw_reports::importing::{
    copy_text, copy_texts, decision_step, diff_opt_i64, diff_opt_string, diff_records, format_opt,
    plan_record, records_of, DuplicateEntry, ImportState, ImportStatus, ImportStep, NewHireCsvRow,
    NewHireRecord, PendingDuplicate, RecordPlan,
};

fn text(s: &str) -> Option<String> {
    Some(s.to_string())
}

fn record(number: i64) -> NewHireRecord {
    NewHireRecord {
        number,
        state: text("Open"),
        title: text("New hire"),
        assignee_name: text("Ada"),
        requester: text("Bob"),
        created_at: text("2024-01-02"),
        site: text("HQ"),
        division: text("IT"),
        employee_type: text("Full"),
        start_date: text("2024-02-01"),
        success_factors_date_entered: text("2024-01-03"),
        day_1_or_day_3: text("Day 1"),
        to_first_response_business: text("1h"),
        to_resolution_business: text("2h"),
        to_resolution_elapsed: text("3h"),
        sla_breaches: None,
        resolved_at: text("2024-01-05"),
        it_lead_time_elapsed: Some(72),
        it_lead_time_business: None,
    }
}

fn row(number: Option<i64>, title: &str) -> NewHireCsvRow {
    NewHireCsvRow {
        number,
        state: None,
        title: text(title),
        assignee_name: None,
        requester: None,
        created_at: None,
        site: None,
        division: None,
        employee_type: None,
        start_date: None,
        success_factors_date_entered: None,
        day_1_or_day_3: None,
        to_first_response_business: None,
        to_resolution_business: None,
        to_resolution_elapsed: None,
        sla_breaches: text("yes"),
        resolved_at: None,
        it_lead_time_elapsed: Some(-3),
        it_lead_time_business: Some(4),
    }
}

#[test]
fn format_opt_writes_the_value_or_none() {
    assert_eq!(format_opt(Some(&"abc".to_string())), "abc");
    assert_eq!(format_opt(Some(&String::new())), "");
    assert_eq!(format_opt::<String>(None), "none");
    assert_eq!(format_opt(Some(&-42i64)), "-42");
    assert_eq!(format_opt(Some(&i64::MIN)), "-9223372036854775808");
    assert_eq!(format_opt::<i64>(None), "none");
}

#[test]
fn diff_opt_string_appends_a_line_only_on_change() {
    let mut diffs = vec!["kept".to_string()];
    diff_opt_string(&mut diffs, "site", &text("HQ"), &text("HQ"));
    diff_opt_string(&mut diffs, "site", &None, &None);
    assert_eq!(diffs, vec!["kept"]);
    diff_opt_string(&mut diffs, "site", &text("HQ"), &text("Lab"));
    diff_opt_string(&mut diffs, "title", &None, &text(""));
    diff_opt_string(&mut diffs, "state", &text("none"), &None);
    assert_eq!(diffs, vec!["kept", "site: HQ -> Lab", "title: none -> ", "state: none -> none"]);
}

#[test]
fn diff_opt_i64_appends_a_line_only_on_change() {
    let mut diffs = Vec::new();
    diff_opt_i64(&mut diffs, "n", Some(5), Some(5));
    diff_opt_i64(&mut diffs, "n", None, None);
    assert!(diffs.is_empty());
    diff_opt_i64(&mut diffs, "n", Some(5), Some(-6));
    diff_opt_i64(&mut diffs, "lead", None, Some(0));
    diff_opt_i64(&mut diffs, "lead", Some(i64::MAX), None);
    assert_eq!(diffs, vec!["n: 5 -> -6", "lead: none -> 0", "lead: 9223372036854775807 -> none"]);
}

#[test]
fn equal_records_have_no_diff() {
    assert!(diff_records(&record(1), &record(1)).is_empty());
    // The number is not compared.
    assert!(diff_records(&record(1), &record(2)).is_empty());
}

#[test]
fn diff_lists_changed_fields_in_field_order() {
    let existing = record(1);
    let mut incoming = record(1);
    incoming.it_lead_time_business = Some(8);
    incoming.state = text("Closed");
    incoming.sla_breaches = text("1");
    incoming.assignee_name = None;
    assert_eq!(
        diff_records(&existing, &incoming),
        vec![
            "state: Open -> Closed",
            "assignee: Ada -> none",
            "sla_breaches: none -> 1",
            "it_lead_time_business: none -> 8",
        ]
    );
}

#[test]
fn diff_uses_the_label_of_each_field() {
    let existing = record(1);
    let blank = NewHireRecord {
        number: 1,
        state: None,
        title: None,
        assignee_name: None,
        requester: None,
        created_at: None,
        site: None,
        division: None,
        employee_type: None,
        start_date: None,
        success_factors_date_entered: None,
        day_1_or_day_3: None,
        to_first_response_business: None,
        to_resolution_business: None,
        to_resolution_elapsed: None,
        sla_breaches: text("2"),
        resolved_at: None,
        it_lead_time_elapsed: None,
        it_lead_time_business: Some(1),
    };
    assert_eq!(
        diff_records(&existing, &blank),
        vec![
            "state: Open -> none",
            "title: New hire -> none",
            "assignee: Ada -> none",
            "requester: Bob -> none",
            "created_at: 2024-01-02 -> none",
            "site: HQ -> none",
            "division: IT -> none",
            "employee_type: Full -> none",
            "start_date: 2024-02-01 -> none",
            "success_factors: 2024-01-03 -> none",
            "day_1_or_day_3: Day 1 -> none",
            "first_response_business: 1h -> none",
            "resolution_business: 2h -> none",
            "resolution_elapsed: 3h -> none",
            "sla_breaches: none -> 2",
            "resolved_at: 2024-01-05 -> none",
            "it_lead_time_elapsed: 72 -> none",
            "it_lead_time_business: none -> 1",
        ]
    );
}

#[test]
fn rows_without_a_number_are_left_out() {
    let rows = vec![row(Some(3), "a"), row(None, "b"), row(Some(0), "c"), row(None, "d"), row(Some(-1), "e")];
    let records = records_of(rows);
    let seen: Vec<(i64, Option<String>)> =
        records.iter().map(|r| (r.number, r.title.clone())).collect();
    assert_eq!(seen, vec![(3, text("a")), (0, text("c")), (-1, text("e"))]);
    assert_eq!(records[0].sla_breaches, text("yes"));
    assert_eq!(records[0].it_lead_time_elapsed, Some(-3));
    assert_eq!(records[0].it_lead_time_business, Some(4));
    assert!(records_of(vec![]).is_empty());
    assert!(records_of(vec![row(None, "x")]).is_empty());
}

#[test]
fn row_without_a_number_becomes_record_zero() {
    let r = row(None, "t").into_record();
    assert_eq!(r.number, 0);
    assert_eq!(r.title, text("t"));
    assert_eq!(row(Some(9), "t").into_record().number, 9);
}

#[test]
fn copies_are_equal() {
    assert_eq!(copy_text(&text("a")), text("a"));
    assert_eq!(copy_text(&None), None);
    assert_eq!(copy_texts(&vec!["a".to_string(), "b".to_string()]), vec!["a", "b"]);
    assert_eq!(record(5).duplicate(), record(5));
    let pending = PendingDuplicate::from_record(&record(5), vec!["x".to_string()]);
    assert_eq!(pending.duplicate(), pending);
}

#[test]
fn pending_duplicate_takes_number_title_and_time() {
    let pending = PendingDuplicate::from_record(&record(77), vec!["a: b -> c".to_string()]);
    assert_eq!(pending.number, 77);
    assert_eq!(pending.title, text("New hire"));
    assert_eq!(pending.created_at, text("2024-01-02"));
    assert_eq!(pending.changes, vec!["a: b -> c"]);
}

#[test]
fn import_state_starts_idle_and_restarts_clean() {
    let mut state = ImportState::new();
    assert_eq!(state.status, ImportStatus::Idle);
    assert_eq!((state.inserted, state.updated, state.skipped, state.total), (0, 0, 0, 0));
    assert!(state.pending_duplicates.is_empty());
    assert_eq!(state.message, None);
    state.inserted = 4;
    state.updated = 5;
    state.skipped = 6;
    state.pending_duplicates.push(PendingDuplicate::from_record(&record(1), vec![]));
    state.set_message("m".to_string());
    state.start(12);
    assert_eq!(state.status, ImportStatus::Importing);
    assert_eq!((state.inserted, state.updated, state.skipped, state.total), (0, 0, 0, 12));
    assert!(state.pending_duplicates.is_empty());
    assert_eq!(state.message, None);
}

#[test]
fn set_error_and_set_message_keep_the_counters() {
    let mut state = ImportState::new();
    state.start(3);
    state.inserted = 2;
    state.set_message("working".to_string());
    assert_eq!(state.status, ImportStatus::Importing);
    assert_eq!(state.message, text("working"));
    state.set_error("broken".to_string());
    assert_eq!(state.status, ImportStatus::Error);
    assert_eq!(state.message, text("broken"));
    assert_eq!((state.inserted, state.total), (2, 3));
}

#[test]
fn new_record_is_planned_for_insertion() {
    assert_eq!(plan_record(None, record(1)), RecordPlan::Insert(record(1)));
}

#[test]
fn unchanged_record_is_skipped() {
    assert_eq!(plan_record(Some(&record(1)), record(1)), RecordPlan::Skip);
}

#[test]
fn changed_record_goes_to_review() {
    let mut incoming = record(1);
    incoming.site = text("Lab");
    let plan = plan_record(Some(&record(1)), incoming.clone());
    assert_eq!(
        plan,
        RecordPlan::Review(DuplicateEntry {
            record: incoming,
            summary: PendingDuplicate {
                number: 1,
                title: text("New hire"),
                created_at: text("2024-01-02"),
                changes: vec!["site: HQ -> Lab".to_string()],
            },
        })
    );
}

#[test]
fn decision_becomes_update_or_skip() {
    assert_eq!(decision_step(true), ImportStep::Updated);
    assert_eq!(decision_step(false), ImportStep::SkippedDecision);
}
