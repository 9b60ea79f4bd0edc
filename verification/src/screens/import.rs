//! The texts of the import page.

use vstd::prelude::*;
use vstd::string::*;
use crate::importing::ImportState;
use crate::importing::ImportStatus;
use crate::importing::PendingDuplicate;
use crate::text::append_decimal;
use crate::text::decimal;

verus! {

/// The line that tells where the import stands.
pub open spec fn spec_status_text(status: ImportStatus) -> Seq<char> {
    match status {
        ImportStatus::Idle => "No import in progress."@,
        ImportStatus::Loading => "Reading CSV..."@,
        ImportStatus::Importing => "Importing records..."@,
        ImportStatus::AwaitingDecision => "Duplicate found. Choose overwrite or skip."@,
        ImportStatus::Done => "Import complete."@,
        ImportStatus::Error => "Import failed."@,
    }
}

pub fn status_text(status: ImportStatus) -> (text: &'static str)
    ensures
        text@ == spec_status_text(status),
{
    match status {
        ImportStatus::Idle => "No import in progress.",
        ImportStatus::Loading => "Reading CSV...",
        ImportStatus::Importing => "Importing records...",
        ImportStatus::AwaitingDecision => "Duplicate found. Choose overwrite or skip.",
        ImportStatus::Done => "Import complete.",
        ImportStatus::Error => "Import failed.",
    }
}

/// The line that tells the four counters of an import.
pub open spec fn spec_counts_text(total: nat, inserted: nat, updated: nat, skipped: nat) -> Seq<
    char,
> {
    "Total: "@ + decimal(total) + " | Inserted: "@ + decimal(inserted) + " | Updated: "@
        + decimal(updated) + " | Skipped: "@ + decimal(skipped)
}

pub fn counts_text(state: &ImportState) -> (text: String)
    ensures
        text@ == spec_counts_text(
            state.total as nat,
            state.inserted as nat,
            state.updated as nat,
            state.skipped as nat,
        ),
{
    let mut text = String::from_str("Total: ");
    append_decimal(&mut text, state.total as u64);
    text.append(" | Inserted: ");
    append_decimal(&mut text, state.inserted as u64);
    text.append(" | Updated: ");
    append_decimal(&mut text, state.updated as u64);
    text.append(" | Skipped: ");
    append_decimal(&mut text, state.skipped as u64);
    text
}

/// The heading over the table of duplicates.
pub open spec fn spec_duplicates_heading(count: nat) -> Seq<char> {
    decimal(count) + " duplicate record(s)"@
}

pub fn duplicates_heading(count: usize) -> (text: String)
    ensures
        text@ == spec_duplicates_heading(count as nat),
{
    let mut text = String::new();
    append_decimal(&mut text, count as u64);
    text.append(" duplicate record(s)");
    text
}

/// The first `k` of `parts`, with a comma and a blank between neighbours.
pub open spec fn joined(parts: Seq<String>, k: nat) -> Seq<char>
    decreases k,
{
    if k == 0 {
        Seq::empty()
    } else if k == 1 {
        parts[0]@
    } else {
        joined(parts, (k - 1) as nat) + ", "@ + parts[k - 1]@
    }
}

/// The changes of a duplicate in one line, or `no changes`.
pub open spec fn spec_changes_text(changes: Seq<String>) -> Seq<char> {
    if changes.len() == 0 {
        "no changes"@
    } else {
        joined(changes, changes.len())
    }
}

pub fn changes_text(changes: &Vec<String>) -> (text: String)
    ensures
        text@ == spec_changes_text(changes@),
{
    if changes.len() == 0 {
        return String::from_str("no changes");
    }
    let mut text = changes[0].clone();
    let mut i: usize = 1;
    while i < changes.len()
        invariant
            1 <= i <= changes@.len(),
            text@ == joined(changes@, i as nat),
        decreases changes.len() - i,
    {
        text.append(", ");
        text.append(changes[i].as_str());
        i += 1;
    }
    text
}

/// The title of a duplicate as the table shows it.
pub fn title_text(pending: &PendingDuplicate) -> (text: String)
    ensures
        text@ == match pending.title {
            Some(title) => title@,
            None => "Unknown Title"@,
        },
{
    match &pending.title {
        Some(title) => title.clone(),
        None => String::from_str("Unknown Title"),
    }
}

/// The creation time of a duplicate as the table shows it.
pub fn created_at_text(pending: &PendingDuplicate) -> (text: String)
    ensures
        text@ == match pending.created_at {
            Some(created_at) => created_at@,
            None => "Unknown timestamp"@,
        },
{
    match &pending.created_at {
        Some(created_at) => created_at.clone(),
        None => String::from_str("Unknown timestamp"),
    }
}

} // verus!
