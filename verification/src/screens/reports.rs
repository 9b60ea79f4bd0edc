//! The notes of the reports page.

use vstd::prelude::*;
use vstd::string::*;

verus! {

/// The note under a chart: that its data is being loaded, or why loading
/// failed, or that there is no data; none if the chart has data to show.
pub open spec fn spec_section_note(loading: bool, error: Option<String>, empty: bool) -> Option<
    Seq<char>,
> {
    if loading {
        Some("Loading data..."@)
    } else if error is Some {
        Some(error->0@)
    } else if empty {
        Some("No data available yet."@)
    } else {
        None
    }
}

pub fn section_note(loading: bool, error: &Option<String>, empty: bool) -> (note: Option<String>)
    ensures
        match note {
            Some(text) => spec_section_note(loading, *error, empty) == Some(text@),
            None => spec_section_note(loading, *error, empty) is None,
        },
{
    if loading {
        Some(String::from_str("Loading data..."))
    } else {
        match error {
            Some(message) => Some(message.clone()),
            None => if empty {
                Some(String::from_str("No data available yet."))
            } else {
                None
            },
        }
    }
}

/// The note at the head of the page, which speaks for the first report.
pub open spec fn spec_page_note(loading: bool, error: Option<String>, empty: bool) -> Option<
    Seq<char>,
> {
    if loading {
        Some("Loading chart data..."@)
    } else if error is Some {
        Some(error->0@)
    } else if empty {
        Some("No data available yet."@)
    } else {
        None
    }
}

pub fn page_note(loading: bool, error: &Option<String>, empty: bool) -> (note: Option<String>)
    ensures
        match note {
            Some(text) => spec_page_note(loading, *error, empty) == Some(text@),
            None => spec_page_note(loading, *error, empty) is None,
        },
{
    if loading {
        Some(String::from_str("Loading chart data..."))
    } else {
        match error {
            Some(message) => Some(message.clone()),
            None => if empty {
                Some(String::from_str("No data available yet."))
            } else {
                None
            },
        }
    }
}

} // verus!
