//! The pages of the application, and the texts they show.

pub mod import;
pub mod reports;

use vstd::prelude::*;

verus! {

/// A page the user can navigate to.
#[derive(Debug, Hash, Eq, PartialEq, Clone, Copy, Structural)]
pub enum Page {
    Import,
    Home,
    Reports,
}

impl Page {
    /// The name of the page as the sidebar shows it.
    pub open spec fn spec_label(self) -> Seq<char> {
        match self {
            Page::Import => "Import"@,
            Page::Home => "Home"@,
            Page::Reports => "Reports"@,
        }
    }

    pub fn label(&self) -> (name: &'static str)
        ensures
            name@ == self.spec_label(),
    {
        match self {
            Page::Import => "Import",
            Page::Home => "Home",
            Page::Reports => "Reports",
        }
    }
}

} // verus!
