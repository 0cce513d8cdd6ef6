//! The tracked-entry state: which time-tracking entry is currently running,
//! or why the last attempt to find out failed, and its one-line rendering for
//! the display layer.

use vstd::prelude::*;
use vstd::string::*;

verus! {

/// What the controller currently knows about the running entry.
///
/// Exactly one variant holds at any time; a transition replaces the whole
/// value.
#[derive(Debug, PartialEq, Eq)]
pub enum TrackedEntry {
    /// No task is currently running.
    NoEntry,
    /// A task with the given free-text description is running.
    Active(String),
    /// The last fetch failed before the external tool ran (it could not be
    /// spawned).
    FetchError(String),
    /// The external tool ran but reported failure (non-zero exit).
    ToolError(String),
}

/// The mathematical value of a [`TrackedEntry`]: the same variants over
/// character sequences.
pub enum EntryView {
    NoEntry,
    Active(Seq<char>),
    FetchError(Seq<char>),
    ToolError(Seq<char>),
}

impl View for TrackedEntry {
    type V = EntryView;

    open spec fn view(&self) -> EntryView {
        match self {
            TrackedEntry::NoEntry => EntryView::NoEntry,
            TrackedEntry::Active(d) => EntryView::Active(d@),
            TrackedEntry::FetchError(m) => EntryView::FetchError(m@),
            TrackedEntry::ToolError(m) => EntryView::ToolError(m@),
        }
    }
}

/// The one-line rendering of an entry state: a fixed label for each variant,
/// followed by the description or failure text.
pub open spec fn display_of(e: EntryView) -> Seq<char> {
    match e {
        EntryView::NoEntry => "- NO CURRENT TASK -"@,
        EntryView::Active(d) => "[Task] "@ + d,
        EntryView::FetchError(m) => "[FetchErr] "@ + m,
        EntryView::ToolError(m) => "[CliErr] "@ + m,
    }
}

impl TrackedEntry {
    /// The single human-readable line that the display layer shows for this
    /// state.
    pub fn display_text(&self) -> (r: String)
        ensures
            r@ == display_of(self@),
    {
        match self {
            TrackedEntry::NoEntry => String::from_str("- NO CURRENT TASK -"),
            TrackedEntry::Active(d) => {
                let mut line = String::from_str("[Task] ");
                line.append(d.as_str());
                line
            },
            TrackedEntry::FetchError(m) => {
                let mut line = String::from_str("[FetchErr] ");
                line.append(m.as_str());
                line
            },
            TrackedEntry::ToolError(m) => {
                let mut line = String::from_str("[CliErr] ");
                line.append(m.as_str());
                line
            },
        }
    }
}

} // verus!
