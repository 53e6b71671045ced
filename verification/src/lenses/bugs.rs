//! Bugs lens data: the mission's top blocker and the ranked attention queue,
//! triaged as bugs and blockers.

use vstd::prelude::*;

use crate::text::{decimal_digits, push_decimal};

verus! {

/// Severity of a blocker or an attention item.
#[derive(Debug, Clone, Copy, PartialEq, Eq, Structural)]
pub enum Severity {
    Critical,
    Error,
    Warning,
    Info,
}

/// One triage row in the bugs pane.
#[derive(Debug, Clone, PartialEq, Eq)]
pub struct BugRow {
    pub severity: Severity,
    pub title: String,
    pub why_it_matters: String,
}

/// The single most important blocker of the mission.
#[derive(Debug, Clone, PartialEq, Eq)]
pub struct TopBlocker {
    pub summary: String,
    pub severity: Severity,
}

/// Bugs lens input.
#[derive(Debug, Clone)]
pub struct BugsLensInput {
    pub open_capsules: u32,
    /// Failed CI jobs right now: a primary source of fresh bugs.
    pub failed_jobs: u32,
    /// Human-readable summary of the single most important blocker, if any.
    pub top_blocker: Option<String>,
    /// Severity of the top blocker, used to color the header.
    pub top_blocker_severity: Option<Severity>,
    /// Ranked triage rows projected from the attention queue.
    pub rows: Vec<BugRow>,
    pub event_cursor: u64,
}

/// The header line: the top blocker (or `none`) and the failing jobs.
pub open spec fn bugs_header(b: BugsLensInput) -> Seq<char> {
    "Bugs — top blocker: "@ + match b.top_blocker {
        Some(s) => s@,
        None => "none"@,
    } + " · "@ + decimal_digits(b.failed_jobs as nat) + " failing jobs"@
}

impl BugsLensInput {
    /// Split the mission's top blocker into its summary and severity, and
    /// keep the triage rows in rank order.
    pub fn from_mission(
        open_capsules: u32,
        failed_jobs: u32,
        top_blocker: Option<TopBlocker>,
        rows: Vec<BugRow>,
        event_cursor: u64,
    ) -> (r: BugsLensInput)
        ensures
            r.open_capsules == open_capsules,
            r.failed_jobs == failed_jobs,
            match top_blocker {
                Some(b) => r.top_blocker == Some(b.summary) && r.top_blocker_severity == Some(
                    b.severity,
                ),
                None => r.top_blocker is None && r.top_blocker_severity is None,
            },
            r.rows@ == rows@,
            r.event_cursor == event_cursor,
    {
        let (top, severity) = match top_blocker {
            Some(b) => (Some(b.summary), Some(b.severity)),
            None => (None, None),
        };
        BugsLensInput {
            open_capsules,
            failed_jobs,
            top_blocker: top,
            top_blocker_severity: severity,
            rows,
            event_cursor,
        }
    }

    /// The header line: the top blocker (or `none`) and the failing jobs.
    pub fn header_text(&self) -> (r: String)
        ensures
            r@ == bugs_header(*self),
    {
        let mut s = "Bugs — top blocker: ".to_owned();
        match &self.top_blocker {
            Some(b) => s.append(b.as_str()),
            None => s.append("none"),
        }
        s.append(" · ");
        push_decimal(&mut s, self.failed_jobs as u64);
        s.append(" failing jobs");
        s
    }
}

} // verus!
