//! Workflow lens data: delivery posture per pipeline.
//!
//! Rows keep the dashboard's order. When the dashboard carries no summary,
//! the running and blocked counts are counted from the rows.

use vstd::prelude::*;

use crate::text::{decimal_digits, push_decimal};

verus! {

/// Delivery posture of one pipeline.
#[derive(Debug, Clone, Copy, PartialEq, Eq, Structural)]
pub enum DeliveryPosture {
    Running,
    Blocked,
    Merging,
    Delivered,
    Idle,
}

/// One delivery-pipeline row in the Workflow Atlas.
#[derive(Debug, Clone)]
pub struct WorkflowRow {
    pub pipeline_id: String,
    pub label: String,
    pub repo_slug: String,
    pub pr_number: Option<u64>,
    pub posture: DeliveryPosture,
    pub critical_path_node: Option<String>,
}

/// Fleet rollup reported by the workflow dashboard.
#[derive(Debug, Clone, Copy, PartialEq, Eq, Structural)]
pub struct WorkflowSummary {
    pub running_count: u32,
    pub blocked_count: u32,
    pub longest_running_seconds: u64,
}

/// Workflow lens input.
#[derive(Debug, Clone)]
pub struct WorkflowLensInput {
    pub rows: Vec<WorkflowRow>,
    pub running_count: u32,
    pub blocked_count: u32,
    pub longest_running_seconds: u64,
    pub event_cursor: u64,
}

impl Default for WorkflowLensInput {
    fn default() -> (r: WorkflowLensInput)
        ensures
            r.rows@.len() == 0,
            r.running_count == 0,
            r.blocked_count == 0,
            r.longest_running_seconds == 0,
            r.event_cursor == 0,
    {
        WorkflowLensInput {
            rows: Vec::new(),
            running_count: 0,
            blocked_count: 0,
            longest_running_seconds: 0,
            event_cursor: 0,
        }
    }
}

/// Number of rows of `rows` in posture `p`.
pub open spec fn posture_count(rows: Seq<WorkflowRow>, p: DeliveryPosture) -> nat
    decreases rows.len(),
{
    if rows.len() == 0 {
        0
    } else {
        posture_count(rows.drop_last(), p) + if rows.last().posture == p {
            1nat
        } else {
            0nat
        }
    }
}

/// A posture count never exceeds the number of rows.
pub proof fn lemma_posture_count_bounded(rows: Seq<WorkflowRow>, p: DeliveryPosture)
    ensures
        posture_count(rows, p) <= rows.len(),
    decreases rows.len(),
{
    if rows.len() > 0 {
        lemma_posture_count_bounded(rows.drop_last(), p);
    }
}

/// Count the rows of `rows` in posture `p`.
fn count_posture(rows: &Vec<WorkflowRow>, p: DeliveryPosture) -> (r: usize)
    ensures
        r == posture_count(rows@, p),
{
    let mut count: usize = 0;
    let mut i: usize = 0;
    while i < rows.len()
        invariant
            i <= rows@.len(),
            count == posture_count(rows@.take(i as int), p),
        decreases rows@.len() - i,
    {
        proof {
            assert(rows@.take(i + 1).drop_last() =~= rows@.take(i as int));
            lemma_posture_count_bounded(rows@.take(i as int), p);
        }
        if rows[i].posture == p {
            count = count + 1;
        }
        i = i + 1;
    }
    assert(rows@.take(rows@.len() as int) =~= rows@);
    count
}

/// The Workflow Atlas header line.
pub open spec fn workflow_header(w: WorkflowLensInput) -> Seq<char> {
    "Workflow Atlas — "@ + decimal_digits((w.rows@.len() as u32) as nat) + " workflows · "@
        + decimal_digits(w.running_count as nat) + " running · "@ + decimal_digits(
        w.blocked_count as nat,
    ) + " blocked · longest "@ + decimal_digits(w.longest_running_seconds as nat) + "s"@
}

/// The PR cell of a pipeline row: `#N`, or a dash without a PR.
pub open spec fn pr_cell_of(pr: Option<u64>) -> Seq<char> {
    match pr {
        Some(n) => "#"@ + decimal_digits(n as nat),
        None => "—"@,
    }
}

impl WorkflowLensInput {
    /// Project the dashboard: its summary when it has one, else running and
    /// blocked counts counted from the rows (and no longest run).
    pub fn from_dashboard(
        summary: Option<WorkflowSummary>,
        rows: Vec<WorkflowRow>,
        event_cursor: u64,
    ) -> (r: WorkflowLensInput)
        ensures
            r.rows@ == rows@,
            r.event_cursor == event_cursor,
            match summary {
                Some(s) => {
                    &&& r.running_count == s.running_count
                    &&& r.blocked_count == s.blocked_count
                    &&& r.longest_running_seconds == s.longest_running_seconds
                },
                None => {
                    &&& r.running_count == (posture_count(rows@, DeliveryPosture::Running) as u32)
                    &&& r.blocked_count == (posture_count(rows@, DeliveryPosture::Blocked) as u32)
                    &&& r.longest_running_seconds == 0
                },
            },
    {
        let (running_count, blocked_count, longest_running_seconds) = match summary {
            Some(s) => (s.running_count, s.blocked_count, s.longest_running_seconds),
            None => {
                let blocked = count_posture(&rows, DeliveryPosture::Blocked);
                let running = count_posture(&rows, DeliveryPosture::Running);
                (running as u32, blocked as u32, 0u64)
            },
        };
        WorkflowLensInput {
            rows,
            running_count,
            blocked_count,
            longest_running_seconds,
            event_cursor,
        }
    }

    /// Number of pipelines in the atlas.
    pub fn pipeline_count(&self) -> (r: u32)
        ensures
            r == (self.rows@.len() as u32),
    {
        self.rows.len() as u32
    }

    /// The header line: pipelines, running and blocked counts, and the
    /// longest run.
    pub fn header_text(&self) -> (r: String)
        ensures
            r@ == workflow_header(*self),
    {
        let mut s = "Workflow Atlas — ".to_owned();
        push_decimal(&mut s, self.pipeline_count() as u64);
        s.append(" workflows · ");
        push_decimal(&mut s, self.running_count as u64);
        s.append(" running · ");
        push_decimal(&mut s, self.blocked_count as u64);
        s.append(" blocked · longest ");
        push_decimal(&mut s, self.longest_running_seconds);
        s.append("s");
        s
    }
}

impl WorkflowRow {
    /// The PR cell: `#N` for the driving PR, or a dash.
    pub fn pr_cell(&self) -> (r: String)
        ensures
            r@ == pr_cell_of(self.pr_number),
    {
        match self.pr_number {
            Some(n) => {
                let mut s = "#".to_owned();
                push_decimal(&mut s, n);
                s
            },
            None => "—".to_owned(),
        }
    }
}

} // verus!
