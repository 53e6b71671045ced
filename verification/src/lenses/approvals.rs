//! Approvals lens data: pull requests awaiting a human, with the highlighted
//! row clamped to the queue so the inspector always points at a real row (or
//! none, when the queue is empty).

use vstd::prelude::*;

use crate::text::{chars_of, decimal_digits, push_decimal, string_from_prefix};

verus! {

/// Risk tier of a change, from read-only `R0` to production-critical `R5`.
#[derive(Debug, Clone, Copy, PartialEq, Eq, Structural)]
pub enum RiskTier {
    R0,
    R1,
    R2,
    R3,
    R4,
    R5,
}

/// CI checks status of a pull request.
#[derive(Debug, Clone, Copy, PartialEq, Eq, Structural)]
pub enum CheckStatus {
    Success,
    Pending,
    Failure,
    Neutral,
}

/// One pull request awaiting human approval.
#[derive(Debug, Clone, PartialEq, Eq)]
pub struct ApprovalRow {
    pub pr_number: u64,
    pub title: String,
    pub author: String,
    pub risk: RiskTier,
    pub checks: CheckStatus,
    pub age: String,
    pub head_sha: String,
}

/// Approvals lens input: the queue in order and the highlighted row.
#[derive(Debug, Clone)]
pub struct ApprovalsLensInput {
    /// Pending approvals awaiting a human, in queue order.
    pub rows: Vec<ApprovalRow>,
    /// Index of the highlighted row, clamped to `rows`.
    pub selected: usize,
    pub event_cursor: u64,
}

/// The highlighted index clamped to a queue of `len` rows (0 when empty).
pub open spec fn clamp_selection(len: nat, selected: usize) -> usize {
    if len == 0 {
        0
    } else if selected < len {
        selected
    } else {
        (len - 1) as usize
    }
}

/// The short tag of a risk tier.
pub open spec fn risk_tag_of(risk: RiskTier) -> Seq<char> {
    match risk {
        RiskTier::R0 => "R0"@,
        RiskTier::R1 => "R1"@,
        RiskTier::R2 => "R2"@,
        RiskTier::R3 => "R3"@,
        RiskTier::R4 => "R4"@,
        RiskTier::R5 => "R5"@,
    }
}

impl RiskTier {
    /// The short tag: `R0` to `R5`.
    pub fn tag(&self) -> (r: &'static str)
        ensures
            r@ == risk_tag_of(*self),
    {
        match self {
            RiskTier::R0 => "R0",
            RiskTier::R1 => "R1",
            RiskTier::R2 => "R2",
            RiskTier::R3 => "R3",
            RiskTier::R4 => "R4",
            RiskTier::R5 => "R5",
        }
    }
}

impl ApprovalRow {
    /// The PR cell: `#N`.
    pub fn pr_cell(&self) -> (r: String)
        ensures
            r@ == "#"@ + decimal_digits(self.pr_number as nat),
    {
        let mut s = "#".to_owned();
        push_decimal(&mut s, self.pr_number);
        s
    }
}

impl ApprovalRow {
    /// The author cell: the author clipped to 14 characters.
    pub fn author_cell(&self) -> (r: String)
        ensures
            r@ == approvals_short_text(self.author@, 14),
    {
        short_text(self.author.as_str(), 14)
    }

    /// The title cell: the title clipped to 40 characters.
    pub fn title_cell(&self) -> (r: String)
        ensures
            r@ == approvals_short_text(self.title@, 40),
    {
        short_text(self.title.as_str(), 40)
    }

    /// The head commit, clipped to 12 characters for the inspector.
    pub fn sha_cell(&self) -> (r: String)
        ensures
            r@ == approvals_short_text(self.head_sha@, 12),
    {
        short_text(self.head_sha.as_str(), 12)
    }
}

impl ApprovalsLensInput {
    /// The queue panel title: the number of pending approvals.
    pub fn queue_title(&self) -> (r: String)
        ensures
            r@ == " Awaiting approval ("@ + decimal_digits(self.rows@.len()) + ") "@,
    {
        let mut s = " Awaiting approval (".to_owned();
        push_decimal(&mut s, self.rows.len() as u64);
        s.append(") ");
        s
    }

    /// Keep the queue in order and highlight `selected`, clamped to the last
    /// row so the inspector never points past the queue.
    pub fn from_rows_selecting(rows: Vec<ApprovalRow>, selected: usize, event_cursor: u64) -> (r:
        ApprovalsLensInput)
        ensures
            r.rows@ == rows@,
            r.selected == clamp_selection(rows@.len(), selected),
            r.event_cursor == event_cursor,
    {
        let selected = if rows.len() == 0 {
            0
        } else if selected < rows.len() {
            selected
        } else {
            rows.len() - 1
        };
        ApprovalsLensInput { rows, selected, event_cursor }
    }

    /// The highlighted row, if the queue has one at the selected index.
    pub fn selected_row(&self) -> (r: Option<&ApprovalRow>)
        ensures
            self.selected < self.rows@.len() ==> r == Some(&self.rows@[self.selected as int]),
            self.selected >= self.rows@.len() ==> r is None,
    {
        if self.selected < self.rows.len() {
            Some(&self.rows[self.selected])
        } else {
            None
        }
    }

    /// Whether the queue is empty.
    pub fn is_empty(&self) -> (r: bool)
        ensures
            r == (self.rows@.len() == 0),
    {
        self.rows.len() == 0
    }
}

/// The inspector always points at a real row: a clamped selection lies inside
/// every non-empty queue, and is 0 for an empty one.
pub proof fn lemma_clamped_selection_points_at_a_row(len: nat, selected: usize)
    ensures
        len > 0 ==> clamp_selection(len, selected) < len,
        len == 0 ==> clamp_selection(len, selected) == 0,
        selected < len ==> clamp_selection(len, selected) == selected,
{
}

/// `text` when it has at most `max` characters; otherwise its first `max - 1`
/// characters (none when `max` is 0) followed by an ellipsis, so the result
/// never exceeds `max` characters when `max >= 1`.
pub open spec fn approvals_short_text(text: Seq<char>, max: nat) -> Seq<char> {
    if text.len() <= max {
        text
    } else {
        text.take(if max >= 1 { max - 1 } else { 0 }) + "…"@
    }
}

/// Truncate `text` to `max` characters, ending a clipped text with `…`.
pub fn short_text(text: &str, max: usize) -> (r: String)
    ensures
        r@ == approvals_short_text(text@, max as nat),
{
    let chars = chars_of(text);
    if chars.len() <= max {
        return text.to_owned();
    }
    let keep: usize = if max >= 1 {
        max - 1
    } else {
        0
    };
    let mut head = string_from_prefix(chars.as_slice(), keep);
    head.append("…");
    head
}

} // verus!
