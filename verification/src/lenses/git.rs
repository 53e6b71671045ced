//! Git lens data: a pure projection of the recent git-command event ledger.
//!
//! Rows are owned copies of the redacted fields only; a row never carries a
//! non-redacted argv.

use vstd::prelude::*;

use crate::text::{decimal_digits, push_decimal};

verus! {

/// Source record for one git-command event.
#[derive(Debug, Clone, Default)]
pub struct GitCommandEventRecord {
    pub id: i64,
    pub request_id: String,
    pub actor: String,
    pub cwd: String,
    pub repo_root: Option<String>,
    pub argv_redacted: String,
    pub argv_hash: String,
    pub command_class: String,
    pub risk: String,
    pub mode: String,
    pub before_head: Option<String>,
    pub before_branch: Option<String>,
    pub before_dirty: Option<String>,
    pub after_head: Option<String>,
    pub after_branch: Option<String>,
    pub after_dirty: Option<String>,
    pub exit_code: i32,
    pub sidecar_status: String,
    pub mirror_status: String,
    pub created_at: String,
    pub payload: String,
}

/// One projected row of the git command / sync ledger.
#[derive(Debug, Clone, Default)]
pub struct GitEventRow {
    pub created_at: String,
    pub command_class: String,
    pub exit_code: i32,
    pub mirror_status: String,
    pub argv_redacted: String,
}

/// The ledger row projected from one event record.
pub open spec fn git_row_of(r: GitCommandEventRecord) -> GitEventRow {
    GitEventRow {
        created_at: r.created_at,
        command_class: r.command_class,
        exit_code: r.exit_code,
        mirror_status: r.mirror_status,
        argv_redacted: r.argv_redacted,
    }
}

/// A ledger row records a failed command when its exit code is non-zero.
pub open spec fn git_row_failed(r: GitEventRow) -> bool {
    r.exit_code != 0
}

/// Status word of a ledger row.
pub open spec fn git_row_status(r: GitEventRow) -> Seq<char> {
    if r.exit_code == 0 {
        "success"@
    } else {
        "failed"@
    }
}

impl GitEventRow {
    /// Project the redacted fields of one event record.
    pub fn from_record(record: &GitCommandEventRecord) -> (r: GitEventRow)
        ensures
            r == git_row_of(*record),
    {
        GitEventRow {
            created_at: record.created_at.clone(),
            command_class: record.command_class.clone(),
            exit_code: record.exit_code,
            mirror_status: record.mirror_status.clone(),
            argv_redacted: record.argv_redacted.clone(),
        }
    }

    /// `"success"` for a zero exit code, `"failed"` otherwise.
    pub fn status(&self) -> (r: &'static str)
        ensures
            r@ == git_row_status(*self),
    {
        if self.exit_code == 0 {
            "success"
        } else {
            "failed"
        }
    }

    /// Whether the command failed (non-zero exit code).
    pub fn failed(&self) -> (r: bool)
        ensures
            r == git_row_failed(*self),
    {
        self.exit_code != 0
    }
}

/// Owned, render-ready projection of the recent git command ledger.
#[derive(Debug, Clone, Default)]
pub struct GitLensInput {
    pub rows: Vec<GitEventRow>,
    pub selected: usize,
}

/// Number of failed rows in a ledger.
pub open spec fn git_failed_count(rows: Seq<GitEventRow>) -> nat {
    rows.filter(|r: GitEventRow| git_row_failed(r)).len()
}

impl GitLensInput {
    /// One row per event, in ledger order; the selection is kept as given.
    pub fn from_state(events: &[GitCommandEventRecord], selected: usize) -> (r: GitLensInput)
        ensures
            r.rows@ == events@.map_values(|e: GitCommandEventRecord| git_row_of(e)),
            r.selected == selected,
    {
        let mut rows: Vec<GitEventRow> = Vec::new();
        let mut i: usize = 0;
        while i < events.len()
            invariant
                i <= events@.len(),
                rows@ == events@.take(i as int).map_values(|e: GitCommandEventRecord| git_row_of(e)),
            decreases events@.len() - i,
        {
            let row = GitEventRow::from_record(&events[i]);
            rows.push(row);
            proof {
                assert(events@.take(i + 1) =~= events@.take(i as int).push(events@[i as int]));
            }
            i = i + 1;
            assert(rows@ =~= events@.take(i as int).map_values(|e: GitCommandEventRecord| git_row_of(e)));
        }
        assert(events@.take(events@.len() as int) =~= events@);
        GitLensInput { rows, selected }
    }

    /// Number of failed commands in the ledger.
    pub fn failed_count(&self) -> (r: usize)
        ensures
            r == git_failed_count(self.rows@),
    {
        let mut count: usize = 0;
        let mut i: usize = 0;
        while i < self.rows.len()
            invariant
                i <= self.rows@.len(),
                count == git_failed_count(self.rows@.take(i as int)),
                count <= i,
            decreases self.rows@.len() - i,
        {
            proof {
                let s = self.rows@.take(i + 1);
                assert(s.drop_last() =~= self.rows@.take(i as int));
                reveal_with_fuel(Seq::<_>::filter, 1);
            }
            if self.rows[i].failed() {
                count = count + 1;
            }
            i = i + 1;
        }
        assert(self.rows@.take(self.rows@.len() as int) =~= self.rows@);
        count
    }
}

/// Posture word of the ledger header: `idle` when empty, `N failed` when any
/// command failed, `all clean` otherwise.
pub open spec fn git_posture(rows: Seq<GitEventRow>) -> Seq<char> {
    if rows.len() == 0 {
        "idle"@
    } else if git_failed_count(rows) > 0 {
        decimal_digits(git_failed_count(rows)) + " failed"@
    } else {
        "all clean"@
    }
}

/// The ledger header line.
pub open spec fn git_header(rows: Seq<GitEventRow>) -> Seq<char> {
    "Git Sync — "@ + decimal_digits(rows.len()) + " recent operations · "@ + git_posture(rows)
}

impl GitLensInput {
    /// Posture word of the ledger header.
    pub fn posture(&self) -> (r: String)
        ensures
            r@ == git_posture(self.rows@),
    {
        if self.rows.len() == 0 {
            return "idle".to_owned();
        }
        let failed = self.failed_count();
        if failed > 0 {
            let mut s = String::new();
            push_decimal(&mut s, failed as u64);
            s.append(" failed");
            s
        } else {
            "all clean".to_owned()
        }
    }

    /// The ledger header line: the number of recent operations and the
    /// posture.
    pub fn header_text(&self) -> (r: String)
        ensures
            r@ == git_header(self.rows@),
    {
        let mut s = "Git Sync — ".to_owned();
        push_decimal(&mut s, self.rows.len() as u64);
        s.append(" recent operations · ");
        let posture = self.posture();
        s.append(posture.as_str());
        s
    }

    /// The highlighted row: the selection clamped to the last row (0 for an
    /// empty ledger), so an out-of-range selection never mis-highlights.
    pub fn highlighted_row(&self) -> (r: usize)
        ensures
            r == (if self.selected < self.rows@.len() {
                self.selected as int
            } else if self.rows@.len() == 0 {
                0
            } else {
                self.rows@.len() - 1
            }),
    {
        let last = if self.rows.len() == 0 {
            0
        } else {
            self.rows.len() - 1
        };
        if self.selected < last {
            self.selected
        } else {
            last
        }
    }
}

} // verus!
