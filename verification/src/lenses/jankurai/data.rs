//! Jankurai lens data: the quality-score snapshot (score history, last scan,
//! dimension breakdown, caps and findings) projected into the lens input.
//!
//! Instants are held as Unix seconds (UTC) within the range chrono can
//! represent.

use vstd::prelude::*;

verus! {

/// Earliest Unix second chrono represents (`DateTime::<Utc>::MIN_UTC`).
pub const CHRONO_MIN_SECS: i64 = -8_334_601_228_800;

/// Latest Unix second chrono represents (`DateTime::<Utc>::MAX_UTC`).
pub const CHRONO_MAX_SECS: i64 = 8_210_266_876_799;

/// Whether chrono can represent the instant `secs`.
pub open spec fn instant_in_range(secs: i64) -> bool {
    CHRONO_MIN_SECS <= secs <= CHRONO_MAX_SECS
}

/// Kind of a Jankurai list entry.
#[derive(Debug, Clone, Copy, PartialEq, Eq, Structural)]
pub enum JankuraiEntryKind {
    Cap,
    Finding,
}

/// One cap or finding of the last scan.
#[derive(Debug)]
pub struct JankuraiEntry {
    pub kind: JankuraiEntryKind,
    pub label: String,
    pub severity: Option<String>,
    pub hardness: Option<String>,
    pub path: Option<String>,
    pub rule: Option<String>,
    pub lane: Option<String>,
    pub owner: Option<String>,
    pub problem: Option<String>,
    pub evidence: Vec<String>,
    pub suggested_fix: Option<String>,
}

/// One point of the score history.
#[derive(Debug)]
pub struct JankuraiHistoryPoint {
    /// Unix seconds (UTC) of the scan.
    pub generated_at: i64,
    pub score: i64,
    pub raw_score: Option<i64>,
    pub decision: Option<String>,
}

/// The last scan's verdict.
#[derive(Debug)]
pub struct JankuraiScan {
    /// Unix seconds (UTC) of the scan, when known.
    pub generated_at: Option<i64>,
    pub score: i64,
    pub raw_score: i64,
    pub minimum_score: i64,
    pub decision: String,
    pub score_status: String,
    pub finding_count: usize,
    pub hard_findings: usize,
    pub soft_findings: usize,
    pub caps_applied: Vec<String>,
}

/// One scored dimension of the last scan.
#[derive(Debug)]
pub struct JankuraiDimension {
    pub name: String,
    pub weight: u64,
    pub score: u64,
    pub evidence: Vec<String>,
    pub notes: Vec<String>,
}

/// Everything known about Jankurai on this host.
#[derive(Debug)]
pub struct JankuraiSnapshot {
    pub installed: bool,
    pub history: Vec<JankuraiHistoryPoint>,
    pub dimensions: Vec<JankuraiDimension>,
    pub entries: Vec<JankuraiEntry>,
    pub last_scan: Option<JankuraiScan>,
    pub error: Option<String>,
}

/// Jankurai lens input: the snapshot and the highlighted entry.
#[derive(Debug)]
pub struct JankuraiLensInput {
    pub installed: bool,
    pub last_scan: Option<JankuraiScan>,
    pub history: Vec<JankuraiHistoryPoint>,
    pub dimensions: Vec<JankuraiDimension>,
    pub entries: Vec<JankuraiEntry>,
    pub error: Option<String>,
    pub selected_index: usize,
}

/// `b` holds what `a` holds.
pub open spec fn entry_copied(a: JankuraiEntry, b: JankuraiEntry) -> bool {
    &&& b.kind == a.kind
    &&& b.label == a.label
    &&& b.severity == a.severity
    &&& b.hardness == a.hardness
    &&& b.path == a.path
    &&& b.rule == a.rule
    &&& b.lane == a.lane
    &&& b.owner == a.owner
    &&& b.problem == a.problem
    &&& b.evidence@ == a.evidence@
    &&& b.suggested_fix == a.suggested_fix
}

/// `b` holds what `a` holds.
pub open spec fn scan_copied(a: JankuraiScan, b: JankuraiScan) -> bool {
    &&& b.generated_at == a.generated_at
    &&& b.score == a.score
    &&& b.raw_score == a.raw_score
    &&& b.minimum_score == a.minimum_score
    &&& b.decision == a.decision
    &&& b.score_status == a.score_status
    &&& b.finding_count == a.finding_count
    &&& b.hard_findings == a.hard_findings
    &&& b.soft_findings == a.soft_findings
    &&& b.caps_applied@ == a.caps_applied@
}

/// `b` holds what `a` holds.
pub open spec fn dimension_copied(a: JankuraiDimension, b: JankuraiDimension) -> bool {
    &&& b.name == a.name
    &&& b.weight == a.weight
    &&& b.score == a.score
    &&& b.evidence@ == a.evidence@
    &&& b.notes@ == a.notes@
}

/// Copy of a list of strings, element for element.
fn clone_strings(v: &Vec<String>) -> (r: Vec<String>)
    ensures
        r@ == v@,
{
    let r = v.clone();
    assert(r@ =~= v@);
    r
}

/// Copy of an optional string.
fn clone_opt(v: &Option<String>) -> (r: Option<String>)
    ensures
        r == *v,
{
    match v {
        Some(s) => Some(s.clone()),
        None => None,
    }
}

impl Clone for JankuraiEntry {
    fn clone(&self) -> (r: JankuraiEntry)
        ensures
            entry_copied(*self, r),
    {
        JankuraiEntry {
            kind: self.kind,
            label: self.label.clone(),
            severity: clone_opt(&self.severity),
            hardness: clone_opt(&self.hardness),
            path: clone_opt(&self.path),
            rule: clone_opt(&self.rule),
            lane: clone_opt(&self.lane),
            owner: clone_opt(&self.owner),
            problem: clone_opt(&self.problem),
            evidence: clone_strings(&self.evidence),
            suggested_fix: clone_opt(&self.suggested_fix),
        }
    }
}

impl Clone for JankuraiHistoryPoint {
    fn clone(&self) -> (r: JankuraiHistoryPoint)
        ensures
            r == *self,
    {
        JankuraiHistoryPoint {
            generated_at: self.generated_at,
            score: self.score,
            raw_score: self.raw_score,
            decision: clone_opt(&self.decision),
        }
    }
}

impl Clone for JankuraiScan {
    fn clone(&self) -> (r: JankuraiScan)
        ensures
            scan_copied(*self, r),
    {
        JankuraiScan {
            generated_at: self.generated_at,
            score: self.score,
            raw_score: self.raw_score,
            minimum_score: self.minimum_score,
            decision: self.decision.clone(),
            score_status: self.score_status.clone(),
            finding_count: self.finding_count,
            hard_findings: self.hard_findings,
            soft_findings: self.soft_findings,
            caps_applied: clone_strings(&self.caps_applied),
        }
    }
}

impl Clone for JankuraiDimension {
    fn clone(&self) -> (r: JankuraiDimension)
        ensures
            dimension_copied(*self, r),
    {
        JankuraiDimension {
            name: self.name.clone(),
            weight: self.weight,
            score: self.score,
            evidence: clone_strings(&self.evidence),
            notes: clone_strings(&self.notes),
        }
    }
}

impl Default for JankuraiSnapshot {
    fn default() -> (r: JankuraiSnapshot)
        ensures
            !r.installed,
            r.history@.len() == 0,
            r.dimensions@.len() == 0,
            r.entries@.len() == 0,
            r.last_scan is None,
            r.error is None,
    {
        JankuraiSnapshot {
            installed: false,
            history: Vec::new(),
            dimensions: Vec::new(),
            entries: Vec::new(),
            last_scan: None,
            error: None,
        }
    }
}

impl Default for JankuraiLensInput {
    fn default() -> (r: JankuraiLensInput)
        ensures
            !r.installed,
            r.last_scan is None,
            r.history@.len() == 0,
            r.dimensions@.len() == 0,
            r.entries@.len() == 0,
            r.error is None,
            r.selected_index == 0,
    {
        JankuraiLensInput {
            installed: false,
            last_scan: None,
            history: Vec::new(),
            dimensions: Vec::new(),
            entries: Vec::new(),
            error: None,
            selected_index: 0,
        }
    }
}

impl JankuraiLensInput {
    /// Project the snapshot, highlighting entry `selected_index`.
    pub fn from_state(state: &JankuraiSnapshot, selected_index: usize) -> (r: JankuraiLensInput)
        ensures
            r.installed == state.installed,
            r.selected_index == selected_index,
            r.error == state.error,
            match state.last_scan {
                Some(s) => r.last_scan matches Some(t) && scan_copied(s, t),
                None => r.last_scan is None,
            },
            r.history@ == state.history@,
            r.dimensions@.len() == state.dimensions@.len(),
            forall|i: int|
                0 <= i < r.dimensions@.len() ==> dimension_copied(
                    state.dimensions@[i],
                    #[trigger] r.dimensions@[i],
                ),
            r.entries@.len() == state.entries@.len(),
            forall|i: int|
                0 <= i < r.entries@.len() ==> entry_copied(
                    state.entries@[i],
                    #[trigger] r.entries@[i],
                ),
    {
        JankuraiLensInput {
            installed: state.installed,
            last_scan: match &state.last_scan {
                Some(s) => Some(s.clone()),
                None => None,
            },
            history: state.history.clone(),
            dimensions: state.dimensions.clone(),
            entries: state.entries.clone(),
            error: clone_opt(&state.error),
            selected_index,
        }
    }

    /// The highlighted entry, if any.
    pub fn selected_entry(&self) -> (r: Option<&JankuraiEntry>)
        ensures
            self.selected_index < self.entries@.len() ==> r == Some(
                &self.entries@[self.selected_index as int],
            ),
            self.selected_index >= self.entries@.len() ==> r is None,
    {
        if self.selected_index < self.entries.len() {
            Some(&self.entries[self.selected_index])
        } else {
            None
        }
    }

    /// Whether a scan has been recorded.
    pub fn has_scan(&self) -> (r: bool)
        ensures
            r == self.last_scan is Some,
    {
        self.last_scan.is_some()
    }
}

} // verus!
