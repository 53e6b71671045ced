//! The texts of the Jankurai lens panels: the scan summary, the install /
//! error status, the score-history range and axis labels, the dimension
//! breakdown, the caps/findings list and the entry detail.

use vstd::prelude::*;

use super::data::{
    instant_in_range, JankuraiDimension, JankuraiEntry, JankuraiEntryKind, JankuraiLensInput,
};
use super::{clipped_text, seq_max, seq_min, short_text};
use crate::text::{
    decimal_digits, join_strings, joined, pad_left, pad_right, push_decimal,
    push_decimal_padded_left, push_padded_right, push_signed_decimal, signed_decimal, texts_of,
};

verus! {

// ── Timestamps ──────────────────────────────────────────────────────────

/// `YYYY-MM-DD HH:MM` as chrono writes the UTC instant `secs` seconds after
/// the Unix epoch.
pub uninterp spec fn utc_minute_stamp(secs: int) -> Seq<char>;

/// chrono's `DateTime::<Utc>::from_timestamp(secs, 0)`, formatted with
/// `%Y-%m-%d %H:%M`. The contract claims that chrono represents exactly the
/// instants between `DateTime::<Utc>::MIN_UTC` and `MAX_UTC`, and names the
/// text it writes for them.
#[verifier::external_body]
fn chrono_minute_stamp(secs: i64) -> (r: Option<String>)
    ensures
        r is Some <==> instant_in_range(secs),
        r matches Some(s) ==> s@ == utc_minute_stamp(secs as int),
{
    match chrono::DateTime::from_timestamp(secs, 0) {
        Some(t) => Some(t.format("%Y-%m-%d %H:%M").to_string()),
        None => None,
    }
}

/// Format an instant as `YYYY-MM-DD HH:MM` (UTC).
pub fn format_timestamp(secs: i64) -> (r: String)
    requires
        instant_in_range(secs),
    ensures
        r@ == utc_minute_stamp(secs as int),
{
    match chrono_minute_stamp(secs) {
        Some(s) => s,
        None => String::new(),
    }
}

/// Every instant the lens shows can be written by chrono.
pub open spec fn lens_instants_in_range(input: JankuraiLensInput) -> bool {
    &&& forall|i: int|
        0 <= i < input.history@.len() ==> instant_in_range(#[trigger] input.history@[i].generated_at)
    &&& input.last_scan matches Some(s) ==> (s.generated_at matches Some(t) ==> instant_in_range(t))
}

// ── Summary and status ──────────────────────────────────────────────────

/// The summary panel's field texts.
pub struct JankuraiSummaryText {
    pub score: String,
    pub raw_score: String,
    pub minimum_score: String,
    pub decision: String,
    pub score_status: String,
    pub generated_at: String,
    pub finding_count: String,
    pub hard_findings: String,
    pub soft_findings: String,
    pub cap_count: String,
    pub history_points: String,
}

/// The summary texts: each scan field written out, `n/a` for the scores,
/// verdict and time and `0` for the counts when no scan was recorded.
pub open spec fn summary_matches(input: JankuraiLensInput, r: JankuraiSummaryText) -> bool {
    &&& r.history_points@ == decimal_digits(input.history@.len())
    &&& match input.last_scan {
        Some(s) => {
            &&& r.score@ == signed_decimal(s.score as int)
            &&& r.raw_score@ == signed_decimal(s.raw_score as int)
            &&& r.minimum_score@ == signed_decimal(s.minimum_score as int)
            &&& r.decision@ == s.decision@
            &&& r.score_status@ == s.score_status@
            &&& r.generated_at@ == match s.generated_at {
                Some(t) => utc_minute_stamp(t as int),
                None => "n/a"@,
            }
            &&& r.finding_count@ == decimal_digits(s.finding_count as nat)
            &&& r.hard_findings@ == decimal_digits(s.hard_findings as nat)
            &&& r.soft_findings@ == decimal_digits(s.soft_findings as nat)
            &&& r.cap_count@ == decimal_digits(s.caps_applied@.len())
        },
        None => {
            &&& r.score@ == "n/a"@
            &&& r.raw_score@ == "n/a"@
            &&& r.minimum_score@ == "n/a"@
            &&& r.decision@ == "n/a"@
            &&& r.score_status@ == "n/a"@
            &&& r.generated_at@ == "n/a"@
            &&& r.finding_count@ == "0"@
            &&& r.hard_findings@ == "0"@
            &&& r.soft_findings@ == "0"@
            &&& r.cap_count@ == "0"@
        },
    }
}

/// `n` in decimal.
fn decimal_string(n: u64) -> (r: String)
    ensures
        r@ == decimal_digits(n as nat),
{
    let mut s = String::new();
    push_decimal(&mut s, n);
    s
}

/// `n` in decimal, signed.
fn signed_string(n: i64) -> (r: String)
    ensures
        r@ == signed_decimal(n as int),
{
    let mut s = String::new();
    push_signed_decimal(&mut s, n);
    s
}

/// The empty-state line of the summary panel.
pub open spec fn empty_state_of(input: JankuraiLensInput) -> Option<Seq<char>> {
    if input.last_scan is None && input.error is None {
        Some(
            if input.installed {
                "  Jankurai installed — scan not run yet."@
            } else {
                "  Jankurai not run yet / not installed."@
            },
        )
    } else {
        None
    }
}

impl JankuraiLensInput {
    /// The summary panel's field texts.
    pub fn summary_text(&self) -> (r: JankuraiSummaryText)
        requires
            lens_instants_in_range(*self),
        ensures
            summary_matches(*self, r),
    {
        let history_points = decimal_string(self.history.len() as u64);
        match &self.last_scan {
            Some(s) => {
                let generated_at = match s.generated_at {
                    Some(t) => format_timestamp(t),
                    None => "n/a".to_owned(),
                };
                JankuraiSummaryText {
                    score: signed_string(s.score),
                    raw_score: signed_string(s.raw_score),
                    minimum_score: signed_string(s.minimum_score),
                    decision: s.decision.clone(),
                    score_status: s.score_status.clone(),
                    generated_at,
                    finding_count: decimal_string(s.finding_count as u64),
                    hard_findings: decimal_string(s.hard_findings as u64),
                    soft_findings: decimal_string(s.soft_findings as u64),
                    cap_count: decimal_string(s.caps_applied.len() as u64),
                    history_points,
                }
            },
            None => JankuraiSummaryText {
                score: "n/a".to_owned(),
                raw_score: "n/a".to_owned(),
                minimum_score: "n/a".to_owned(),
                decision: "n/a".to_owned(),
                score_status: "n/a".to_owned(),
                generated_at: "n/a".to_owned(),
                finding_count: "0".to_owned(),
                hard_findings: "0".to_owned(),
                soft_findings: "0".to_owned(),
                cap_count: "0".to_owned(),
                history_points,
            },
        }
    }

    /// Whether the last score clears the minimum (green) or not (red); none
    /// without a scan.
    pub fn score_clears_minimum(&self) -> (r: Option<bool>)
        ensures
            match self.last_scan {
                Some(s) => r == Some(s.score >= s.minimum_score),
                None => r is None,
            },
    {
        match &self.last_scan {
            Some(s) => Some(s.score >= s.minimum_score),
            None => None,
        }
    }

    /// The summary panel's empty-state line, shown when there is neither a
    /// scan nor an error.
    pub fn empty_state_line(&self) -> (r: Option<&'static str>)
        ensures
            match empty_state_of(*self) {
                Some(t) => r matches Some(l) && l@ == t,
                None => r is None,
            },
    {
        if self.last_scan.is_none() && self.error.is_none() {
            if self.installed {
                Some("  Jankurai installed — scan not run yet.")
            } else {
                Some("  Jankurai not run yet / not installed.")
            }
        } else {
            None
        }
    }

    /// The install word of the status panel.
    pub fn install_word(&self) -> (r: &'static str)
        ensures
            r@ == (if self.installed {
                "installed"@
            } else {
                "not installed"@
            }),
    {
        if self.installed {
            "installed"
        } else {
            "not installed"
        }
    }

    /// The load error, clipped to a status panel `inner_width` columns wide.
    pub fn error_text(&self, inner_width: usize) -> (r: Option<String>)
        ensures
            match self.error {
                Some(e) => r matches Some(t) && t@ == clipped_text(
                    e@,
                    (if inner_width >= 2 {
                        inner_width - 2
                    } else {
                        0
                    }) as nat,
                ),
                None => r is None,
            },
    {
        match &self.error {
            Some(e) => Some(short_text(e.as_str(), inner_width.saturating_sub(2))),
            None => None,
        }
    }
}

// ── Score history ───────────────────────────────────────────────────────

/// The scores of the history, oldest first.
pub open spec fn history_scores_of(input: JankuraiLensInput) -> Seq<i64> {
    input.history@.map_values(|p: super::data::JankuraiHistoryPoint| p.score)
}

/// The compact range line: lowest and highest score (`0` for an empty
/// history).
pub open spec fn score_range_of(scores: Seq<i64>) -> Seq<char> {
    if scores.len() == 0 {
        "0 -> 0"@
    } else {
        signed_decimal(seq_min(scores)) + " -> "@ + signed_decimal(seq_max(scores))
    }
}

/// The range line of a non-empty history runs from its lowest score to its
/// highest: for any two scores of the history such that every score lies
/// between them, the line is the first, ` -> `, then the second.
pub proof fn lemma_score_range_is_lowest_to_highest(scores: Seq<i64>, lo: i64, hi: i64)
    requires
        scores.contains(lo),
        scores.contains(hi),
        forall|j: int| 0 <= j < scores.len() ==> lo <= #[trigger] scores[j] <= hi,
    ensures
        score_range_of(scores) == signed_decimal(lo as int) + " -> "@ + signed_decimal(hi as int),
{
    super::lemma_seq_min_max_bounds(scores);
    super::lemma_seq_min_max_attained(scores);
    let a = choose|j: int| 0 <= j < scores.len() && scores[j] == lo;
    let b = choose|j: int| 0 <= j < scores.len() && scores[j] == hi;
    let m = choose|j: int| 0 <= j < scores.len() && scores[j] == seq_min(scores);
    let x = choose|j: int| 0 <= j < scores.len() && scores[j] == seq_max(scores);
    assert(scores[a] == lo && scores[b] == hi);
    assert(lo <= scores[m] && scores[x] <= hi);
}

/// With no score in the history, lowest and highest both read `0`.
pub proof fn lemma_empty_history_range()
    ensures
        score_range_of(Seq::<i64>::empty()) == signed_decimal(0) + " -> "@ + signed_decimal(0),
{
    reveal_strlit("0 -> 0");
    reveal_strlit(" -> ");
    assert(signed_decimal(0) == seq!['0']);
    assert(signed_decimal(0) + " -> "@ + signed_decimal(0) =~= "0 -> 0"@);
}

impl JankuraiLensInput {
    /// The scores of the history, oldest first.
    pub fn history_scores(&self) -> (r: Vec<i64>)
        ensures
            r@ == history_scores_of(*self),
    {
        let mut out: Vec<i64> = Vec::new();
        let mut i: usize = 0;
        while i < self.history.len()
            invariant
                i <= self.history@.len(),
                out@ =~= history_scores_of(*self).take(i as int),
            decreases self.history@.len() - i,
        {
            out.push(self.history[i].score);
            i = i + 1;
        }
        out
    }

    /// The compact range line under the sparkline: lowest and highest score.
    pub fn score_range_text(&self) -> (r: String)
        ensures
            r@ == score_range_of(history_scores_of(*self)),
    {
        let scores = self.history_scores();
        if scores.len() == 0 {
            return "0 -> 0".to_owned();
        }
        let mut lo: i64 = scores[0];
        let mut hi: i64 = scores[0];
        let mut k: usize = 1;
        assert(scores@.take(1) =~= seq![scores@[0]]);
        while k < scores.len()
            invariant
                1 <= k <= scores@.len(),
                lo == seq_min(scores@.take(k as int)),
                hi == seq_max(scores@.take(k as int)),
            decreases scores@.len() - k,
        {
            proof {
                assert(scores@.take(k + 1).drop_last() =~= scores@.take(k as int));
            }
            if scores[k] < lo {
                lo = scores[k];
            }
            if scores[k] > hi {
                hi = scores[k];
            }
            k = k + 1;
        }
        assert(scores@.take(scores@.len() as int) =~= scores@);
        let mut s = String::new();
        push_signed_decimal(&mut s, lo);
        s.append(" -> ");
        push_signed_decimal(&mut s, hi);
        s
    }

    /// The time-axis labels: the first and last history instants, or
    /// `start` / `end` for an empty history.
    pub fn chart_labels(&self) -> (r: (String, String))
        requires
            lens_instants_in_range(*self),
        ensures
            self.history@.len() == 0 ==> r.0@ == "start"@ && r.1@ == "end"@,
            self.history@.len() > 0 ==> r.0@ == utc_minute_stamp(
                self.history@[0].generated_at as int,
            ) && r.1@ == utc_minute_stamp(self.history@.last().generated_at as int),
    {
        let n = self.history.len();
        if n == 0 {
            ("start".to_owned(), "end".to_owned())
        } else {
            (
                format_timestamp(self.history[0].generated_at),
                format_timestamp(self.history[n - 1].generated_at),
            )
        }
    }
}

// ── Dimension breakdown ─────────────────────────────────────────────────

/// How a dimension score reads: strong from 90, fair from 75, weak below.
#[derive(Debug, Clone, Copy, PartialEq, Eq, Structural)]
pub enum ScoreTier {
    Strong,
    Fair,
    Weak,
}

/// The tier of a dimension score.
pub open spec fn tier_of(score: u64) -> ScoreTier {
    if score >= 90 {
        ScoreTier::Strong
    } else if score >= 75 {
        ScoreTier::Fair
    } else {
        ScoreTier::Weak
    }
}

/// The notes cell of a dimension: empty without notes, else the notes
/// joined with `; ` and clipped to 40 characters.
pub open spec fn notes_cell_of(notes: Seq<String>) -> Seq<char> {
    if notes.len() == 0 {
        Seq::empty()
    } else {
        " notes: "@ + clipped_text(joined(texts_of(notes), "; "@), 40)
    }
}

impl JankuraiDimension {
    /// The tier of the dimension's score.
    pub fn tier(&self) -> (r: ScoreTier)
        ensures
            r == tier_of(self.score),
    {
        if self.score >= 90 {
            ScoreTier::Strong
        } else if self.score >= 75 {
            ScoreTier::Fair
        } else {
            ScoreTier::Weak
        }
    }

    /// The score cell: the score right-aligned in three columns, then a
    /// blank.
    pub fn score_cell(&self) -> (r: String)
        ensures
            r@ == pad_left(decimal_digits(self.score as nat), 3) + " "@,
    {
        let mut s = String::new();
        push_decimal_padded_left(&mut s, self.score, 3);
        s.append(" ");
        s
    }

    /// The weight cell: `w`, the weight right-aligned in two columns, then a
    /// blank.
    pub fn weight_cell(&self) -> (r: String)
        ensures
            r@ == "w"@ + pad_left(decimal_digits(self.weight as nat), 2) + " "@,
    {
        let mut s = "w".to_owned();
        push_decimal_padded_left(&mut s, self.weight, 2);
        s.append(" ");
        s
    }

    /// The name cell, clipped to a panel `inner_width` columns wide.
    pub fn name_cell(&self, inner_width: usize) -> (r: String)
        ensures
            r@ == clipped_text(
                self.name@,
                (if inner_width >= 16 {
                    inner_width - 16
                } else {
                    0
                }) as nat,
            ),
    {
        short_text(self.name.as_str(), inner_width.saturating_sub(16))
    }

    /// The notes cell.
    pub fn notes_cell(&self) -> (r: String)
        ensures
            r@ == notes_cell_of(self.notes@),
    {
        if self.notes.len() == 0 {
            String::new()
        } else {
            let all = join_strings(self.notes.as_slice(), "; ");
            let mut s = " notes: ".to_owned();
            let clipped = short_text(all.as_str(), 40);
            s.append(clipped.as_str());
            s
        }
    }
}

// ── Caps / findings list and entry detail ───────────────────────────────

/// The badge of a list entry.
#[derive(Debug, Clone, Copy, PartialEq, Eq, Structural)]
pub enum EntryBadge {
    Cap,
    High,
    Medium,
    Low,
    Info,
}

/// The badge of an entry: caps read `CAP`; findings by severity.
pub open spec fn badge_of(e: JankuraiEntry) -> EntryBadge {
    match e.kind {
        JankuraiEntryKind::Cap => EntryBadge::Cap,
        JankuraiEntryKind::Finding => match e.severity {
            Some(s) => if s@ == "high"@ {
                EntryBadge::High
            } else if s@ == "medium"@ {
                EntryBadge::Medium
            } else if s@ == "low"@ {
                EntryBadge::Low
            } else {
                EntryBadge::Info
            },
            None => EntryBadge::Info,
        },
    }
}

/// The text of a badge.
pub open spec fn badge_text_of(b: EntryBadge) -> Seq<char> {
    match b {
        EntryBadge::Cap => "CAP"@,
        EntryBadge::High => "HIGH"@,
        EntryBadge::Medium => "MED"@,
        EntryBadge::Low => "LOW"@,
        EntryBadge::Info => "INFO"@,
    }
}

/// An optional text, or `default` when absent.
pub open spec fn text_or(v: Option<String>, default: Seq<char>) -> Seq<char> {
    match v {
        Some(s) => s@,
        None => default,
    }
}

/// A clipping width: `inner_width - margin`, never below zero.
pub open spec fn room(inner_width: usize, margin: usize) -> nat {
    if inner_width >= margin {
        (inner_width - margin) as nat
    } else {
        0
    }
}

/// An evidence bullet of the detail panel.
pub open spec fn evidence_line_of(item: Seq<char>, inner_width: usize) -> Seq<char> {
    "  - "@ + clipped_text(item, room(inner_width, 6))
}

impl EntryBadge {
    /// The badge text.
    pub fn text(&self) -> (r: &'static str)
        ensures
            r@ == badge_text_of(*self),
    {
        match self {
            EntryBadge::Cap => "CAP",
            EntryBadge::High => "HIGH",
            EntryBadge::Medium => "MED",
            EntryBadge::Low => "LOW",
            EntryBadge::Info => "INFO",
        }
    }
}

/// An optional text, or `default` when absent.
fn string_or(v: &Option<String>, default: &str) -> (r: String)
    ensures
        r@ == text_or(*v, default@),
{
    match v {
        Some(s) => s.clone(),
        None => default.to_owned(),
    }
}

/// A detail value: the text, or `n/a` when absent.
pub fn value_or_na(v: &Option<String>) -> (r: String)
    ensures
        r@ == text_or(*v, "n/a"@),
{
    string_or(v, "n/a")
}

impl JankuraiEntry {
    /// The entry's badge.
    pub fn badge(&self) -> (r: EntryBadge)
        ensures
            r == badge_of(*self),
    {
        match self.kind {
            JankuraiEntryKind::Cap => EntryBadge::Cap,
            JankuraiEntryKind::Finding => match &self.severity {
                Some(s) => {
                    if *s == "high".to_owned() {
                        EntryBadge::High
                    } else if *s == "medium".to_owned() {
                        EntryBadge::Medium
                    } else if *s == "low".to_owned() {
                        EntryBadge::Low
                    } else {
                        EntryBadge::Info
                    }
                },
                None => EntryBadge::Info,
            },
        }
    }

    /// The badge cell: the badge left-aligned in five columns between blanks.
    pub fn badge_cell(&self) -> (r: String)
        ensures
            r@ == " "@ + pad_right(badge_text_of(badge_of(*self)), 5) + " "@,
    {
        let mut s = " ".to_owned();
        push_padded_right(&mut s, self.badge().text(), 5);
        s.append(" ");
        s
    }

    /// The path cell: the path clipped to 18 characters and left-aligned in
    /// 18 columns, then a blank.
    pub fn path_cell(&self) -> (r: String)
        ensures
            r@ == pad_right(clipped_text(text_or(self.path, ""@), 18), 18) + " "@,
    {
        let path = string_or(&self.path, "");
        let clipped = short_text(path.as_str(), 18);
        let mut s = String::new();
        push_padded_right(&mut s, clipped.as_str(), 18);
        s.append(" ");
        s
    }

    /// The problem cell: the problem (or the label) clipped to a list
    /// `inner_width` columns wide.
    pub fn problem_cell(&self, inner_width: usize) -> (r: String)
        ensures
            r@ == clipped_text(text_or(self.problem, self.label@), room(inner_width, 32)),
    {
        let text = string_or(&self.problem, self.label.as_str());
        short_text(text.as_str(), inner_width.saturating_sub(32))
    }

    /// The kind word of the detail panel.
    pub fn kind_word(&self) -> (r: &'static str)
        ensures
            r@ == (match self.kind {
                JankuraiEntryKind::Cap => "cap"@,
                JankuraiEntryKind::Finding => "finding"@,
            }),
    {
        match self.kind {
            JankuraiEntryKind::Cap => "cap",
            JankuraiEntryKind::Finding => "finding",
        }
    }

    /// The problem line of the detail panel, clipped to `inner_width - 11`.
    pub fn problem_detail(&self, inner_width: usize) -> (r: String)
        ensures
            r@ == clipped_text(text_or(self.problem, "n/a"@), room(inner_width, 11)),
    {
        let text = value_or_na(&self.problem);
        short_text(text.as_str(), inner_width.saturating_sub(11))
    }

    /// The fix line of the detail panel, clipped to `inner_width - 11`.
    pub fn fix_detail(&self, inner_width: usize) -> (r: String)
        ensures
            r@ == clipped_text(text_or(self.suggested_fix, "n/a"@), room(inner_width, 11)),
    {
        let text = value_or_na(&self.suggested_fix);
        short_text(text.as_str(), inner_width.saturating_sub(11))
    }

    /// The evidence bullets of the detail panel, one per item.
    pub fn evidence_lines(&self, inner_width: usize) -> (r: Vec<String>)
        ensures
            r@.len() == self.evidence@.len(),
            forall|i: int|
                0 <= i < r@.len() ==> (#[trigger] r@[i])@ == evidence_line_of(
                    self.evidence@[i]@,
                    inner_width,
                ),
    {
        let mut out: Vec<String> = Vec::new();
        let mut i: usize = 0;
        while i < self.evidence.len()
            invariant
                i <= self.evidence@.len(),
                out@.len() == i,
                forall|k: int|
                    0 <= k < i ==> (#[trigger] out@[k])@ == evidence_line_of(
                        self.evidence@[k]@,
                        inner_width,
                    ),
            decreases self.evidence@.len() - i,
        {
            let mut line = "  - ".to_owned();
            let clipped = short_text(self.evidence[i].as_str(), inner_width.saturating_sub(6));
            line.append(clipped.as_str());
            out.push(line);
            i = i + 1;
        }
        out
    }
}

} // verus!
