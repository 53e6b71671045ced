use chrono::TimeZone;
use jeryu_tui::lenses::jankurai::data::{
    JankuraiDimension, JankuraiEntry, JankuraiEntryKind, JankuraiHistoryPoint, JankuraiLensInput,
    JankuraiScan, JankuraiSnapshot, CHRONO_MAX_SECS, CHRONO_MIN_SECS,
};
use jeryu_tui::lenses::jankurai::panels::{format_timestamp, value_or_na, EntryBadge, ScoreTier};

const TS: i64 = 1_778_038_040;

fn finding() -> JankuraiEntry {
    JankuraiEntry {
        kind: JankuraiEntryKind::Finding,
        label: "missing test".into(),
        severity: Some("high".into()),
        hardness: Some("hard".into()),
        path: Some("src/lib.rs".into()),
        rule: Some("rule-a".into()),
        lane: Some("fast".into()),
        owner: Some("tools".into()),
        problem: Some("no coverage on parser".into()),
        evidence: vec!["line 42".into()],
        suggested_fix: Some("add a unit test".into()),
    }
}

fn cap() -> JankuraiEntry {
    JankuraiEntry {
        kind: JankuraiEntryKind::Cap,
        label: "cap-a".into(),
        severity: None,
        hardness: None,
        path: None,
        rule: None,
        lane: None,
        owner: None,
        problem: None,
        evidence: vec![],
        suggested_fix: None,
    }
}

fn populated_input() -> JankuraiLensInput {
    let snapshot = JankuraiSnapshot {
        installed: true,
        history: vec![
            JankuraiHistoryPoint {
                generated_at: TS,
                score: 80,
                raw_score: Some(80),
                decision: Some("advisory".into()),
            },
            JankuraiHistoryPoint {
                generated_at: TS,
                score: 92,
                raw_score: Some(92),
                decision: Some("advisory".into()),
            },
        ],
        dimensions: vec![JankuraiDimension {
            name: "tests".into(),
            weight: 30,
            score: 88,
            evidence: vec!["coverage 88%".into()],
            notes: vec!["raise coverage".into()],
        }],
        entries: vec![finding(), cap()],
        last_scan: Some(JankuraiScan {
            generated_at: Some(TS),
            score: 92,
            raw_score: 92,
            minimum_score: 85,
            decision: "advisory".into(),
            score_status: "pass".into(),
            finding_count: 1,
            hard_findings: 1,
            soft_findings: 0,
            caps_applied: vec!["cap-a".into()],
        }),
        error: None,
    };
    JankuraiLensInput::from_state(&snapshot, 0)
}

#[test]
fn from_empty_state_yields_empty_input() {
    let input = JankuraiLensInput::from_state(&JankuraiSnapshot::default(), 0);
    assert!(!input.installed);
    assert!(input.last_scan.is_none());
    assert!(input.history.is_empty());
    assert!(input.dimensions.is_empty());
    assert!(input.entries.is_empty());
    assert!(input.error.is_none());
    assert_eq!(input.selected_index, 0);
    assert!(!input.has_scan());
    assert!(input.selected_entry().is_none());
}

#[test]
fn chrono_range_matches_its_extreme_instants() {
    assert_eq!(chrono::DateTime::<chrono::Utc>::MIN_UTC.timestamp(), CHRONO_MIN_SECS);
    assert_eq!(chrono::DateTime::<chrono::Utc>::MAX_UTC.timestamp(), CHRONO_MAX_SECS);
    assert!(chrono::DateTime::from_timestamp(CHRONO_MIN_SECS, 0).is_some());
    assert!(chrono::DateTime::from_timestamp(CHRONO_MIN_SECS - 1, 0).is_none());
    assert!(chrono::DateTime::from_timestamp(CHRONO_MAX_SECS, 0).is_some());
    assert!(chrono::DateTime::from_timestamp(CHRONO_MAX_SECS + 1, 0).is_none());
}

#[test]
fn timestamps_render_to_the_minute_in_utc() {
    let ts = chrono::Utc.timestamp_opt(TS, 0).unwrap();
    assert_eq!(format_timestamp(TS), ts.format("%Y-%m-%d %H:%M").to_string());
    assert_eq!(format_timestamp(1_431_648_000), "2015-05-15 00:00");
    assert_eq!(format_timestamp(0), "1970-01-01 00:00");
}

#[test]
fn summary_texts_come_from_the_last_scan() {
    let input = populated_input();
    let s = input.summary_text();
    assert_eq!(s.score, "92");
    assert_eq!(s.raw_score, "92");
    assert_eq!(s.minimum_score, "85");
    assert_eq!(s.decision, "advisory");
    assert_eq!(s.score_status, "pass");
    assert_eq!(s.generated_at, format_timestamp(TS));
    assert_eq!(s.finding_count, "1");
    assert_eq!(s.hard_findings, "1");
    assert_eq!(s.soft_findings, "0");
    assert_eq!(s.cap_count, "1");
    assert_eq!(s.history_points, "2");
    assert_eq!(input.score_clears_minimum(), Some(true));
    assert!(input.empty_state_line().is_none());
}

#[test]
fn summary_without_scan_reads_not_available() {
    let input = JankuraiLensInput::default();
    let s = input.summary_text();
    assert_eq!(s.score, "n/a");
    assert_eq!(s.generated_at, "n/a");
    assert_eq!(s.finding_count, "0");
    assert_eq!(s.cap_count, "0");
    assert_eq!(input.score_clears_minimum(), None);
}

#[test]
fn empty_state_renders_clean_not_installed_line() {
    let input = JankuraiLensInput::from_state(&JankuraiSnapshot::default(), 0);
    let line = input.empty_state_line().unwrap();
    assert!(line.contains("not installed"));
    assert!(!line.contains("TODO"));
    assert!(!line.contains("placeholder"));
    assert_eq!(input.install_word(), "not installed");
    let mut snapshot = JankuraiSnapshot::default();
    snapshot.installed = true;
    let installed = JankuraiLensInput::from_state(&snapshot, 0);
    assert_eq!(installed.empty_state_line(), Some("  Jankurai installed — scan not run yet."));
    assert_eq!(installed.install_word(), "installed");
}

#[test]
fn error_state_renders_parse_error() {
    let snapshot = JankuraiSnapshot {
        installed: true,
        error: Some("repo-score.json: invalid json".into()),
        ..Default::default()
    };
    let input = JankuraiLensInput::from_state(&snapshot, 0);
    assert!(input.empty_state_line().is_none());
    assert_eq!(input.error_text(40).unwrap(), "repo-score.json: invalid json");
    assert_eq!(input.error_text(12).unwrap(), "repo-score…");
}

#[test]
fn selected_index_out_of_range_does_not_panic() {
    let input = JankuraiLensInput::from_state(&JankuraiSnapshot::default(), 999);
    assert!(input.selected_entry().is_none());
    let populated = populated_input();
    assert_eq!(populated.selected_entry().unwrap().label, "missing test");
}

#[test]
fn score_history_range_and_axis_labels() {
    let input = populated_input();
    assert_eq!(input.history_scores(), vec![80, 92]);
    assert_eq!(input.score_range_text(), "80 -> 92");
    let (start, end) = input.chart_labels();
    assert_eq!(start, format_timestamp(TS));
    assert_eq!(end, format_timestamp(TS));
    let empty = JankuraiLensInput::default();
    assert_eq!(empty.score_range_text(), "0 -> 0");
    assert_eq!(empty.chart_labels(), ("start".to_string(), "end".to_string()));
}

#[test]
fn dimension_cells_align_and_clip() {
    let input = populated_input();
    let d = &input.dimensions[0];
    assert_eq!(d.score_cell(), " 88 ");
    assert_eq!(d.weight_cell(), "w30 ");
    assert_eq!(d.name_cell(40), "tests");
    assert_eq!(d.name_cell(18), "te…");
    assert_eq!(d.notes_cell(), " notes: raise coverage");
    assert_eq!(d.tier(), ScoreTier::Fair);
    let strong = JankuraiDimension { name: "n".into(), weight: 5, score: 100, evidence: vec![], notes: vec![] };
    assert_eq!(strong.score_cell(), "100 ");
    assert_eq!(strong.weight_cell(), "w 5 ");
    assert_eq!(strong.notes_cell(), "");
    assert_eq!(strong.tier(), ScoreTier::Strong);
    let weak = JankuraiDimension {
        name: "n".into(),
        weight: 5,
        score: 7,
        evidence: vec![],
        notes: vec!["a".into(), "b".into()],
    };
    assert_eq!(weak.score_cell(), "  7 ");
    assert_eq!(weak.notes_cell(), " notes: a; b");
    assert_eq!(weak.tier(), ScoreTier::Weak);
}

#[test]
fn entry_cells_badge_path_and_problem() {
    let f = finding();
    assert_eq!(f.badge(), EntryBadge::High);
    assert_eq!(f.badge_cell(), " HIGH  ");
    assert_eq!(f.path_cell(), "src/lib.rs         ");
    assert_eq!(f.problem_cell(100), "no coverage on parser");
    assert_eq!(f.problem_cell(40), "no cover…");
    let c = cap();
    assert_eq!(c.badge(), EntryBadge::Cap);
    assert_eq!(c.badge_cell(), " CAP   ");
    assert_eq!(c.path_cell(), "                   ");
    assert_eq!(c.problem_cell(100), "cap-a");
    let mut m = finding();
    m.severity = Some("medium".into());
    assert_eq!(m.badge().text(), "MED");
    m.severity = Some("low".into());
    assert_eq!(m.badge().text(), "LOW");
    m.severity = Some("weird".into());
    assert_eq!(m.badge().text(), "INFO");
    m.severity = None;
    assert_eq!(m.badge().text(), "INFO");
    m.path = Some("crates/very/long/path/to/file.rs".into());
    assert_eq!(m.path_cell(), "crates/very/long/p… ");
}

#[test]
fn entry_detail_lines() {
    let f = finding();
    assert_eq!(f.kind_word(), "finding");
    assert_eq!(cap().kind_word(), "cap");
    assert_eq!(f.problem_detail(60), "no coverage on parser");
    assert_eq!(f.fix_detail(60), "add a unit test");
    assert_eq!(cap().problem_detail(60), "n/a");
    assert_eq!(f.evidence_lines(60), vec!["  - line 42".to_string()]);
    assert_eq!(f.evidence_lines(9), vec!["  - lin…".to_string()]);
    assert_eq!(value_or_na(&f.rule), "rule-a");
    assert_eq!(value_or_na(&None), "n/a");
}
