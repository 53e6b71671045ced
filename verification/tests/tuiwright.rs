use jeryu_tui::app::ActiveTab;
use jeryu_tui::tuiwright::{
    chrono_like_iso, frame_hash, receipt_file_name, stamp_from_epoch, FrameRecord, TuiwrightReceipt, DEFAULT_STAMP,
    SWEEP_SIZES,
};

#[test]
fn stamp_defaults_to_stable_label_when_unset() {
    assert_eq!(stamp_from_epoch("not-a-number"), DEFAULT_STAMP);
    assert_eq!(stamp_from_epoch("-5"), DEFAULT_STAMP);
}

#[test]
fn stamp_from_epoch_is_iso_utc() {
    assert_eq!(stamp_from_epoch("1700000000"), "2023-11-14T22:13:20Z");
    assert_eq!(stamp_from_epoch("0"), "1970-01-01T00:00:00Z");
}

#[test]
fn frame_hash_is_deterministic_and_distinct() {
    assert_eq!(frame_hash("abc"), frame_hash("abc"));
    assert_ne!(frame_hash("abc"), frame_hash("abd"));
}

#[test]
fn frame_hash_is_fnv1a_in_hex() {
    assert_eq!(frame_hash(""), "cbf29ce484222325");
    assert_eq!(frame_hash("a"), "af63dc4c8601ec8c");
    assert_eq!(frame_hash("abc").len(), 16);
}

#[test]
fn iso_formatting_covers_leap_days_and_parse_edges() {
    assert_eq!(chrono_like_iso(951_782_400).as_deref(), Some("2000-02-29T00:00:00Z"));
    assert_eq!(chrono_like_iso(86_399).as_deref(), Some("1970-01-01T23:59:59Z"));
    assert_eq!(chrono_like_iso(-1), None);
    assert_eq!(stamp_from_epoch("+86400"), "1970-01-02T00:00:00Z");
    assert_eq!(stamp_from_epoch(""), DEFAULT_STAMP);
    assert_eq!(stamp_from_epoch("99999999999999999999"), DEFAULT_STAMP);
    assert_eq!(stamp_from_epoch(" 5"), DEFAULT_STAMP);
}

fn frame(tab: &str, width: u16, height: u16, fixture: &str, ok: bool) -> FrameRecord {
    FrameRecord {
        tab: tab.to_string(),
        width,
        height,
        fixture: fixture.to_string(),
        frame_hash: frame_hash(tab),
        ok,
    }
}

#[test]
fn receipt_counts_and_coverage() {
    let receipt = TuiwrightReceipt {
        kind: "tuiwright.ux-qa".to_string(),
        stamp: DEFAULT_STAMP.to_string(),
        frames: vec![
            frame("Mission", 80, 24, "healthy", true),
            frame("Mission", 120, 40, "healthy", false),
            frame("Git", 80, 24, "degraded", true),
        ],
    };
    assert_eq!(receipt.len(), 3);
    assert!(!receipt.is_empty());
    assert_eq!(receipt.ok_count(), 2);
    assert!(receipt.covers(ActiveTab::Mission, 120, 40, "healthy"));
    assert!(!receipt.covers(ActiveTab::Mission, 120, 40, "degraded"));
    assert!(receipt.covers(ActiveTab::Git, 80, 24, "degraded"));
    assert!(!receipt.covers(ActiveTab::Repos, 80, 24, "healthy"));
    assert_eq!(SWEEP_SIZES, [(80, 24), (120, 40)]);
    let empty = TuiwrightReceipt { kind: String::new(), stamp: String::new(), frames: vec![] };
    assert!(empty.is_empty());
    assert_eq!(empty.ok_count(), 0);
}

#[test]
fn consecutive_days_walk_the_calendar() {
    let day = |n: i64| chrono_like_iso(n * 86_400).unwrap()[..10].to_string();
    assert_eq!(day(0), "1970-01-01");
    assert_eq!(day(58), "1970-02-28");
    assert_eq!(day(59), "1970-03-01");
    assert_eq!(day(10_956), "1999-12-31");
    assert_eq!(day(10_957), "2000-01-01");
    assert_eq!(day(11_016), "2000-02-29");
    assert_eq!(day(11_017), "2000-03-01");
    assert_eq!(day(47_540), "2100-02-28");
    assert_eq!(day(47_541), "2100-03-01");
    for n in 0..200_000i64 {
        let a = chrono_like_iso(n * 86_400).unwrap();
        let b = chrono_like_iso((n + 1) * 86_400).unwrap();
        let expected = chrono::DateTime::from_timestamp((n + 1) * 86_400, 0)
            .unwrap()
            .format("%Y-%m-%dT%H:%M:%SZ")
            .to_string();
        assert_eq!(b, expected);
        assert!(a < b || a.len() < b.len());
    }
}

#[test]
fn receipt_file_name_makes_the_stamp_file_safe() {
    assert_eq!(
        receipt_file_name("2026-05-29T12:00:00Z"),
        "tuiwright-2026-05-29T12-00-00Z.json"
    );
    assert_eq!(receipt_file_name(DEFAULT_STAMP), "tuiwright-1970-01-01T00-00-00Z.json");
    assert_eq!(receipt_file_name(""), "tuiwright-.json");
}
