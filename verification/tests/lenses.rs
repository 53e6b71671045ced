use std::collections::HashSet;

use jeryu_tui::app::{ActiveTab, SessionLaunch};
use jeryu_tui::lenses::agents::view::session_launch_label;
use jeryu_tui::lenses::approvals::short_text as approvals_short_text;
use jeryu_tui::lenses::autonomy::yesno;
use jeryu_tui::lenses::git::{GitCommandEventRecord, GitLensInput};
use jeryu_tui::lenses::jankurai::{short_text as clip_text, spark_str, visible_entry_window};
use jeryu_tui::lenses::secrets::{short_ts, SecretAuditEvent, SecretsLensInput};
use jeryu_tui::lenses::LensId;
use jeryu_tui::runtime::session::SessionHandle;

#[test]
fn every_core_lens_has_a_route_and_label() {
    for lens in LensId::CORE {
        assert!(!lens.route().is_empty());
        assert!(!lens.label().is_empty());
    }
}

#[test]
fn routes_are_unique() {
    let mut seen = HashSet::new();
    for lens in LensId::CORE {
        assert!(seen.insert(lens.route()), "duplicate route: {}", lens.route());
    }
}

#[test]
fn eighteen_lenses_are_implemented() {
    assert_eq!(LensId::IMPLEMENTED.len(), 18);
    for lens in LensId::CORE {
        assert!(lens.is_implemented(), "{lens:?} should be implemented");
    }
}

#[test]
fn implemented_tabs_route_to_implemented_lenses() {
    assert_eq!(LensId::for_tab(ActiveTab::Mission), LensId::Mission);
    assert_eq!(LensId::for_tab(ActiveTab::Repos), LensId::Repos);
    assert_eq!(LensId::for_tab(ActiveTab::Pools), LensId::Queue);
}

#[test]
fn lens_routes_and_labels_are_pinned() {
    assert_eq!(LensId::SourceDoctor.route(), "source-doctor");
    assert_eq!(LensId::SourceDoctor.label(), "Source Doctor");
    assert_eq!(LensId::Vti.label(), "VTI");
    assert_eq!(LensId::Llms.label(), "LLMs");
    assert_eq!(LensId::for_tab(ActiveTab::Jobs), LensId::Queue);
    assert_eq!(LensId::for_tab(ActiveTab::Tests), LensId::Vti);
    for tab in ActiveTab::ALL {
        assert!(LensId::for_tab(tab).is_implemented());
    }
}

fn record(class: &str, exit: i32, mirror: &str, argv: &str) -> GitCommandEventRecord {
    GitCommandEventRecord {
        id: 1,
        request_id: "req".into(),
        actor: "actor".into(),
        cwd: "/repo".into(),
        repo_root: Some("/repo".into()),
        argv_redacted: argv.into(),
        argv_hash: "hash".into(),
        command_class: class.into(),
        risk: "low".into(),
        mode: "exec".into(),
        before_head: None,
        before_branch: None,
        before_dirty: None,
        after_head: None,
        after_branch: None,
        after_dirty: None,
        exit_code: exit,
        sidecar_status: "ok".into(),
        mirror_status: mirror.into(),
        created_at: "2026-05-29T12:00:00Z".into(),
        payload: "{}".into(),
    }
}

#[test]
fn empty_events_produce_empty_rows() {
    let input = GitLensInput::from_state(&[], 0);
    assert!(input.rows.is_empty());
    assert_eq!(input.selected, 0);
    assert_eq!(input.failed_count(), 0);
}

#[test]
fn selected_is_preserved() {
    let events = vec![
        record("push", 0, "synced", "git push origin main"),
        record("fetch", 1, "pending", "git fetch --all"),
    ];
    let input = GitLensInput::from_state(&events, 1);
    assert_eq!(input.selected, 1);
    assert_eq!(input.rows.len(), 2);
    let over = GitLensInput::from_state(&events, 99);
    assert_eq!(over.selected, 99);
}

#[test]
fn rows_clone_redacted_fields_and_classify_status() {
    let events = vec![
        record("push", 0, "synced", "git push origin main"),
        record("fetch", 128, "n/a", "git fetch --all"),
    ];
    let input = GitLensInput::from_state(&events, 0);
    assert_eq!(input.rows[0].command_class, "push");
    assert_eq!(input.rows[0].mirror_status, "synced");
    assert_eq!(input.rows[0].argv_redacted, "git push origin main");
    assert_eq!(input.rows[0].status(), "success");
    assert!(!input.rows[0].failed());
    assert_eq!(input.rows[1].status(), "failed");
    assert!(input.rows[1].failed());
    assert_eq!(input.failed_count(), 1);
}

#[test]
fn git_rows_keep_timestamps_and_count_negative_exit_codes() {
    let events = vec![
        record("push", -1, "synced", "git push"),
        record("pull", 2, "synced", "git pull"),
        record("status", 0, "synced", "git status"),
    ];
    let input = GitLensInput::from_state(&events, 0);
    assert_eq!(input.rows[2].created_at, "2026-05-29T12:00:00Z");
    assert_eq!(input.rows[0].exit_code, -1);
    assert_eq!(input.failed_count(), 2);
}

fn audit(action: &str, status: &str, repo: &str, at: &str) -> SecretAuditEvent {
    SecretAuditEvent {
        id: Some(7),
        repo_name: repo.into(),
        version: "v3".into(),
        target: "prod/db-password".into(),
        action: action.into(),
        status: status.into(),
        detail: "rotated by vault".into(),
        created_at: at.into(),
    }
}

#[test]
fn empty_state_yields_empty_input() {
    let input = SecretsLensInput::from_state(&[], 0);
    assert!(input.events.is_empty());
    assert_eq!(input.selected, 0);
    assert_eq!(input.clamped_selection(), None);
    assert!(input.selected_row().is_none());
}

#[test]
fn secret_rows_carry_metadata_only_and_selection_clamps() {
    let events = vec![
        audit("rotate", "ok", "core/web", "2026-05-29T12:00:00Z"),
        audit("fetch", "failed", "core/api", "2026-05-29T12:05:00Z"),
    ];
    let input = SecretsLensInput::from_state(&events, 9);
    assert_eq!(input.events.len(), 2);
    assert_eq!(input.events[1].action, "fetch");
    assert_eq!(input.events[1].repo_name, "core/api");
    assert_eq!(input.clamped_selection(), Some(1));
    assert_eq!(input.selected_row().unwrap().status, "failed");
    assert!(input.vault_status.is_empty());
    assert_eq!(input.active_grants, 0);
    let first = SecretsLensInput::from_state(&events, 0);
    assert_eq!(first.selected_row().unwrap().action, "rotate");
}

#[test]
fn short_ts_keeps_the_minute_prefix() {
    assert_eq!(short_ts("2026-05-29T12:00:00Z"), "2026-05-29T12:00");
    assert_eq!(short_ts("2026-05-29"), "2026-05-29");
    assert_eq!(short_ts("2026-05-29T12:0é"), "2026-05-29T12:0é");
    assert_eq!(short_ts("ééééééééé"), "ééééééééé");
    assert_eq!(short_ts("éééééééééééééééééé"), "éééééééééééééééé");
}

#[test]
fn approvals_short_text_reserves_room_for_the_ellipsis() {
    assert_eq!(approvals_short_text("short", 10), "short");
    assert_eq!(approvals_short_text("abcdefgh", 5), "abcd…");
    assert_eq!(approvals_short_text("abc", 0), "…");
    assert_eq!(approvals_short_text("héllo wörld", 6), "héllo…");
}

#[test]
fn jankurai_short_text_clips_after_max_chars() {
    assert_eq!(clip_text("abcdefgh", 5), "abcde…");
    assert_eq!(clip_text("abc", 3), "abc");
    assert_eq!(clip_text("", 0), "");
}

#[test]
fn yesno_words() {
    assert_eq!(yesno(true), "yes");
    assert_eq!(yesno(false), "NO");
}

#[test]
fn entry_window_centres_and_clamps() {
    assert_eq!(visible_entry_window(0, 3, 5), (0, 0));
    assert_eq!(visible_entry_window(10, 3, 0), (0, 0));
    assert_eq!(visible_entry_window(10, 5, 4), (3, 7));
    assert_eq!(visible_entry_window(10, 9, 4), (6, 10));
    assert_eq!(visible_entry_window(10, 99, 4), (6, 10));
    assert_eq!(visible_entry_window(3, 1, 8), (0, 3));
}

#[test]
fn sparkline_scales_into_eight_blocks() {
    assert_eq!(spark_str(&[], 5), "n/a");
    assert_eq!(spark_str(&[1, 2], 0), "n/a");
    assert_eq!(spark_str(&[4, 4, 4], 10), "▄▄▄");
    assert_eq!(spark_str(&[0, 7], 10), "▁█");
    assert_eq!(spark_str(&[0, 1, 2, 3, 4, 5, 6, 7], 8), "▁▂▃▄▅▆▇█");
    // Only the last `width` values are drawn.
    assert_eq!(spark_str(&[100, 0, 7], 2), "▁█");
    // 7 * 1 / 2 = 3.5 rounds half up to level 4.
    assert_eq!(spark_str(&[0, 1, 2], 3), "▁▅█");
}

#[test]
fn launch_banner_names_phase_and_run() {
    let pending = SessionLaunch::pending("core/web");
    assert_eq!(session_launch_label(&pending), " · New session: pending");
    let handle = SessionHandle::new("agent_run.session-1", "agent/session-1");
    let attached = SessionLaunch::attach("core/web", &handle);
    assert_eq!(
        session_launch_label(&attached),
        " · New session: attached agent_run.session-1"
    );
}

#[test]
fn git_header_names_count_and_posture() {
    let idle = GitLensInput::from_state(&[], 0);
    assert_eq!(idle.posture(), "idle");
    assert_eq!(idle.header_text(), "Git Sync — 0 recent operations · idle");
    let clean = GitLensInput::from_state(&[record("push", 0, "synced", "git push")], 0);
    assert_eq!(clean.posture(), "all clean");
    assert_eq!(clean.header_text(), "Git Sync — 1 recent operations · all clean");
    let events = vec![
        record("push", 1, "synced", "git push"),
        record("pull", 0, "synced", "git pull"),
        record("fetch", 128, "n/a", "git fetch"),
    ];
    let failing = GitLensInput::from_state(&events, 0);
    assert_eq!(failing.posture(), "2 failed");
    assert_eq!(failing.header_text(), "Git Sync — 3 recent operations · 2 failed");
}

#[test]
fn git_highlighted_row_clamps_to_last_row() {
    let events = vec![
        record("push", 0, "synced", "git push"),
        record("pull", 0, "synced", "git pull"),
    ];
    assert_eq!(GitLensInput::from_state(&events, 1).highlighted_row(), 1);
    assert_eq!(GitLensInput::from_state(&events, 7).highlighted_row(), 1);
    assert_eq!(GitLensInput::from_state(&[], 7).highlighted_row(), 0);
}

#[test]
fn secrets_header_and_detail_text() {
    let empty = SecretsLensInput::from_state(&[], 0);
    assert_eq!(empty.header_text(), "Secrets — 0 audit events");
    assert!(empty.detail_text().contains("Vault integration active."));
    let events = vec![
        audit("rotate", "ok", "core/web", "2026-05-29T12:00:00Z"),
        audit("fetch", "failed", "core/api", "2026-05-29T12:05:00Z"),
    ];
    let input = SecretsLensInput::from_state(&events, 5);
    assert_eq!(input.header_text(), "Secrets — 2 audit events");
    assert_eq!(
        input.detail_text(),
        "\n  Repo:     core/api\n  Action:   fetch\n  Status:   failed\n  Created:  2026-05-29T12:05:00Z\n"
    );
    assert!(!input.detail_text().contains("prod/db-password"));
}
