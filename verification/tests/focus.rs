use jeryu_tui::app::ActiveTab;
use jeryu_tui::focus::{esc_label, is_active, should_show_esc, title_with_esc, FocusState, PaneId};

#[test]
fn default_pane_belongs_to_its_tab() {
    for tab in ActiveTab::ALL {
        let pane = PaneId::default_for_tab(tab);
        assert_eq!(pane.tab(), tab, "default pane for {tab:?} must report that tab");
    }
}

#[test]
fn every_tab_has_at_least_one_pane() {
    for tab in ActiveTab::ALL {
        assert!(!PaneId::panes_for_tab(tab).is_empty());
    }
}

#[test]
fn fleet_bar_is_the_only_global_pane() {
    assert!(PaneId::FleetBar.is_global());
    assert!(!PaneId::ReposLens.is_global());
}

#[test]
fn pane_labels_are_non_empty() {
    for tab in ActiveTab::ALL {
        for pane in PaneId::panes_for_tab(tab) {
            assert!(!pane.label().is_empty());
        }
    }
}

#[test]
fn activity_log_label_names_its_tab() {
    assert_eq!(
        PaneId::ActivityLog(ActiveTab::LLMs).label(),
        "Activity / Logs (LLMs)"
    );
    assert_eq!(PaneId::ActivityLog(ActiveTab::Git).tab(), ActiveTab::Git);
    assert_eq!(PaneId::JankIssues.label(), "Caps / Findings");
    assert_eq!(PaneId::FleetBar.tab(), ActiveTab::Workflow);
}

#[test]
fn for_tab_selects_default_pane() {
    let fs = FocusState::for_tab(ActiveTab::Mission);
    assert_eq!(fs.active, PaneId::MissionTopSignal);
    assert!(!fs.is_drilled());
}

#[test]
fn set_tab_clears_stack_and_fullscreen() {
    let mut fs = FocusState::for_tab(ActiveTab::Workflow);
    fs.push();
    fs.enter_fullscreen();
    assert!(fs.is_drilled());
    fs.set_tab(ActiveTab::Repos);
    assert_eq!(fs.active, PaneId::ReposLens);
    assert!(!fs.is_drilled());
}

#[test]
fn push_pop_restores_previous_pane() {
    let mut fs = FocusState::for_tab(ActiveTab::Mission);
    let first = fs.active;
    fs.push();
    fs.active = PaneId::MissionAttention;
    assert!(fs.pop());
    assert_eq!(fs.active, first);
    assert!(!fs.pop());
}

#[test]
fn focus_next_and_prev_wrap_within_tab() {
    let mut fs = FocusState::for_tab(ActiveTab::Mission);
    let panes = PaneId::panes_for_tab(ActiveTab::Mission);
    fs.active = panes[0];
    fs.focus_prev(ActiveTab::Mission);
    assert_eq!(fs.active, *panes.last().unwrap());
    fs.focus_next(ActiveTab::Mission);
    assert_eq!(fs.active, panes[0]);
}

#[test]
fn focus_cycle_from_a_foreign_pane_starts_at_the_first() {
    let mut fs = FocusState::for_tab(ActiveTab::Git);
    fs.active = PaneId::CacheDisk;
    fs.focus_next(ActiveTab::Git);
    assert_eq!(fs.active, PaneId::ActivityLog(ActiveTab::Git));
    fs.active = PaneId::CacheDisk;
    fs.focus_prev(ActiveTab::Git);
    assert_eq!(fs.active, PaneId::ActivityLog(ActiveTab::Git));
}

#[test]
fn escape_unwinds_fullscreen_then_stack() {
    let mut fs = FocusState::for_tab(ActiveTab::Mission);
    fs.push();
    fs.active = PaneId::MissionMetrics;
    fs.enter_fullscreen();
    assert!(fs.escape());
    assert!(fs.fullscreen.is_none());
    assert_eq!(fs.active, PaneId::MissionTopSignal);
}

#[test]
fn escape_without_breadcrumb_only_leaves_fullscreen() {
    let mut fs = FocusState::for_tab(ActiveTab::Cache);
    fs.enter_fullscreen();
    assert!(!fs.escape());
    assert!(fs.fullscreen.is_none());
    assert_eq!(fs.active, PaneId::CacheDisk);
}

#[test]
fn esc_label_appears_only_when_drilled() {
    let mut focus = FocusState::for_tab(ActiveTab::Mission);
    assert_eq!(esc_label(&focus, PaneId::MissionTopSignal), "");
    focus.push();
    focus.active = PaneId::MissionMetrics;
    assert!(!esc_label(&focus, PaneId::MissionMetrics).is_empty());
}

#[test]
fn title_includes_label() {
    let focus = FocusState::for_tab(ActiveTab::Mission);
    assert!(title_with_esc(&focus, PaneId::MissionTopSignal).contains("Top Signal"));
}

#[test]
fn titles_and_activity_follow_focus() {
    let mut focus = FocusState::for_tab(ActiveTab::Mission);
    assert!(is_active(&focus, PaneId::MissionTopSignal));
    assert!(!is_active(&focus, PaneId::MissionMetrics));
    assert_eq!(title_with_esc(&focus, PaneId::MissionTopSignal), " Top Signal ");
    focus.enter_fullscreen();
    assert!(should_show_esc(&focus, PaneId::MissionTopSignal));
    assert!(!should_show_esc(&focus, PaneId::MissionMetrics));
    assert_eq!(
        title_with_esc(&focus, PaneId::MissionTopSignal),
        " Top Signal  Esc ◂ back "
    );
}

#[test]
fn tab_strip_order_and_wrapping() {
    assert_eq!(ActiveTab::Workflow.next(), ActiveTab::Mission);
    assert_eq!(ActiveTab::Mission.prev(), ActiveTab::Workflow);
    assert_eq!(ActiveTab::Workflow.prev(), ActiveTab::Jankurai);
    assert_eq!(ActiveTab::Jankurai.next(), ActiveTab::Workflow);
    assert_eq!(ActiveTab::from_number(1), Some(ActiveTab::Mission));
    assert_eq!(ActiveTab::from_number(9), Some(ActiveTab::Evidence));
    assert_eq!(ActiveTab::from_number(10), None);
    for (i, tab) in ActiveTab::ALL.iter().enumerate() {
        assert_eq!(tab.index(), i);
        assert_eq!(ActiveTab::from_index(i), Some(*tab));
    }
}
