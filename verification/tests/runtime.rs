use jeryu_tui::app::{ActiveTab, App, SessionLaunchPhase};
use jeryu_tui::lenses::agents::AgentTerminalSession;
use jeryu_tui::runtime::input::{
    encode_char, handle_key, handle_key_with_session, handle_key_with_sink, pump_terminal, Flow,
    KeyCode, KeyEvent,
};
use jeryu_tui::runtime::render::{freshness_badge, tab_labels};
use jeryu_tui::runtime::session::{RecordingSessionLauncher, SessionLauncher};
use jeryu_tui::runtime::tty::{
    AgentControl, ControlSink, RecordingControlSink, ScriptedTtySource, TtyChunk, TtySource,
};
use jeryu_tui::theme::badges::FreshnessBadge;

fn key(code: KeyCode) -> KeyEvent {
    KeyEvent::new(code, false)
}

fn ctrl(code: KeyCode) -> KeyEvent {
    KeyEvent::new(code, true)
}

/// The Agents tab of a snapshot with one repository and one agent session.
fn agents_app() -> App {
    let mut app = App::new(vec!["core/web".to_string()], vec!["7".to_string()]);
    app.set_tab(ActiveTab::Agents);
    app
}

#[test]
fn scripted_source_drains_chunks_in_order() {
    let mut source = ScriptedTtySource::new(vec![
        TtyChunk { chunk_seq: 1, bytes: b"a".to_vec() },
        TtyChunk { chunk_seq: 2, bytes: b"b".to_vec() },
    ]);
    let drained = source.poll();
    assert_eq!(drained.len(), 2);
    assert_eq!(drained[0].chunk_seq, 1);
    assert_eq!(drained[1].chunk_seq, 2);
    assert!(source.is_drained());
    assert!(source.poll().is_empty());
}

#[test]
fn recording_sink_captures_controls() {
    let mut sink = RecordingControlSink::new();
    sink.send(AgentControl::Interrupt);
    sink.send(AgentControl::Input(b"ls".to_vec()));
    assert_eq!(sink.sent.len(), 2);
    assert_eq!(sink.sent[0], AgentControl::Interrupt);
    assert_eq!(sink.last(), Some(&AgentControl::Input(b"ls".to_vec())));
}

#[test]
fn recording_launcher_captures_repo_and_mints_handles() {
    let mut launcher = RecordingSessionLauncher::new();
    let first = launcher.create_session("core/web");
    let second = launcher.create_session("core/api");
    assert_eq!(launcher.requested, vec!["core/web", "core/api"]);
    assert_eq!(launcher.last(), Some(&"core/api".to_string()));
    assert_eq!(first.run_id, "agent_run.session-1");
    assert_eq!(first.branch, "agent/session-1");
    assert_ne!(first, second);
}

#[test]
fn q_quits_when_not_drilled() {
    let mut app = App::default();
    assert_eq!(handle_key(&mut app, key(KeyCode::Char('q'))), Flow::Quit);
}

#[test]
fn digit_selects_tab() {
    let mut app = App::default();
    handle_key(&mut app, key(KeyCode::Char('1')));
    assert_eq!(app.active_tab, ActiveTab::Mission);
    handle_key(&mut app, key(KeyCode::Char('9')));
    assert_eq!(app.active_tab, ActiveTab::Evidence);
}

#[test]
fn arrows_cycle_tabs() {
    let mut app = App::default();
    handle_key(&mut app, key(KeyCode::Right));
    assert_eq!(app.active_tab, ActiveTab::Mission);
    handle_key(&mut app, key(KeyCode::Left));
    assert_eq!(app.active_tab, ActiveTab::Workflow);
}

#[test]
fn enter_drills_and_esc_unwinds_instead_of_quitting() {
    let mut app = App::default();
    assert_eq!(handle_key(&mut app, key(KeyCode::Enter)), Flow::Continue);
    assert!(app.focus.is_drilled());
    assert_eq!(handle_key(&mut app, key(KeyCode::Esc)), Flow::Continue);
    assert!(!app.focus.is_drilled());
    assert_eq!(handle_key(&mut app, key(KeyCode::Esc)), Flow::Quit);
}

#[test]
fn tab_cycles_focus_within_tab() {
    let mut app = App::default();
    app.set_tab(ActiveTab::Mission);
    let first = app.focus.active;
    handle_key(&mut app, key(KeyCode::Tab));
    assert_ne!(app.focus.active, first);
}

#[test]
fn q_does_not_quit_while_drilled_and_other_keys_are_ignored() {
    let mut app = App::default();
    handle_key(&mut app, key(KeyCode::Enter));
    assert_eq!(handle_key(&mut app, key(KeyCode::Char('q'))), Flow::Continue);
    assert!(app.focus.is_drilled());
    assert_eq!(handle_key(&mut app, key(KeyCode::Other)), Flow::Continue);
    assert_eq!(app.active_tab, ActiveTab::Workflow);
}

#[test]
fn enter_on_agents_opens_and_attaches_a_session() {
    let mut app = agents_app();
    let mut sink = RecordingControlSink::new();
    assert_eq!(handle_key_with_sink(&mut app, key(KeyCode::Enter), &mut sink), Flow::Continue);
    let term = app.terminal.as_ref().expect("session opened");
    assert!(term.is_attached());
    assert!(term.run_id().starts_with("agent_run."));
    assert_eq!(term.run_id(), "agent_run.7");
    assert_eq!(term.size(), (24, 80));
    assert!(sink.sent.is_empty());
}

#[test]
fn enter_on_agents_without_sessions_drills_instead() {
    let mut app = App::new(vec![], vec![]);
    app.set_tab(ActiveTab::Agents);
    let mut sink = RecordingControlSink::new();
    handle_key_with_sink(&mut app, key(KeyCode::Enter), &mut sink);
    assert!(app.terminal.is_none());
    assert!(app.focus.is_drilled());
}

#[test]
fn attached_ctrl_c_emits_interrupt_without_quitting() {
    let mut app = agents_app();
    let mut sink = RecordingControlSink::new();
    handle_key_with_sink(&mut app, key(KeyCode::Enter), &mut sink);
    assert_eq!(
        handle_key_with_sink(&mut app, ctrl(KeyCode::Char('c')), &mut sink),
        Flow::Continue
    );
    assert_eq!(sink.sent, vec![AgentControl::Interrupt]);
}

#[test]
fn attached_printable_keys_become_input_bytes() {
    let mut app = agents_app();
    let mut sink = RecordingControlSink::new();
    handle_key_with_sink(&mut app, key(KeyCode::Enter), &mut sink);
    handle_key_with_sink(&mut app, key(KeyCode::Char('l')), &mut sink);
    handle_key_with_sink(&mut app, key(KeyCode::Char('s')), &mut sink);
    assert_eq!(
        sink.sent,
        vec![AgentControl::Input(b"l".to_vec()), AgentControl::Input(b"s".to_vec())]
    );
}

#[test]
fn attached_editing_keys_become_control_bytes() {
    let mut app = agents_app();
    let mut sink = RecordingControlSink::new();
    handle_key_with_sink(&mut app, key(KeyCode::Enter), &mut sink);
    for code in [KeyCode::Enter, KeyCode::Tab, KeyCode::Backspace, KeyCode::Esc, KeyCode::Right] {
        assert_eq!(handle_key_with_sink(&mut app, key(code), &mut sink), Flow::Continue);
    }
    assert_eq!(
        sink.sent,
        vec![
            AgentControl::Input(vec![13]),
            AgentControl::Input(vec![9]),
            AgentControl::Input(vec![0x7f]),
            AgentControl::Input(vec![0x1b]),
        ]
    );
    assert_eq!(app.active_tab, ActiveTab::Agents);
}

#[test]
fn ctrl_letter_folds_to_c0_control_byte() {
    let mut app = agents_app();
    let mut sink = RecordingControlSink::new();
    handle_key_with_sink(&mut app, key(KeyCode::Enter), &mut sink);
    handle_key_with_sink(&mut app, ctrl(KeyCode::Char('a')), &mut sink);
    assert_eq!(sink.sent, vec![AgentControl::Input(vec![0x01])]);
}

#[test]
fn encode_char_folds_letters_and_keeps_utf8() {
    assert_eq!(encode_char('Z', true), vec![0x1a]);
    assert_eq!(encode_char('z', true), vec![0x1a]);
    assert_eq!(encode_char('1', true), b"1".to_vec());
    assert_eq!(encode_char('é', false), "é".as_bytes().to_vec());
}

#[test]
fn detach_key_releases_keyboard_and_q_then_quits() {
    let mut app = agents_app();
    let mut sink = RecordingControlSink::new();
    handle_key_with_sink(&mut app, key(KeyCode::Enter), &mut sink);
    handle_key_with_sink(&mut app, ctrl(KeyCode::Char(']')), &mut sink);
    assert!(!app.terminal.as_ref().unwrap().is_attached());
    assert!(sink.sent.is_empty());
    assert_eq!(handle_key_with_sink(&mut app, key(KeyCode::Char('q')), &mut sink), Flow::Quit);
}

#[test]
fn pump_feeds_chunks_in_order_and_resyncs_on_gap() {
    let mut session = AgentTerminalSession::new("agent_run.1", 24, 80);
    let mut source = ScriptedTtySource::new(vec![
        TtyChunk { chunk_seq: 1, bytes: b"abc".to_vec() },
        TtyChunk { chunk_seq: 2, bytes: b"def".to_vec() },
        TtyChunk { chunk_seq: 5, bytes: b"ghi".to_vec() },
    ]);
    let mut sink = RecordingControlSink::new();
    pump_terminal(&mut session, &mut source, &mut sink);
    assert!(session.screen().contents().contains("abcdefghi"));
    assert!(session.is_lagged());
    assert_eq!(sink.sent, vec![AgentControl::Resync]);
    assert!(source.is_drained());
    assert_eq!(session.last_chunk_seq(), 5);
}

#[test]
fn n_on_agents_launches_a_session_through_the_launcher() {
    let mut app = agents_app();
    let mut sink = RecordingControlSink::new();
    let mut launcher = RecordingSessionLauncher::new();
    assert_eq!(
        handle_key_with_session(&mut app, key(KeyCode::Char('n')), &mut sink, &mut launcher),
        Flow::Continue
    );
    assert_eq!(launcher.requested, vec!["core/web".to_string()]);
    let launch = app.session_launch.as_ref().expect("launch recorded");
    assert_eq!(launch.phase, SessionLaunchPhase::Attached);
    assert_eq!(launch.repo_id, "core/web");
    assert_eq!(launch.run_id.as_deref(), Some("agent_run.session-1"));
    assert_eq!(launch.branch.as_deref(), Some("agent/session-1"));
    let term = app.terminal.as_ref().expect("terminal mounted");
    assert!(term.is_attached());
    assert_eq!(term.run_id(), "agent_run.session-1");
    assert!(sink.sent.is_empty());
}

#[test]
fn n_does_not_launch_when_no_repo_is_in_scope() {
    let mut app = App::new(vec![], vec![]);
    app.set_tab(ActiveTab::Agents);
    let mut sink = RecordingControlSink::new();
    let mut launcher = RecordingSessionLauncher::new();
    handle_key_with_session(&mut app, key(KeyCode::Char('n')), &mut sink, &mut launcher);
    assert!(launcher.requested.is_empty());
    assert!(app.session_launch.is_none());
    assert!(app.terminal.is_none());
}

#[test]
fn n_off_the_agents_tab_falls_through_to_normal_routing() {
    let mut app = App::new(vec!["core/web".to_string()], vec!["7".to_string()]);
    app.set_tab(ActiveTab::Mission);
    let mut sink = RecordingControlSink::new();
    let mut launcher = RecordingSessionLauncher::new();
    assert_eq!(
        handle_key_with_session(&mut app, key(KeyCode::Char('n')), &mut sink, &mut launcher),
        Flow::Continue
    );
    assert!(launcher.requested.is_empty());
    assert!(app.session_launch.is_none());
    assert_eq!(app.active_tab, ActiveTab::Mission);
}

#[test]
fn session_router_preserves_existing_keys() {
    let mut app = agents_app();
    let mut sink = RecordingControlSink::new();
    let mut launcher = RecordingSessionLauncher::new();
    handle_key_with_session(&mut app, key(KeyCode::Char('1')), &mut sink, &mut launcher);
    assert_eq!(app.active_tab, ActiveTab::Mission);
    assert!(launcher.requested.is_empty());
    assert_eq!(
        handle_key_with_session(&mut app, key(KeyCode::Char('q')), &mut sink, &mut launcher),
        Flow::Quit
    );
}

#[test]
fn n_while_attached_routes_into_the_terminal_not_a_new_launch() {
    let mut app = agents_app();
    let mut sink = RecordingControlSink::new();
    let mut launcher = RecordingSessionLauncher::new();
    handle_key_with_session(&mut app, key(KeyCode::Enter), &mut sink, &mut launcher);
    sink.sent.clear();
    handle_key_with_session(&mut app, key(KeyCode::Char('n')), &mut sink, &mut launcher);
    assert!(launcher.requested.is_empty());
    assert!(app.session_launch.is_none());
    assert_eq!(sink.sent, vec![AgentControl::Input(b"n".to_vec())]);
}

#[test]
fn feed_renders_plain_text_into_the_screen() {
    let mut session = AgentTerminalSession::new("agent_run.42", 24, 80);
    session.feed(b"$ cargo test\r\nrunning 3 tests\r\n");
    let dump = session.screen().contents();
    assert!(dump.contains("cargo test"));
    assert!(dump.contains("running 3 tests"));
}

#[test]
fn feed_applies_ansi_color_attributes() {
    let mut session = AgentTerminalSession::new("agent_run.7", 24, 80);
    session.feed(b"\x1b[31mFAIL\x1b[0m ok\r\n");
    let screen = session.screen();
    assert_eq!(screen.cell(0, 0).unwrap().contents(), "F");
    assert_eq!(screen.cell(0, 0).unwrap().fgcolor(), vt100::Color::Idx(1));
    assert_eq!(screen.cell(0, 5).unwrap().fgcolor(), vt100::Color::Default);
}

#[test]
fn resize_updates_the_parser_grid() {
    let mut session = AgentTerminalSession::new("agent_run.1", 24, 80);
    assert_eq!(session.screen().size(), (24, 80));
    session.resize(40, 120);
    assert_eq!(session.size(), (40, 120));
    assert_eq!(session.screen().size(), (40, 120));
}

#[test]
fn attach_detach_and_lagged_toggle() {
    let mut session = AgentTerminalSession::new("agent_run.1", 24, 80);
    assert!(!session.is_attached());
    session.attach();
    assert!(session.is_attached());
    session.detach();
    assert!(!session.is_attached());
    assert!(!session.is_lagged());
    session.set_lagged(true);
    assert!(session.is_lagged());
    session.set_lagged(false);
    assert!(!session.is_lagged());
}

#[test]
fn chunk_seq_gap_flags_lagged() {
    let mut session = AgentTerminalSession::new("agent_run.1", 24, 80);
    assert!(!session.observe_chunk_seq(1));
    assert!(!session.observe_chunk_seq(2));
    assert!(session.observe_chunk_seq(5));
    assert!(session.is_lagged());
    assert_eq!(session.last_chunk_seq(), 5);
}

#[test]
fn first_chunk_and_replays_are_not_gaps() {
    let mut session = AgentTerminalSession::new("agent_run.1", 24, 80);
    assert!(!session.observe_chunk_seq(9));
    assert!(!session.observe_chunk_seq(3));
    assert!(!session.observe_chunk_seq(4));
    assert!(!session.observe_chunk_seq(4));
    assert!(!session.is_lagged());
    assert!(session.observe_chunk_seq(u64::MAX));
    assert!(!session.observe_chunk_seq(7));
    assert_eq!(session.last_chunk_seq(), 7);
}

#[test]
fn clone_reconstructs_the_visible_screen() {
    let mut session = AgentTerminalSession::new("agent_run.9", 24, 80);
    session.feed(b"\x1b[32mPASS\x1b[0m build\r\n");
    session.attach();
    session.set_lagged(true);
    let cloned = session.clone();
    assert!(cloned.screen().contents().contains("PASS build"));
    assert_eq!(cloned.screen().cell(0, 0).unwrap().fgcolor(), vt100::Color::Idx(2));
    assert!(cloned.is_attached());
    assert!(cloned.is_lagged());
    assert_eq!(cloned.run_id(), "agent_run.9");
}

#[test]
fn header_labels_and_freshness_chip() {
    let labels = tab_labels();
    assert_eq!(labels.len(), ActiveTab::ALL.len());
    assert_eq!(labels[0], "Workflow");
    assert_eq!(labels[1], "Mission");
    assert_eq!(freshness_badge(true), FreshnessBadge::Expired);
    assert_eq!(freshness_badge(false), FreshnessBadge::Fresh);
    assert_eq!(freshness_badge(true).label(), "EXPIRED");
}

#[test]
fn enter_then_esc_restores_the_focus_exactly() {
    let mut app = App::default();
    handle_key(&mut app, key(KeyCode::Tab));
    let before = (app.active_tab, app.focus.active, app.focus.stack.clone());
    handle_key(&mut app, key(KeyCode::Enter));
    handle_key(&mut app, key(KeyCode::Esc));
    assert_eq!((app.active_tab, app.focus.active, app.focus.stack.clone()), before);
    assert!(app.focus.fullscreen.is_none());
    assert_eq!(handle_key(&mut app, key(KeyCode::Right)), Flow::Continue);
    assert_eq!(handle_key(&mut app, key(KeyCode::Left)), Flow::Continue);
    assert_eq!(app.active_tab, before.0);
    assert!(!app.focus.is_drilled());
}

#[test]
fn new_session_screen_has_the_requested_grid() {
    let mut s = AgentTerminalSession::new("agent_run.3", 30, 100);
    assert_eq!(s.size(), (30, 100));
    assert_eq!(s.screen().size(), (30, 100));
    s.feed(b"hello");
    s.attach();
    s.set_lagged(true);
    s.observe_chunk_seq(4);
    assert!(s.screen().contents().contains("hello"));
    s.resize(10, 40);
    assert_eq!(s.size(), (10, 40));
    assert_eq!(s.screen().size(), (10, 40));
    assert!(s.screen().contents().contains("hello"));
}
