//! Keyboard routing for the Flight Deck.
//!
//! Routing is a pure decision over the app state and one key event: it updates
//! the tab, the focus, the live agent terminal and the launch record, and says
//! whether to keep running and which terminal-control intent (if any) to send.
//! Reading keys from the terminal and sending intents upstream happen around
//! it, through [`ControlSink`], [`TtySource`] and [`SessionLauncher`].

use vstd::prelude::*;

use vstd::utf8::encode_utf8;

use crate::app::{next_tab, prev_tab, tab_at, ActiveTab, App, SessionLaunch, SessionLaunchPhase};
use crate::focus::state::{
    focus_drilled, focus_escape_spec, focus_for_tab, focus_next_spec, focus_prev_spec,
    focus_push_spec, FocusView,
};
use crate::focus::pane::tab_panes;
use crate::lenses::agents::terminal::{chunk_gap, TerminalView};
use crate::lenses::agents::AgentTerminalSession;
use crate::runtime::session::SessionLauncher;
use crate::runtime::tty::{AgentControl, ControlSink, TtyChunk, TtySource};
use crate::text::{ascii_lower, push_char, to_ascii_lower};
use vstd::string::StrSliceExecFns;

verus! {

/// Rows of a freshly opened agent terminal (the pane resizes it to the live
/// geometry on the first resize event).
pub const DEFAULT_TERMINAL_ROWS: u16 = 24;

/// Columns of a freshly opened agent terminal.
pub const DEFAULT_TERMINAL_COLS: u16 = 80;

/// The keys the router distinguishes; every other key is `Other`.
#[derive(Debug, Clone, Copy, PartialEq, Eq, Structural)]
pub enum KeyCode {
    Char(char),
    Enter,
    Esc,
    Tab,
    BackTab,
    Left,
    Right,
    Backspace,
    Other,
}

/// One key press: the key and whether Control was held.
#[derive(Debug, Clone, Copy, PartialEq, Eq, Structural)]
pub struct KeyEvent {
    pub code: KeyCode,
    pub ctrl: bool,
}

impl KeyEvent {
    /// A key press with or without Control.
    pub fn new(code: KeyCode, ctrl: bool) -> (r: KeyEvent)
        ensures
            r == (KeyEvent { code, ctrl }),
    {
        KeyEvent { code, ctrl }
    }
}

/// Result of routing a single key event.
#[derive(Debug, Clone, Copy, PartialEq, Eq, Structural)]
pub enum Flow {
    /// Keep running; redraw on the next tick.
    Continue,
    /// Quit the event loop.
    Quit,
}

// ── Specification of the routing decisions ──────────────────────────────

/// Whether `c` is an ASCII decimal digit.
pub open spec fn is_digit_key(c: char) -> bool {
    '0' <= c <= '9'
}

/// The Flight Deck navigation of one key: the new tab, the new focus and the
/// flow. `q` and `Esc` quit when nothing is drilled; `Esc` otherwise unwinds;
/// `Tab`/`BackTab` cycle panes; arrows switch tabs; `Enter` drills in;
/// digits select tabs; every other key is ignored.
pub open spec fn nav_spec(tab: ActiveTab, focus: FocusView, key: KeyEvent) -> (
    ActiveTab,
    FocusView,
    Flow,
) {
    match key.code {
        KeyCode::Char(c) => if c == 'q' && !focus_drilled(focus) {
            (tab, focus, Flow::Quit)
        } else if is_digit_key(c) {
            let t = tab_at(c as int - 48);
            (t, focus_for_tab(t), Flow::Continue)
        } else {
            (tab, focus, Flow::Continue)
        },
        KeyCode::Esc => if !focus_drilled(focus) {
            (tab, focus, Flow::Quit)
        } else {
            (tab, focus_escape_spec(focus).0, Flow::Continue)
        },
        KeyCode::Tab => (tab, focus_next_spec(focus, tab), Flow::Continue),
        KeyCode::BackTab => (tab, focus_prev_spec(focus, tab), Flow::Continue),
        KeyCode::Right => (next_tab(tab), focus_for_tab(next_tab(tab)), Flow::Continue),
        KeyCode::Left => (prev_tab(tab), focus_for_tab(prev_tab(tab)), Flow::Continue),
        KeyCode::Enter => {
            let pushed = focus_push_spec(focus);
            (tab, FocusView { fullscreen: Some(pushed.active), ..pushed }, Flow::Continue)
        },
        _ => (tab, focus, Flow::Continue),
    }
}

/// Everything but the tab and the focus is left as it was.
pub open spec fn same_session_state(a: App, b: App) -> bool {
    &&& b.terminal == a.terminal
    &&& b.session_launch == a.session_launch
    &&& b.repo_ids == a.repo_ids
    &&& b.agent_session_ids == a.agent_session_ids
}

/// Everything but the live terminal is left as it was.
pub open spec fn same_but_terminal(a: App, b: App) -> bool {
    &&& b.active_tab == a.active_tab
    &&& b.focus@ == a.focus@
    &&& b.session_launch == a.session_launch
    &&& b.repo_ids == a.repo_ids
    &&& b.agent_session_ids == a.agent_session_ids
}

/// `b` is `a` after the Flight Deck navigation of `key`, which produced `flow`.
pub open spec fn nav_routed(a: App, b: App, key: KeyEvent, flow: Flow) -> bool {
    let (t, f, fl) = nav_spec(a.active_tab, a.focus@, key);
    &&& b.active_tab == t
    &&& b.focus@ == f
    &&& flow == fl
    &&& same_session_state(a, b)
}

/// Whether a live agent terminal owns the keyboard.
pub open spec fn terminal_attached(t: Option<AgentTerminalSession>) -> bool {
    match t {
        Some(s) => s@.attached,
        None => false,
    }
}

/// Ctrl-] detaches the terminal.
pub open spec fn is_detach_key(key: KeyEvent) -> bool {
    key.ctrl && key.code == KeyCode::Char(']')
}

/// Ctrl-C interrupts the agent's foreground process.
pub open spec fn is_interrupt_key(key: KeyEvent) -> bool {
    key.ctrl && key.code == KeyCode::Char('c')
}

/// ASCII letters.
pub open spec fn is_ascii_letter(c: char) -> bool {
    ('a' <= c <= 'z') || ('A' <= c <= 'Z')
}

/// Terminal input bytes of a printable key: Ctrl plus a letter folds into its
/// C0 control byte, anything else is the character's UTF-8 encoding.
pub open spec fn encoded_char(c: char, ctrl: bool) -> Seq<u8> {
    if ctrl && is_ascii_letter(c) {
        seq![((ascii_lower(c) as u32) as u8) & 0x1fu8]
    } else {
        encode_utf8(seq![c])
    }
}

/// Terminal input bytes of a key routed into an attached terminal, if it
/// produces input (Ctrl-] and Ctrl-C produce none).
pub open spec fn terminal_input(key: KeyEvent) -> Option<Seq<u8>> {
    if is_detach_key(key) || is_interrupt_key(key) {
        None
    } else {
        match key.code {
            KeyCode::Char(c) => Some(encoded_char(c, key.ctrl)),
            KeyCode::Enter => Some(seq![13u8]),
            KeyCode::Tab => Some(seq![9u8]),
            KeyCode::Backspace => Some(seq![0x7fu8]),
            KeyCode::Esc => Some(seq![0x1bu8]),
            _ => None,
        }
    }
}

/// `b` is `a` after an attached terminal took `key`, emitting `control`:
/// Ctrl-] detaches (and sends nothing), Ctrl-C sends an interrupt, keys with
/// terminal input send it, other keys do nothing.
pub open spec fn terminal_key_routed(a: App, b: App, key: KeyEvent, control: Option<
    AgentControl,
>) -> bool {
    &&& same_but_terminal(a, b)
    &&& if is_detach_key(key) {
        &&& control is None
        &&& match (a.terminal, b.terminal) {
            (Some(s), Some(t)) => t@ == (TerminalView { attached: false, ..s@ }),
            (None, None) => true,
            _ => false,
        }
    } else {
        &&& b.terminal == a.terminal
        &&& if is_interrupt_key(key) {
            control matches Some(AgentControl::Interrupt)
        } else {
            match terminal_input(key) {
                Some(bytes) => control matches Some(AgentControl::Input(v)) && v@ == bytes,
                None => control is None,
            }
        }
    }
}

/// Whether `Enter` opens a terminal on the first listed agent run.
pub open spec fn opens_agent_terminal(a: App, key: KeyEvent) -> bool {
    &&& !terminal_attached(a.terminal)
    &&& a.active_tab == ActiveTab::Agents
    &&& key.code == KeyCode::Enter
    &&& a.agent_session_ids@.len() > 0
}

/// A freshly opened, attached terminal on `run_id`.
pub open spec fn fresh_attached_terminal(t: AgentTerminalSession, run_id: Seq<char>) -> bool {
    t@ == (TerminalView {
        run_id,
        attached: true,
        lagged: false,
        last_chunk_seq: 0,
        rows: DEFAULT_TERMINAL_ROWS,
        cols: DEFAULT_TERMINAL_COLS,
    })
}

/// The run id of the agent session listed first on the Agents tab.
pub open spec fn first_run_id(a: App) -> Seq<char> {
    "agent_run."@ + a.agent_session_ids@[0]@
}

/// `b` is `a` after routing `key` with terminal control: an attached terminal
/// owns the keyboard; on the Agents tab `Enter` opens and attaches a terminal
/// on the first listed run; otherwise the Flight Deck navigation applies.
pub open spec fn key_routed(a: App, b: App, key: KeyEvent, flow: Flow, control: Option<
    AgentControl,
>) -> bool {
    if terminal_attached(a.terminal) {
        flow == Flow::Continue && terminal_key_routed(a, b, key, control)
    } else if opens_agent_terminal(a, key) {
        &&& flow == Flow::Continue
        &&& control is None
        &&& same_but_terminal(a, b)
        &&& b.terminal matches Some(t) && fresh_attached_terminal(t, first_run_id(a))
    } else {
        nav_routed(a, b, key, flow) && control is None
    }
}

/// Whether `n` launches a new session on the first repository in scope.
pub open spec fn launches_session(a: App, key: KeyEvent) -> bool {
    &&& !terminal_attached(a.terminal)
    &&& a.active_tab == ActiveTab::Agents
    &&& key.code == KeyCode::Char('n')
    &&& a.repo_ids@.len() > 0
}

/// `b` is `a` after a session launched on `repo` came back with the handle
/// `handle` (run id, branch): the launch record is attached to that run and
/// branch, and a fresh terminal on that run is mounted and attached.
pub open spec fn session_launched(a: App, b: App, repo: Seq<char>, handle: (Seq<char>, Seq<char>)) -> bool {
    &&& b.active_tab == a.active_tab
    &&& b.focus@ == a.focus@
    &&& b.repo_ids == a.repo_ids
    &&& b.agent_session_ids == a.agent_session_ids
    &&& b.session_launch matches Some(l) && {
        &&& l.phase == SessionLaunchPhase::Attached
        &&& l.repo_id@ == repo
        &&& l.run_id matches Some(run) && run@ == handle.0
        &&& l.branch matches Some(branch) && branch@ == handle.1
        &&& b.terminal matches Some(t) && fresh_attached_terminal(t, handle.0)
    }
}

/// The intents a routing step sends upstream: the control, if any.
pub open spec fn control_traffic(c: Option<AgentControl>) -> Seq<AgentControl> {
    match c {
        Some(x) => seq![x],
        None => Seq::empty(),
    }
}

// ── Routing ─────────────────────────────────────────────────────────────

/// Route one key through the Flight Deck navigation. Mutates the tab and the
/// focus; returns the control-flow decision.
pub fn handle_key(app: &mut App, key: KeyEvent) -> (r: Flow)
    ensures
        nav_routed(*old(app), *final(app), key, r),
{
    match key.code {
        KeyCode::Char(c) => {
            if c == 'q' && !app.focus.is_drilled() {
                Flow::Quit
            } else if '0' <= c && c <= '9' {
                let n: u8 = ((c as u32) - 48) as u8;
                match ActiveTab::from_number(n) {
                    Some(tab) => app.set_tab(tab),
                    None => {},
                }
                Flow::Continue
            } else {
                Flow::Continue
            }
        },
        KeyCode::Esc => {
            if !app.focus.is_drilled() {
                Flow::Quit
            } else {
                app.focus.escape();
                Flow::Continue
            }
        },
        KeyCode::Tab => {
            let tab = app.active_tab;
            app.focus.focus_next(tab);
            Flow::Continue
        },
        KeyCode::BackTab => {
            let tab = app.active_tab;
            app.focus.focus_prev(tab);
            Flow::Continue
        },
        KeyCode::Right => {
            let tab = app.active_tab.next();
            app.set_tab(tab);
            Flow::Continue
        },
        KeyCode::Left => {
            let tab = app.active_tab.prev();
            app.set_tab(tab);
            Flow::Continue
        },
        KeyCode::Enter => {
            app.focus.push();
            app.focus.enter_fullscreen();
            Flow::Continue
        },
        _ => Flow::Continue,
    }
}

/// UTF-8 encoding of one character.
fn char_utf8(c: char) -> (r: Vec<u8>)
    ensures
        r@ == encode_utf8(seq![c]),
{
    let mut s = String::new();
    push_char(&mut s, c);
    proof {
        assert(s@ =~= seq![c]);
    }
    s.as_str().as_bytes_vec()
}

/// Encode a printable key into terminal input bytes, folding Ctrl+letter into
/// its C0 control byte.
pub fn encode_char(c: char, ctrl: bool) -> (r: Vec<u8>)
    ensures
        r@ == encoded_char(c, ctrl),
{
    if ctrl && (('a' <= c && c <= 'z') || ('A' <= c && c <= 'Z')) {
        let lower = to_ascii_lower(c);
        let b: u8 = (lower as u32) as u8;
        let mut v: Vec<u8> = Vec::new();
        v.push(b & 0x1f);
        proof {
            assert(v@ =~= seq![((ascii_lower(c) as u32) as u8) & 0x1fu8]);
        }
        v
    } else {
        char_utf8(c)
    }
}

/// Whether the live terminal (if any) owns the keyboard.
fn attached(app: &App) -> (r: bool)
    ensures
        r == terminal_attached(app.terminal),
{
    match &app.terminal {
        Some(t) => t.is_attached(),
        None => false,
    }
}

/// Route a key into an attached agent terminal: Ctrl-] detaches, Ctrl-C
/// interrupts, printable and editing keys become terminal input. Returns the
/// intent to send upstream, if any.
pub fn route_terminal_key(app: &mut App, key: KeyEvent) -> (r: Option<AgentControl>)
    ensures
        terminal_key_routed(*old(app), *final(app), key, r),
{
    if key.ctrl && key.code == KeyCode::Char(']') {
        match app.terminal.take() {
            Some(mut term) => {
                term.detach();
                app.terminal = Some(term);
            },
            None => {},
        }
        return None;
    }
    if key.ctrl && key.code == KeyCode::Char('c') {
        return Some(AgentControl::Interrupt);
    }
    match key.code {
        KeyCode::Char(c) => Some(AgentControl::Input(encode_char(c, key.ctrl))),
        KeyCode::Enter => {
            let mut v: Vec<u8> = Vec::new();
            v.push(13u8);
            proof {
                assert(v@ =~= seq![13u8]);
            }
            Some(AgentControl::Input(v))
        },
        KeyCode::Tab => {
            let mut v: Vec<u8> = Vec::new();
            v.push(9u8);
            proof {
                assert(v@ =~= seq![9u8]);
            }
            Some(AgentControl::Input(v))
        },
        KeyCode::Backspace => {
            let mut v: Vec<u8> = Vec::new();
            v.push(0x7fu8);
            proof {
                assert(v@ =~= seq![0x7fu8]);
            }
            Some(AgentControl::Input(v))
        },
        KeyCode::Esc => {
            let mut v: Vec<u8> = Vec::new();
            v.push(0x1bu8);
            proof {
                assert(v@ =~= seq![0x1bu8]);
            }
            Some(AgentControl::Input(v))
        },
        _ => None,
    }
}

/// Route a key while an agent terminal is attached, sending the resulting
/// intent (if any) through `sink`. The Flight Deck keeps running.
pub fn handle_terminal_key(app: &mut App, key: KeyEvent, sink: &mut impl ControlSink) -> (r: Flow)
    ensures
        r == Flow::Continue,
        exists|c: Option<AgentControl>|
            terminal_key_routed(*old(app), *final(app), key, c) && final(sink).controls_sent()
                == old(sink).controls_sent() + control_traffic(c),
{
    let control = route_terminal_key(app, key);
    match control {
        Some(c) => sink.send(c),
        None => {},
    }
    Flow::Continue
}

/// The agent run listed first on the Agents tab, if any.
pub fn selected_run_id(app: &App) -> (r: Option<String>)
    ensures
        match r {
            Some(s) => app.agent_session_ids@.len() > 0 && s@ == first_run_id(*app),
            None => app.agent_session_ids@.len() == 0,
        },
{
    if app.agent_session_ids.len() == 0 {
        return None;
    }
    let mut run_id = "agent_run.".to_owned();
    run_id.append(app.agent_session_ids[0].as_str());
    Some(run_id)
}

/// Route one key with terminal control: an attached terminal owns the
/// keyboard; on the Agents tab `Enter` opens and attaches a terminal on the
/// first listed run; otherwise the Flight Deck navigation applies. Returns the
/// flow and the intent to send upstream.
pub fn route_key(app: &mut App, key: KeyEvent) -> (r: (Flow, Option<AgentControl>))
    ensures
        key_routed(*old(app), *final(app), key, r.0, r.1),
{
    if attached(app) {
        let c = route_terminal_key(app, key);
        return (Flow::Continue, c);
    }
    if app.active_tab == ActiveTab::Agents && key.code == KeyCode::Enter {
        match selected_run_id(app) {
            Some(run_id) => {
                let mut session = AgentTerminalSession::new(
                    run_id.as_str(),
                    DEFAULT_TERMINAL_ROWS,
                    DEFAULT_TERMINAL_COLS,
                );
                session.attach();
                app.terminal = Some(session);
                return (Flow::Continue, None);
            },
            None => {},
        }
    }
    (handle_key(app, key), None)
}

/// Route one key and send the resulting terminal-control intent (if any)
/// through `sink`.
pub fn handle_key_with_sink(app: &mut App, key: KeyEvent, sink: &mut impl ControlSink) -> (r:
    Flow)
    ensures
        exists|c: Option<AgentControl>|
            key_routed(*old(app), *final(app), key, r, c) && final(sink).controls_sent()
                == old(sink).controls_sent() + control_traffic(c),
{
    let (flow, control) = route_key(app, key);
    match control {
        Some(c) => sink.send(c),
        None => {},
    }
    flow
}

/// The repository a new session targets: the first repository in scope.
pub fn current_repo_id(app: &App) -> (r: Option<String>)
    ensures
        match r {
            Some(s) => app.repo_ids@.len() > 0 && s == app.repo_ids@[0],
            None => app.repo_ids@.len() == 0,
        },
{
    if app.repo_ids.len() == 0 {
        None
    } else {
        Some(app.repo_ids[0].clone())
    }
}

/// Create an isolated session on `repo_id` through `launcher` and attach its
/// live terminal. The launch is recorded as pending the instant the intent
/// fires, then as attached once the launcher hands back the run.
pub fn launch_session(app: &mut App, repo_id: &str, launcher: &mut impl SessionLauncher)
    ensures
        final(launcher).requests() == old(launcher).requests().push(repo_id@),
        final(launcher).last_handle() matches Some(h) && session_launched(
            *old(app),
            *final(app),
            repo_id@,
            h,
        ),
{
    app.session_launch = Some(SessionLaunch::pending(repo_id));
    let handle = launcher.create_session(repo_id);
    let mut session = AgentTerminalSession::new(
        handle.run_id.as_str(),
        DEFAULT_TERMINAL_ROWS,
        DEFAULT_TERMINAL_COLS,
    );
    session.attach();
    app.terminal = Some(session);
    app.session_launch = Some(SessionLaunch::attach(repo_id, &handle));
}

/// Route one key with both a control sink and a session launcher: on the
/// Agents tab, with no terminal attached, `n` launches a new session on the
/// first repository in scope; every other key is routed as by
/// [`handle_key_with_sink`].
pub fn handle_key_with_session(
    app: &mut App,
    key: KeyEvent,
    sink: &mut impl ControlSink,
    launcher: &mut impl SessionLauncher,
) -> (r: Flow)
    ensures
        launches_session(*old(app), key) ==> {
            &&& r == Flow::Continue
            &&& final(launcher).requests() == old(launcher).requests().push(
                old(app).repo_ids@[0]@,
            )
            &&& final(launcher).last_handle() matches Some(h) && session_launched(
                *old(app),
                *final(app),
                old(app).repo_ids@[0]@,
                h,
            )
            &&& final(sink).controls_sent() == old(sink).controls_sent()
        },
        !launches_session(*old(app), key) ==> {
            &&& *final(launcher) == *old(launcher)
            &&& exists|c: Option<AgentControl>|
                key_routed(*old(app), *final(app), key, r, c) && final(sink).controls_sent()
                    == old(sink).controls_sent() + control_traffic(c)
        },
{
    if !attached(app) && app.active_tab == ActiveTab::Agents && key.code == KeyCode::Char('n') {
        match current_repo_id(app) {
            Some(repo_id) => {
                launch_session(app, repo_id.as_str(), launcher);
                return Flow::Continue;
            },
            None => {},
        }
    }
    handle_key_with_sink(app, key, sink)
}

// ── Routing laws ────────────────────────────────────────────────────────

/// An attached agent terminal owns the keyboard: whatever key arrives, the
/// Flight Deck keeps running (`q` and `Esc` never quit while attached), and
/// the tab and focus stay where they were.
pub proof fn lemma_attached_terminal_never_quits(
    a: App,
    b: App,
    key: KeyEvent,
    flow: Flow,
    control: Option<AgentControl>,
)
    requires
        terminal_attached(a.terminal),
        key_routed(a, b, key, flow, control),
    ensures
        flow == Flow::Continue,
        b.active_tab == a.active_tab,
        b.focus@ == a.focus@,
{
}

/// A key that quits the Flight Deck changes nothing: the tab, the focus and
/// the session state are left as they were.
#[verifier::spinoff_prover]
pub proof fn lemma_quit_changes_nothing(a: App, b: App, key: KeyEvent, flow: Flow, control: Option<
    AgentControl,
>)
    requires
        key_routed(a, b, key, flow, control),
        flow == Flow::Quit,
    ensures
        b.active_tab == a.active_tab,
        b.focus@ == a.focus@,
        same_session_state(a, b),
        control is None,
{
    if !terminal_attached(a.terminal) && !opens_agent_terminal(a, key) {
        let r = nav_spec(a.active_tab, a.focus@, key);
        match key.code {
            KeyCode::Char(c) => {
                if !(c == 'q' && !focus_drilled(a.focus@)) {
                    assert(r.2 == Flow::Continue);
                }
            },
            KeyCode::Esc => {},
            KeyCode::Tab => {},
            KeyCode::BackTab => {},
            KeyCode::Right => {},
            KeyCode::Left => {},
            KeyCode::Enter => {},
            _ => {},
        }
    }
}

/// Drilling in with `Enter` and backing out with `Esc` restores the focus
/// (leaving fullscreen) and the tab, and neither key quits.
#[verifier::spinoff_prover]
pub proof fn lemma_enter_then_esc_restores_focus(tab: ActiveTab, focus: FocusView)
    ensures
        ({
            let enter = KeyEvent { code: KeyCode::Enter, ctrl: false };
            let esc = KeyEvent { code: KeyCode::Esc, ctrl: false };
            let (t1, f1, fl1) = nav_spec(tab, focus, enter);
            let (t2, f2, fl2) = nav_spec(t1, f1, esc);
            &&& fl1 == Flow::Continue
            &&& fl2 == Flow::Continue
            &&& t2 == tab
            &&& f2 == FocusView { fullscreen: None, ..focus }
        }),
{
    assert(focus.stack.push(focus.active).drop_last() =~= focus.stack);
}

/// Switching tabs with the arrows lands on the new tab's default pane with
/// nothing drilled, and `Right` then `Left` returns to the tab it started
/// from.
#[verifier::spinoff_prover]
pub proof fn lemma_arrow_switch_resets_focus(tab: ActiveTab, focus: FocusView)
    ensures
        ({
            let right = KeyEvent { code: KeyCode::Right, ctrl: false };
            let left = KeyEvent { code: KeyCode::Left, ctrl: false };
            let (t1, f1, fl1) = nav_spec(tab, focus, right);
            let (t2, f2, fl2) = nav_spec(t1, f1, left);
            &&& fl1 == Flow::Continue
            &&& f1 == focus_for_tab(t1)
            &&& !focus_drilled(f1)
            &&& t2 == tab
            &&& f2 == focus_for_tab(tab)
            &&& fl2 == Flow::Continue
        }),
{
    let t1 = next_tab(tab);
    lemma_right_step(tab, focus);
    lemma_left_step(t1, focus_for_tab(t1));
    crate::app::lemma_next_prev_inverse(tab);
}

/// `Right` moves to the next tab and resets its focus.
#[verifier::spinoff_prover]
proof fn lemma_right_step(tab: ActiveTab, focus: FocusView)
    ensures
        nav_spec(tab, focus, KeyEvent { code: KeyCode::Right, ctrl: false }) == (
            next_tab(tab),
            focus_for_tab(next_tab(tab)),
            Flow::Continue,
        ),
{
}

/// `Left` moves to the previous tab and resets its focus.
#[verifier::spinoff_prover]
proof fn lemma_left_step(tab: ActiveTab, focus: FocusView)
    ensures
        nav_spec(tab, focus, KeyEvent { code: KeyCode::Left, ctrl: false }) == (
            prev_tab(tab),
            focus_for_tab(prev_tab(tab)),
            Flow::Continue,
        ),
{
}

/// A digit key selects a tab: it always lands on that tab's default pane
/// with nothing drilled, and never quits.
#[verifier::spinoff_prover]
pub proof fn lemma_digit_switch_resets_focus(tab: ActiveTab, focus: FocusView, c: char)
    requires
        is_digit_key(c),
    ensures
        ({
            let (t, f, fl) = nav_spec(tab, focus, KeyEvent { code: KeyCode::Char(c), ctrl: false });
            &&& f == focus_for_tab(t)
            &&& !focus_drilled(f)
            &&& fl == Flow::Continue
        }),
{
    assert(c != 'q');
}

/// Detaching with Ctrl-] hands the keyboard back to the Flight Deck: after it,
/// the terminal no longer owns the keyboard and no intent was sent.
pub proof fn lemma_detach_releases_keyboard(a: App, b: App, control: Option<AgentControl>)
    requires
        terminal_attached(a.terminal),
        key_routed(a, b, KeyEvent { code: KeyCode::Char(']'), ctrl: true }, Flow::Continue, control),
    ensures
        !terminal_attached(b.terminal),
        control is None,
{
}

/// A launched session owns the keyboard at once: its terminal is attached,
/// on the run the launcher handed back, and the launch reads as attached.
pub proof fn lemma_launch_attaches_terminal(
    a: App,
    b: App,
    repo: Seq<char>,
    handle: (Seq<char>, Seq<char>),
)
    requires
        session_launched(a, b, repo, handle),
    ensures
        terminal_attached(b.terminal),
        b.session_launch matches Some(l) && l.phase == SessionLaunchPhase::Attached,
{
}

/// `Tab` moves the focus to the pane that follows the focused one in its
/// tab's pane order, wrapping from the last to the first; `BackTab`
/// (Shift-Tab) moves to the pane that precedes it, wrapping from the first to
/// the last. Neither changes the tab, the breadcrumb or the fullscreen pane,
/// and neither quits.
#[verifier::spinoff_prover]
pub proof fn lemma_tab_cycles_panes_in_order(tab: ActiveTab, focus: FocusView, i: int, ctrl: bool)
    requires
        0 <= i < tab_panes(tab).len(),
        tab_panes(tab)[i] == focus.active,
    ensures
        ({
            let panes = tab_panes(tab);
            let next = if i + 1 == panes.len() {
                panes[0]
            } else {
                panes[i + 1]
            };
            let prev = if i == 0 {
                panes[panes.len() - 1]
            } else {
                panes[i - 1]
            };
            &&& nav_spec(tab, focus, KeyEvent { code: KeyCode::Tab, ctrl }) == (
                tab,
                FocusView { active: next, ..focus },
                Flow::Continue,
            )
            &&& nav_spec(tab, focus, KeyEvent { code: KeyCode::BackTab, ctrl }) == (
                tab,
                FocusView { active: prev, ..focus },
                Flow::Continue,
            )
        }),
{
    crate::focus::pane::lemma_tab_panes_wellformed(tab);
    let panes = tab_panes(tab);
    let n = panes.len() as int;
    crate::focus::state::lemma_first_index_of_distinct(panes, i);
    if i + 1 == n {
        vstd::arithmetic::div_mod::lemma_mod_self_0(n);
    } else {
        vstd::arithmetic::div_mod::lemma_small_mod((i + 1) as nat, n as nat);
    }
    if i == 0 {
        vstd::arithmetic::div_mod::lemma_small_mod((n - 1) as nat, n as nat);
    } else {
        vstd::arithmetic::div_mod::lemma_mod_add_multiples_vanish(i - 1, n);
        vstd::arithmetic::div_mod::lemma_small_mod((i - 1) as nat, n as nat);
    }
}

/// `q` and `Esc` quit the Flight Deck exactly when nothing is drilled, and
/// quitting leaves tab and focus as they were; while drilled, `q` is ignored
/// and `Esc` keeps the Flight Deck running.
#[verifier::spinoff_prover]
pub proof fn lemma_quit_keys(tab: ActiveTab, focus: FocusView, ctrl: bool)
    ensures
        ({
            let q = nav_spec(tab, focus, KeyEvent { code: KeyCode::Char('q'), ctrl });
            let esc = nav_spec(tab, focus, KeyEvent { code: KeyCode::Esc, ctrl });
            let drilled = focus.fullscreen is Some || focus.stack.len() > 0;
            &&& !drilled ==> q == (tab, focus, Flow::Quit) && esc == (tab, focus, Flow::Quit)
            &&& drilled ==> q == (tab, focus, Flow::Continue) && esc.2 == Flow::Continue
        }),
{
    assert(!is_digit_key('q'));
}

/// `Enter` drills into the focused pane: it is pushed onto the breadcrumb and
/// shown fullscreen, the focus stays on it and the tab is unchanged.
#[verifier::spinoff_prover]
pub proof fn lemma_enter_drills_into_focused_pane(tab: ActiveTab, focus: FocusView, ctrl: bool)
    ensures
        nav_spec(tab, focus, KeyEvent { code: KeyCode::Enter, ctrl }) == (
            tab,
            FocusView {
                active: focus.active,
                stack: focus.stack.push(focus.active),
                fullscreen: Some(focus.active),
            },
            Flow::Continue,
        ),
{
}

/// `Enter` on the Agents tab, with no terminal attached and at least one agent
/// session listed, opens and attaches a terminal on `agent_run.` followed by
/// the session listed first, whatever sessions follow it; it sends nothing and
/// does not quit.
pub proof fn lemma_enter_opens_first_listed_run(
    a: App,
    b: App,
    ctrl: bool,
    flow: Flow,
    control: Option<AgentControl>,
)
    requires
        !terminal_attached(a.terminal),
        a.active_tab == ActiveTab::Agents,
        a.agent_session_ids@.len() > 0,
        key_routed(a, b, KeyEvent { code: KeyCode::Enter, ctrl }, flow, control),
    ensures
        b.terminal matches Some(t) && t@.attached && t@.run_id == "agent_run."@
            + a.agent_session_ids@[0]@,
        flow == Flow::Continue,
        control is None,
        b.agent_session_ids == a.agent_session_ids,
{
}

// ── Terminal pump ───────────────────────────────────────────────────────

/// The terminal posture after consuming `chunks` in order, starting from the
/// last observed sequence `last` and the lag flag `lagged`, with the number of
/// gaps met: `(last sequence, lagged, gaps)`.
pub open spec fn pump_fold(last: u64, lagged: bool, chunks: Seq<TtyChunk>) -> (u64, bool, nat)
    decreases chunks.len(),
{
    if chunks.len() == 0 {
        (last, lagged, 0)
    } else {
        let (l, g, n) = pump_fold(last, lagged, chunks.drop_last());
        let gap = chunk_gap(l, chunks.last().chunk_seq);
        (chunks.last().chunk_seq, g || gap, if gap {
            n + 1
        } else {
            n
        })
    }
}

/// A chunk reveals a gap exactly when it skips at least one sequence number
/// after a chunk was seen: a chunk numbered two or more past the last one is a
/// gap, which marks the session lagged and costs one resync; the next
/// consecutive chunk, a repeated or older one, and any chunk before the first
/// (last `0`) are no gap and leave the lag flag as it was. Either way the
/// chunk's number becomes the last one seen.
pub proof fn lemma_gap_is_a_skipped_sequence(last: u64, lagged: bool, chunk: TtyChunk)
    ensures
        ({
            let seq = chunk.chunk_seq;
            let (l, g, n) = pump_fold(last, lagged, seq![chunk]);
            &&& l == seq
            &&& last != 0 && seq >= last + 2 ==> chunk_gap(last, seq) && g && n == 1
            &&& last == 0 || seq <= last + 1 ==> !chunk_gap(last, seq) && g == lagged && n == 0
        }),
{
    let s = seq![chunk];
    assert(s.drop_last() =~= Seq::<TtyChunk>::empty());
    assert(pump_fold(last, lagged, s.drop_last()) == (last, lagged, 0nat));
    assert(s.last() == chunk);
}

/// The bytes of `chunks`, concatenated in order.
pub open spec fn chunk_bytes(chunks: Seq<TtyChunk>) -> Seq<u8>
    decreases chunks.len(),
{
    if chunks.len() == 0 {
        Seq::empty()
    } else {
        chunk_bytes(chunks.drop_last()) + chunks.last().bytes@
    }
}

/// `n` resync requests.
pub open spec fn resyncs(n: nat) -> Seq<AgentControl> {
    Seq::new(n, |i: int| AgentControl::Resync)
}

/// Feed `chunks` to `session` in order, observing each sequence number;
/// returns one resync request per gap met.
pub fn pump_chunks(session: &mut AgentTerminalSession, chunks: Vec<TtyChunk>) -> (r: Vec<
    AgentControl,
>)
    ensures
        ({
            let (l, g, n) = pump_fold(
                old(session)@.last_chunk_seq,
                old(session)@.lagged,
                chunks@,
            );
            &&& final(session)@ == (TerminalView {
                last_chunk_seq: l,
                lagged: g,
                ..old(session)@
            })
            &&& r@.len() == n
            &&& forall|i: int| 0 <= i < r@.len() ==> (#[trigger] r@[i]) matches AgentControl::Resync
        }),
        final(session).fed() == old(session).fed() + chunk_bytes(chunks@),
{
    let mut resyncs: Vec<AgentControl> = Vec::new();
    let mut i: usize = 0;
    while i < chunks.len()
        invariant
            i <= chunks@.len(),
            ({
                let (l, g, n) = pump_fold(
                    old(session)@.last_chunk_seq,
                    old(session)@.lagged,
                    chunks@.take(i as int),
                );
                &&& session@ == (TerminalView { last_chunk_seq: l, lagged: g, ..old(session)@ })
                &&& resyncs@.len() == n
            }),
            session.fed() == old(session).fed() + chunk_bytes(chunks@.take(i as int)),
            forall|k: int| 0 <= k < resyncs@.len() ==> (#[trigger] resyncs@[k]) matches AgentControl::Resync,
        decreases chunks@.len() - i,
    {
        proof {
            assert(chunks@.take(i + 1).drop_last() =~= chunks@.take(i as int));
        }
        let chunk = &chunks[i];
        if session.observe_chunk_seq(chunk.chunk_seq) {
            resyncs.push(AgentControl::Resync);
        }
        session.feed(chunk.bytes.as_slice());
        i = i + 1;
    }
    assert(chunks@.take(chunks@.len() as int) =~= chunks@);
    resyncs
}

/// Drain every chunk available from `source` into `session` (leaving the source
/// with nothing pending), feeding the emulator in sequence and sending a resync request through `sink` for every
/// sequence gap (which also marks the session lagged).
pub fn pump_terminal(
    session: &mut AgentTerminalSession,
    source: &mut impl TtySource,
    sink: &mut impl ControlSink,
)
    ensures
        ({
            let chunks = old(source).pending();
            let (l, g, n) = pump_fold(
                old(session)@.last_chunk_seq,
                old(session)@.lagged,
                chunks,
            );
            &&& final(session)@ == (TerminalView { last_chunk_seq: l, lagged: g, ..old(session)@ })
            &&& final(session).fed() == old(session).fed() + chunk_bytes(chunks)
            &&& final(sink).controls_sent() == old(sink).controls_sent() + resyncs(n)
        }),
        final(source).pending() == Seq::<TtyChunk>::empty(),
{
    let chunks = source.poll();
    let resync_list = pump_chunks(session, chunks);
    let ghost start = sink.controls_sent();
    let mut i: usize = 0;
    while i < resync_list.len()
        invariant
            i <= resync_list@.len(),
            sink.controls_sent() == start + resyncs(i as nat),
        decreases resync_list@.len() - i,
    {
        sink.send(AgentControl::Resync);
        i = i + 1;
        assert(sink.controls_sent() =~= start + resyncs(i as nat));
    }
}

} // verus!
