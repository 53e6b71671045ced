//! Live agent-terminal session: a vt100 screen emulator fed with decoded
//! terminal bytes, plus the attach / lag posture shown in the status line.
//!
//! The emulator is the `vt100` crate's parser; this module keeps the posture
//! (attached, lagged, last chunk sequence) that routing decides on, and
//! models the emulator by the input it has processed and its grid size.

use vstd::prelude::*;

verus! {

#[verifier::external_type_specification]
#[verifier::external_body]
pub struct ExVt100Screen(vt100::Screen);

/// The `vt100` emulator, held opaquely: Verus refuses a declaration of
/// `vt100::Parser` because its type parameter is bounded by the outside trait
/// `vt100::Callbacks`, so the parser lives in a private field of this struct.
#[verifier::external_body]
pub(crate) struct Vt100Emulator {
    parser: vt100::Parser,
}

/// The terminal input an emulator has processed since it was built: the
/// byte stream handed to `vt100::Parser::process`, in order. The screen it
/// shows is what vt100 makes of this stream together with the resizes made
/// on it.
pub uninterp spec fn emulator_input(e: Vt100Emulator) -> Seq<u8>;

/// The grid size `(rows, cols)` of an emulator's screen, as
/// `vt100::Screen::size` reports it.
pub uninterp spec fn emulator_size(e: Vt100Emulator) -> (u16, u16);

/// The escape codes that redraw an emulator's visible screen (grid and
/// attributes), as `vt100::Screen::state_formatted` writes them.
pub uninterp spec fn emulator_visible_state(e: Vt100Emulator) -> Seq<u8>;

/// A new `vt100::Parser` of `rows` x `cols` without scrollback, which has
/// processed no input yet. The grid must hold at least one row and two
/// columns: the emulator subtracts one from the row count and up to two from
/// the column count while drawing.
#[verifier::external_body]
fn new_parser(rows: u16, cols: u16) -> (r: Vt100Emulator)
    requires
        rows >= 1,
        cols >= 2,
    ensures
        emulator_input(r) == Seq::<u8>::empty(),
        emulator_size(r) == (rows, cols),
{
    Vt100Emulator { parser: vt100::Parser::new(rows, cols, 0) }
}

/// Feed bytes to a parser (`vt100::Parser::process`): they extend the input it
/// has processed, and the grid size stays. Nothing more is stated of the
/// resulting screen, which vt100 computes from that input.
#[verifier::external_body]
fn parser_process(emulator: &mut Vt100Emulator, bytes: &[u8])
    ensures
        emulator_input(*final(emulator)) == emulator_input(*old(emulator)) + bytes@,
        emulator_size(*final(emulator)) == emulator_size(*old(emulator)),
{
    emulator.parser.process(bytes);
}

/// The parser's screen (`vt100::Parser::screen`).
#[verifier::external_body]
fn parser_screen(emulator: &Vt100Emulator) -> (r: &vt100::Screen) {
    emulator.parser.screen()
}

/// The grid size of the parser's screen (`vt100::Screen::size` through
/// `vt100::Parser::screen`).
#[verifier::external_body]
fn parser_size(emulator: &Vt100Emulator) -> (r: (u16, u16))
    ensures
        r == emulator_size(*emulator),
{
    emulator.parser.screen().size()
}

/// Resize the parser's screen (`vt100::Screen::set_size` through
/// `vt100::Parser::screen_mut`). The same grid bounds as [`new_parser`] apply.
#[verifier::external_body]
fn parser_set_size(emulator: &mut Vt100Emulator, rows: u16, cols: u16)
    requires
        rows >= 1,
        cols >= 2,
    ensures
        emulator_input(*final(emulator)) == emulator_input(*old(emulator)),
        emulator_size(*final(emulator)) == (rows, cols),
{
    emulator.parser.screen_mut().set_size(rows, cols);
}

/// Escape codes that redraw the screen's visible state
/// (`vt100::Screen::state_formatted` through `vt100::Parser::screen`).
#[verifier::external_body]
fn screen_state_formatted(emulator: &Vt100Emulator) -> (r: Vec<u8>)
    ensures
        r@ == emulator_visible_state(*emulator),
{
    emulator.parser.screen().state_formatted()
}

/// One attached/attachable agent terminal: the emulator screen plus the
/// attach/lag posture.
pub struct AgentTerminalSession {
    run_id: String,
    parser: Vt100Emulator,
    attached: bool,
    lagged: bool,
    last_chunk_seq: u64,
}

/// Mathematical model of the session posture and its screen's grid size
/// (the screen's content aside).
pub struct TerminalView {
    pub run_id: Seq<char>,
    pub attached: bool,
    pub lagged: bool,
    pub last_chunk_seq: u64,
    pub rows: u16,
    pub cols: u16,
}

impl View for AgentTerminalSession {
    type V = TerminalView;

    closed spec fn view(&self) -> TerminalView {
        TerminalView {
            run_id: self.run_id@,
            attached: self.attached,
            lagged: self.lagged,
            last_chunk_seq: self.last_chunk_seq,
            rows: emulator_size(self.parser).0,
            cols: emulator_size(self.parser).1,
        }
    }
}

impl AgentTerminalSession {
    /// The terminal input the session's emulator has processed, in order.
    pub closed spec fn fed(&self) -> Seq<u8> {
        emulator_input(self.parser)
    }

    /// The escape codes that redraw the session's visible screen.
    pub closed spec fn visible_state(&self) -> Seq<u8> {
        emulator_visible_state(self.parser)
    }
}

/// Whether the chunk numbered `seq`, arriving after `last`, reveals a gap in
/// the stream (`0` means nothing was observed yet).
pub open spec fn chunk_gap(last: u64, seq: u64) -> bool {
    last != 0 && seq > last + 1
}

impl AgentTerminalSession {
    /// Open a detached session of the given grid size for `run_id`; its
    /// emulator screen has that size and has processed no input.
    ///
    /// The grid must hold at least one row and two columns. vt100 panics at
    /// once on zero rows; with fewer than two columns it builds the grid but
    /// panics later, when a wide character (or, with no column, any character)
    /// is drawn. Asking for the bound here keeps every later `feed` panic-free.
    pub fn new(run_id: &str, rows: u16, cols: u16) -> (r: AgentTerminalSession)
        requires
            rows >= 1,
            cols >= 2,
        ensures
            r@ == (TerminalView {
                run_id: run_id@,
                attached: false,
                lagged: false,
                last_chunk_seq: 0,
                rows,
                cols,
            }),
            r.fed() == Seq::<u8>::empty(),
    {
        AgentTerminalSession {
            run_id: run_id.to_owned(),
            parser: new_parser(rows, cols),
            attached: false,
            lagged: false,
            last_chunk_seq: 0,
        }
    }

    /// The agent run this session mirrors (scope `agent_run.{id}`).
    pub fn run_id(&self) -> (r: &str)
        ensures
            r@ == self@.run_id,
    {
        self.run_id.as_str()
    }

    /// Drive the emulator with a chunk of decoded terminal bytes: they extend
    /// the input it has processed; the posture and grid size are unchanged.
    pub fn feed(&mut self, bytes: &[u8])
        ensures
            final(self)@ == old(self)@,
            final(self).fed() == old(self).fed() + bytes@,
    {
        parser_process(&mut self.parser, bytes);
    }

    /// Borrow the current screen grid for rendering. The screen is vt100's
    /// own value, opaque to the contracts: what it shows is vt100's rendering
    /// of [`Self::fed`] and the resizes, and is not stated here.
    pub fn screen(&self) -> &vt100::Screen {
        parser_screen(&self.parser)
    }

    /// Resize the emulator grid (driven by the pane geometry); the input it
    /// has processed stays. The new grid is bounded as in [`Self::new`].
    pub fn resize(&mut self, rows: u16, cols: u16)
        requires
            rows >= 1,
            cols >= 2,
        ensures
            final(self)@ == (TerminalView { rows, cols, ..old(self)@ }),
            final(self).fed() == old(self).fed(),
    {
        parser_set_size(&mut self.parser, rows, cols);
    }

    /// Current grid size as `(rows, cols)`.
    pub fn size(&self) -> (r: (u16, u16))
        ensures
            r == (self@.rows, self@.cols),
    {
        parser_size(&self.parser)
    }

    /// Mark or clear the lagged posture; the emulator is untouched.
    pub fn set_lagged(&mut self, lagged: bool)
        ensures
            final(self)@ == (TerminalView { lagged, ..old(self)@ }),
            final(self).fed() == old(self).fed(),
    {
        self.lagged = lagged;
    }

    /// Whether a stream gap has been observed since the last resync.
    pub fn is_lagged(&self) -> (r: bool)
        ensures
            r == self@.lagged,
    {
        self.lagged
    }

    /// Attach: keys now route into the terminal instead of the lens chrome;
    /// the emulator is untouched.
    pub fn attach(&mut self)
        ensures
            final(self)@ == (TerminalView { attached: true, ..old(self)@ }),
            final(self).fed() == old(self).fed(),
    {
        self.attached = true;
    }

    /// Detach: keys fall back to the normal Flight Deck routing; the emulator
    /// is untouched.
    pub fn detach(&mut self)
        ensures
            final(self)@ == (TerminalView { attached: false, ..old(self)@ }),
            final(self).fed() == old(self).fed(),
    {
        self.attached = false;
    }

    /// Whether this session owns keyboard input.
    pub fn is_attached(&self) -> (r: bool)
        ensures
            r == self@.attached,
    {
        self.attached
    }

    /// Record the chunk sequence and flag a gap as lagged. Returns `true` when
    /// a gap was detected (the caller asks the source for a resync). The
    /// emulator is untouched.
    pub fn observe_chunk_seq(&mut self, chunk_seq: u64) -> (r: bool)
        ensures
            r == chunk_gap(old(self)@.last_chunk_seq, chunk_seq),
            final(self)@ == (TerminalView {
                last_chunk_seq: chunk_seq,
                lagged: old(self)@.lagged || r,
                ..old(self)@
            }),
            final(self).fed() == old(self).fed(),
    {
        let last = self.last_chunk_seq;
        let gap = last != 0 && last < u64::MAX && chunk_seq > last + 1;
        self.last_chunk_seq = chunk_seq;
        if gap {
            self.lagged = true;
        }
        gap
    }

    /// The last chunk sequence consumed from the source.
    pub fn last_chunk_seq(&self) -> (r: u64)
        ensures
            r == self@.last_chunk_seq,
    {
        self.last_chunk_seq
    }
}

impl Clone for AgentTerminalSession {
    /// An equivalent session: the same posture and grid size, and an emulator
    /// rebuilt by feeding a fresh one the source screen's visible state (grid
    /// and attributes), without the byte history. Every session holds a grid
    /// of at least one row and two columns (`new` and `resize` ask for it), so
    /// the copy is always exact.
    fn clone(&self) -> (r: AgentTerminalSession)
        ensures
            self@.rows >= 1 && self@.cols >= 2 ==> r@ == self@ && r.fed() == self.visible_state(),
    {
        // Sessions are only ever sized with at least one row and two columns.
        let (r, c) = parser_size(&self.parser);
        let rows = if r >= 1 {
            r
        } else {
            1
        };
        let cols = if c >= 2 {
            c
        } else {
            2
        };
        let mut parser = new_parser(rows, cols);
        let state = screen_state_formatted(&self.parser);
        parser_process(&mut parser, state.as_slice());
        AgentTerminalSession {
            run_id: self.run_id.clone(),
            parser,
            attached: self.attached,
            lagged: self.lagged,
            last_chunk_seq: self.last_chunk_seq,
        }
    }
}

} // verus!
