//! Terminal transport seam for the live agent-terminal pane.
//!
//! The pane consumes decoded terminal bytes through [`TtySource`] and emits
//! operator intents through [`ControlSink`], so routing stays independent of
//! the transport. [`ScriptedTtySource`] and [`RecordingControlSink`] drive the
//! same surface without a socket or an agent.

use vstd::prelude::*;

verus! {

/// One decoded chunk of terminal output, tagged with its monotonic sequence
/// number so the consumer can detect gaps.
#[derive(Debug, Clone, PartialEq, Eq)]
pub struct TtyChunk {
    pub chunk_seq: u64,
    pub bytes: Vec<u8>,
}

/// An operator intent sent back toward the running agent's terminal.
#[derive(Debug, Clone, PartialEq, Eq)]
pub enum AgentControl {
    /// Keystrokes encoded as terminal input bytes.
    Input(Vec<u8>),
    /// Ctrl-C: interrupt the foreground process (the pane stays open).
    Interrupt,
    /// The pane geometry changed; ask the agent PTY to match.
    Resize { cols: u16, rows: u16 },
    /// A gap was detected; request a full screen replay from the source.
    Resync,
}

/// A source of decoded terminal chunks for an attached agent run.
pub trait TtySource {
    /// The chunks available since the last poll, in sequence order.
    spec fn pending(&self) -> Seq<TtyChunk>;

    /// Drain all chunks available since the last poll, in sequence order:
    /// nothing is pending afterwards.
    fn poll(&mut self) -> (r: Vec<TtyChunk>)
        ensures
            r@ == old(self).pending(),
            final(self).pending() == Seq::<TtyChunk>::empty(),
    ;
}

/// A sink for operator intents flowing back toward the agent terminal.
pub trait ControlSink {
    /// Every intent sent so far, oldest first.
    spec fn controls_sent(&self) -> Seq<AgentControl>;

    /// Send one control intent upstream.
    fn send(&mut self, control: AgentControl)
        ensures
            final(self).controls_sent() == old(self).controls_sent().push(control),
    ;
}

/// A [`TtySource`] that yields a fixed script of chunks: the first poll drains
/// the whole script, later polls yield nothing.
pub struct ScriptedTtySource {
    chunks: Vec<TtyChunk>,
}

impl View for ScriptedTtySource {
    type V = Seq<TtyChunk>;

    closed spec fn view(&self) -> Seq<TtyChunk> {
        self.chunks@
    }
}

impl ScriptedTtySource {
    /// A source that will yield `chunks`, in order.
    pub fn new(chunks: Vec<TtyChunk>) -> (r: ScriptedTtySource)
        ensures
            r@ == chunks@,
    {
        ScriptedTtySource { chunks }
    }

    /// Whether every scripted chunk has been drained.
    pub fn is_drained(&self) -> (r: bool)
        ensures
            r == (self@.len() == 0),
    {
        self.chunks.len() == 0
    }
}

impl TtySource for ScriptedTtySource {
    open spec fn pending(&self) -> Seq<TtyChunk> {
        self@
    }

    /// Every chunk still scripted, in order; the script is then empty.
    fn poll(&mut self) -> (r: Vec<TtyChunk>)
        ensures
            r@ == old(self)@,
            final(self)@.len() == 0,
    {
        let mut out: Vec<TtyChunk> = Vec::new();
        std::mem::swap(&mut out, &mut self.chunks);
        out
    }
}

/// A [`ControlSink`] that records every intent it is handed.
#[derive(Debug, Default)]
pub struct RecordingControlSink {
    pub sent: Vec<AgentControl>,
}

impl RecordingControlSink {
    /// A sink that has recorded nothing yet.
    pub fn new() -> (r: RecordingControlSink)
        ensures
            r.sent@.len() == 0,
    {
        RecordingControlSink { sent: Vec::new() }
    }

    /// The most recent intent recorded.
    pub fn last(&self) -> (r: Option<&AgentControl>)
        ensures
            r == (if self.sent@.len() == 0 {
                None::<&AgentControl>
            } else {
                Some(&self.sent@.last())
            }),
    {
        if self.sent.len() == 0 {
            None
        } else {
            Some(&self.sent[self.sent.len() - 1])
        }
    }
}

impl ControlSink for RecordingControlSink {
    open spec fn controls_sent(&self) -> Seq<AgentControl> {
        self.sent@
    }

    /// Append the intent to the record.
    fn send(&mut self, control: AgentControl)
        ensures
            final(self).sent@ == old(self).sent@.push(control),
    {
        self.sent.push(control);
    }
}

} // verus!
