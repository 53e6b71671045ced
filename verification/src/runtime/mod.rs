//! Runtime: keyboard routing, the agent-terminal transport seam and the
//! session-launch seam.

pub mod input;
pub mod render;
pub mod session;
pub mod tty;

pub use input::{
    handle_key, handle_key_with_session, handle_key_with_sink, handle_terminal_key, pump_terminal,
    Flow, KeyCode, KeyEvent,
};
pub use session::{SessionHandle, SessionLauncher};
pub use tty::{AgentControl, ControlSink, TtyChunk, TtySource};
