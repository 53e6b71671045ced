//! Agents lens: the fleet texts, the live agent terminal session and the
//! New Session banner.

pub mod fleet;
pub mod terminal;
pub mod view;

pub use terminal::AgentTerminalSession;
