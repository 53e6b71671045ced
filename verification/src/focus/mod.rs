//! Focus: pane identity, the drill-down state machine and pane chrome.

pub mod chrome;
pub mod pane;
pub mod state;

pub use chrome::{esc_label, is_active, should_show_esc, title_with_esc};
pub use pane::{NavDirection, PaneId};
pub use state::FocusState;
