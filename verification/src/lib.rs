//! Flight Deck terminal UI: the pure core of the jeryu operator console.
//!
//! The library holds the routing, focus, projection and formatting logic of the
//! Flight Deck; drawing into a terminal and reading the process environment are
//! left to the thin application layer around it.

pub mod app;
pub mod calendar;
pub mod focus;
pub mod lenses;
pub mod runtime;
pub mod text;
pub mod theme;
pub mod tuiwright;
