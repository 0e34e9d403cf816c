//! Viewport navigation, table formatting and query assembly for a terminal
//! browser of tabular data.

pub mod cli;
pub mod format;
pub mod frame;
pub mod queries;
pub mod session;
pub mod tui;
