//! Rendering the parts of the TUI.

pub mod table;
