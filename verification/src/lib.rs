//! Decision logic behind two editor status widgets: a floating per-pane
//! status overlay that hosts pluggable indicator items, and a dropdown menu
//! of editor display controls (inlay hints, diagnostics, line numbers, git
//! blame, input modes).
//!
//! The widgets themselves are drawn by a UI shell; this crate holds the part
//! that decides, from plain values, what the shell must show and do: which
//! menu entries appear and in what state, how the vim and helix input modes
//! flip, and which registered status items must be told of a pane change.

pub mod controls_menu;
pub mod input_modes;
pub mod pane_status;
