//! Native control shell of a desktop utility: the visible/hidden lifecycle of
//! a single application window, debounced global-hotkey toggling, tray-menu
//! routing, close-request interception, and load/save of a small user
//! configuration document.
//!
//! The library holds the decision logic only: every input source (tray click,
//! hotkey press, close request) is handed in as a plain value, and every
//! outcome is returned as a list of [`events::Effect`] values for the caller
//! to perform. Filesystem and GUI-toolkit work stays outside.

pub mod config;
pub mod debounce;
pub mod events;
pub mod shell;
pub mod visibility;
