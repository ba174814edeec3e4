//! A minimal desktop application shell, modelled and verified: two commands
//! toggle a window's visibility, and a close request hides the window instead
//! of ending the process, the way a system-tray application behaves.
//!
//! The host GUI framework owns the native window; this library tracks the
//! window's state, decides what each command and each event does to it, and
//! proves those decisions correct. The host makes the platform calls and
//! reports their outcomes.

pub mod shell;
pub mod window;
