//! Focus orchestration between a terminal window and a companion helper
//! window: locating the terminal among a process's ancestors, resolving a
//! process to its window, the two-party focus toggle behind a global
//! shortcut, and the activate / paste / submit keystroke sequence.
//!
//! Every decision is made here over plain values; the platform layer that
//! enumerates windows, installs the keyboard interceptor and injects
//! keystrokes hands those values in and performs what is decided.

pub mod delivery;
pub mod hook;
pub mod process;
pub mod resident;
pub mod text;
pub mod toggle;
pub mod window;
