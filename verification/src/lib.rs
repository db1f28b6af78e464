//! A small macro library for timed synthetic keyboard input.
//!
//! The library validates a user configuration, turns the two fixed
//! actions — the "COM offset" and the "wall clip" — into exact,
//! deterministic sequences of key-down, key-up and wait steps, and
//! bridges OS-level global-hotkey events to those actions. A host
//! driver performs the recorded steps; nothing here sleeps or injects
//! input itself.

mod config;
mod hotkeys;
mod macros;

pub use config::Config;
pub use config::ShiftlockKey;
pub use hotkeys::classify_event;
pub use hotkeys::key_name_ok;
pub use hotkeys::HotkeyEvent;
pub use hotkeys::HotkeyManager;
pub use macros::InputStep;
pub use macros::MacroExecutor;
