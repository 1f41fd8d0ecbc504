//! Keystroke capture support library: compositor IPC protocol parsing,
//! keyboard-layout bookkeeping, and key-event translation state.

pub mod bubble;
pub mod compositor;
pub mod input;
pub mod tray;
pub mod text;
